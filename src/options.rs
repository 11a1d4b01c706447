//! `KEY=VALUE` options of the WKT and PROJJSON exports.
use vstd::prelude::*;
use vstd::string::*;
use vstd::utf8::*;
use crate::cstring::{c_string_array, is_c_string, lemma_c_string_iff_no_nul, utf8_entries, CStringArray};
use crate::error::{ProjCreateError, ProjError};
use crate::request::{decimal_of, digit_char, push_decimal};

verus! {

/// Whether axes are written in a WKT export.
#[derive(Clone, Copy, Debug, PartialEq, Eq, Structural)]
pub enum WktOutputAxis {
    Auto,
    Yes,
    No,
}

/// Versions of Well-Known Text.
#[allow(non_camel_case_types)]
#[derive(Clone, Copy, Debug, PartialEq, Eq, Structural)]
pub enum WktVersion {
    Wkt2_2015,
    Wkt2_2015_Simplified,
    Wkt2_2019,
    Wkt2_2019_Simplified,
    Wkt1_Gdal,
    Wkt1_Esri,
}

/// Formatting controls of a WKT export; each one that is set becomes one option.
#[derive(Clone, Copy, Debug, Default)]
pub struct WktOptions {
    /// Defaults to YES, except for WKT1_ESRI.
    pub multiline: Option<bool>,
    /// Defaults to 4 (when multiline output is on).
    pub indentation_width: Option<usize>,
    /// In AUTO mode, axis will be output for WKT2 variants, for WKT1_GDAL for ProjectedCRS
    /// with easting/northing ordering (otherwise stripped), but not for WKT1_ESRI.
    pub output_axis: Option<WktOutputAxis>,
    /// Default is YES.
    pub strict: Option<bool>,
    /// Default is NO. Only taken into account with WKT1_GDAL.
    pub allow_ellipsoidal_height_as_vertical_crs: Option<bool>,
    /// Only taken into account with WKT1_ESRI on a Geographic 3D CRS.
    pub allow_linunit_node: Option<bool>,
}

/// The engine's code of a WKT version (its `PJ_WKT_TYPE`).
pub open spec fn wkt_code(v: WktVersion) -> u32 {
    match v {
        WktVersion::Wkt2_2015 => 0,
        WktVersion::Wkt2_2015_Simplified => 1,
        WktVersion::Wkt2_2019 => 2,
        WktVersion::Wkt2_2019_Simplified => 3,
        WktVersion::Wkt1_Gdal => 4,
        WktVersion::Wkt1_Esri => 5,
    }
}

/// The engine's code of the requested WKT version; WKT2:2019 when none is requested.
pub fn wkt_type(version: Option<WktVersion>) -> (r: u32)
    ensures
        r == wkt_code(
            match version {
                Some(v) => v,
                None => WktVersion::Wkt2_2019,
            },
        ),
{
    match version {
        Some(WktVersion::Wkt2_2015) => 0,
        Some(WktVersion::Wkt2_2015_Simplified) => 1,
        None | Some(WktVersion::Wkt2_2019) => 2,
        Some(WktVersion::Wkt2_2019_Simplified) => 3,
        Some(WktVersion::Wkt1_Gdal) => 4,
        Some(WktVersion::Wkt1_Esri) => 5,
    }
}

/// `YES` or `NO`.
pub open spec fn yes_no(b: bool) -> Seq<char> {
    if b {
        "YES"@
    } else {
        "NO"@
    }
}

/// One option `key=value`, or nothing when the value is not set.
pub open spec fn flag_entry(key: Seq<char>, value: Option<bool>) -> Seq<Seq<char>> {
    match value {
        Some(b) => seq![key + "="@ + yes_no(b)],
        None => seq![],
    }
}

/// `INDENTATION_WIDTH=n`, or nothing.
pub open spec fn width_entry(value: Option<usize>) -> Seq<Seq<char>> {
    match value {
        Some(w) => seq!["INDENTATION_WIDTH="@ + decimal_of(w as nat)],
        None => seq![],
    }
}

/// The text of an axis policy.
pub open spec fn axis_text(a: WktOutputAxis) -> Seq<char> {
    match a {
        WktOutputAxis::Auto => "AUTO"@,
        WktOutputAxis::Yes => "YES"@,
        WktOutputAxis::No => "NO"@,
    }
}

/// The options of a WKT export, in this order: MULTILINE, INDENTATION_WIDTH, OUTPUT_AXIS,
/// STRICT, ALLOW_ELLIPSOIDAL_HEIGHT_AS_VERTICAL_CRS, ALLOW_LINUNIT_NODE.
pub open spec fn wkt_entries(o: WktOptions) -> Seq<Seq<char>> {
    flag_entry("MULTILINE"@, o.multiline) + width_entry(o.indentation_width) + match o.output_axis {
        Some(a) => seq!["OUTPUT_AXIS="@ + axis_text(a)],
        None => seq![],
    } + flag_entry("STRICT"@, o.strict) + flag_entry(
        "ALLOW_ELLIPSOIDAL_HEIGHT_AS_VERTICAL_CRS"@,
        o.allow_ellipsoidal_height_as_vertical_crs,
    ) + flag_entry("ALLOW_LINUNIT_NODE"@, o.allow_linunit_node)
}

/// The options of a PROJJSON export, in this order: MULTILINE, INDENTATION_WIDTH, SCHEMA.
pub open spec fn projjson_entries(
    multiline: Option<bool>,
    indentation_width: Option<usize>,
    schema: Option<Seq<char>>,
) -> Seq<Seq<char>> {
    flag_entry("MULTILINE"@, multiline) + width_entry(indentation_width) + match schema {
        Some(s) => seq!["SCHEMA="@ + s],
        None => seq![],
    }
}

/// The text of a list of strings.
pub open spec fn texts(v: Seq<String>) -> Seq<Seq<char>> {
    v.map_values(|s: String| s@)
}

fn yes_no_str(b: bool) -> (r: &'static str)
    ensures
        r@ == yes_no(b),
{
    if b {
        "YES"
    } else {
        "NO"
    }
}

fn push_flag(out: &mut Vec<String>, key: &str, value: Option<bool>)
    ensures
        texts(final(out)@) == texts(old(out)@) + flag_entry(key@, value),
{
    let ghost before = texts(out@);
    match value {
        Some(b) => {
            let mut s = String::from_str(key);
            s.append("=");
            s.append(yes_no_str(b));
            out.push(s);
            assert(texts(out@) =~= before + flag_entry(key@, value));
        },
        None => {
            assert(texts(out@) =~= before + flag_entry(key@, value));
        },
    }
}

fn push_width(out: &mut Vec<String>, value: Option<usize>)
    ensures
        texts(final(out)@) == texts(old(out)@) + width_entry(value),
{
    let ghost before = texts(out@);
    match value {
        Some(w) => {
            let mut s = String::from_str("INDENTATION_WIDTH=");
            push_decimal(&mut s, w as u64);
            out.push(s);
            assert(texts(out@) =~= before + width_entry(value));
        },
        None => {
            assert(texts(out@) =~= before + width_entry(value));
        },
    }
}

/// The option strings of a WKT export.
pub fn wkt_option_strings(options: &WktOptions) -> (r: Vec<String>)
    ensures
        texts(r@) == wkt_entries(*options),
{
    let mut out: Vec<String> = Vec::new();
    assert(texts(out@) =~= seq![]);
    push_flag(&mut out, "MULTILINE", options.multiline);
    push_width(&mut out, options.indentation_width);
    match options.output_axis {
        Some(a) => {
            let mut s = String::from_str("OUTPUT_AXIS=");
            let text = match a {
                WktOutputAxis::Auto => "AUTO",
                WktOutputAxis::Yes => "YES",
                WktOutputAxis::No => "NO",
            };
            s.append(text);
            let ghost before = texts(out@);
            out.push(s);
            assert(texts(out@) =~= before + seq!["OUTPUT_AXIS="@ + axis_text(a)]);
        },
        None => {},
    }
    push_flag(&mut out, "STRICT", options.strict);
    push_flag(
        &mut out,
        "ALLOW_ELLIPSOIDAL_HEIGHT_AS_VERTICAL_CRS",
        options.allow_ellipsoidal_height_as_vertical_crs,
    );
    push_flag(&mut out, "ALLOW_LINUNIT_NODE", options.allow_linunit_node);
    assert(texts(out@) =~= wkt_entries(*options));
    out
}

/// The option strings of a PROJJSON export.
pub fn projjson_option_strings(
    multiline: Option<bool>,
    indentation_width: Option<usize>,
    schema: Option<&str>,
) -> (r: Vec<String>)
    ensures
        texts(r@) == projjson_entries(
            multiline,
            indentation_width,
            match schema {
                Some(s) => Some(s@),
                None => None,
            },
        ),
{
    let mut out: Vec<String> = Vec::new();
    assert(texts(out@) =~= seq![]);
    push_flag(&mut out, "MULTILINE", multiline);
    push_width(&mut out, indentation_width);
    match schema {
        Some(sc) => {
            let mut s = String::from_str("SCHEMA=");
            s.append(sc);
            let ghost before = texts(out@);
            out.push(s);
            assert(texts(out@) =~= before + seq!["SCHEMA="@ + sc@]);
        },
        None => {},
    }
    out
}

/// Printable ASCII text: no control character, so in particular no NUL.
pub open spec fn is_printable_ascii(s: Seq<char>) -> bool {
    forall|i: int| 0 <= i < s.len() ==> ' ' <= #[trigger] s[i] <= '~'
}

proof fn lemma_printable_concat(a: Seq<char>, b: Seq<char>)
    requires
        is_printable_ascii(a),
        is_printable_ascii(b),
    ensures
        is_printable_ascii(a + b),
{
    assert forall|i: int| 0 <= i < (a + b).len() implies ' ' <= #[trigger] (a + b)[i] <= '~' by {
        if i >= a.len() {
            assert((a + b)[i] == b[i - a.len()]);
        }
    }
}

proof fn lemma_decimal_printable(n: nat)
    ensures
        is_printable_ascii(decimal_of(n)),
    decreases n,
{
    if n >= 10 {
        lemma_decimal_printable(n / 10);
        lemma_printable_concat(decimal_of(n / 10), seq![digit_char(n % 10)]);
    }
}

/// Printable ASCII text is a C string once encoded.
pub proof fn lemma_printable_c_string(s: Seq<char>)
    requires
        is_printable_ascii(s),
    ensures
        is_c_string(encode_utf8(s)),
{
    assert(is_ascii_chars(s));
    is_ascii_chars_encode_utf8(s);
    let b = encode_utf8(s);
    lemma_c_string_iff_no_nul(b);
    if b.contains(0u8) {
        let k = choose|k: int| 0 <= k < b.len() && b[k] == 0u8;
        assert(s[k] as u8 == b[k]);
    }
}

proof fn lemma_flag_printable(key: Seq<char>, value: Option<bool>)
    requires
        is_printable_ascii(key),
    ensures
        forall|i: int|
            0 <= i < flag_entry(key, value).len() ==> is_printable_ascii(
                #[trigger] flag_entry(key, value)[i],
            ),
{
    reveal_strlit("=");
    reveal_strlit("YES");
    reveal_strlit("NO");
    if let Some(b) = value {
        lemma_printable_concat(key, "="@);
        lemma_printable_concat(key + "="@, yes_no(b));
    }
}

proof fn lemma_wkt_entries_printable(o: WktOptions)
    ensures
        forall|i: int|
            0 <= i < wkt_entries(o).len() ==> is_printable_ascii(#[trigger] wkt_entries(o)[i]),
{
    reveal_strlit("MULTILINE");
    reveal_strlit("INDENTATION_WIDTH=");
    reveal_strlit("OUTPUT_AXIS=");
    reveal_strlit("AUTO");
    reveal_strlit("YES");
    reveal_strlit("NO");
    reveal_strlit("STRICT");
    reveal_strlit("ALLOW_ELLIPSOIDAL_HEIGHT_AS_VERTICAL_CRS");
    reveal_strlit("ALLOW_LINUNIT_NODE");
    lemma_flag_printable("MULTILINE"@, o.multiline);
    lemma_flag_printable("STRICT"@, o.strict);
    lemma_flag_printable(
        "ALLOW_ELLIPSOIDAL_HEIGHT_AS_VERTICAL_CRS"@,
        o.allow_ellipsoidal_height_as_vertical_crs,
    );
    lemma_flag_printable("ALLOW_LINUNIT_NODE"@, o.allow_linunit_node);
    let width = width_entry(o.indentation_width);
    if let Some(w) = o.indentation_width {
        lemma_decimal_printable(w as nat);
        lemma_printable_concat("INDENTATION_WIDTH="@, decimal_of(w as nat));
    }
    let axis: Seq<Seq<char>> = match o.output_axis {
        Some(a) => seq!["OUTPUT_AXIS="@ + axis_text(a)],
        None => seq![],
    };
    if let Some(a) = o.output_axis {
        lemma_printable_concat("OUTPUT_AXIS="@, axis_text(a));
    }
    let parts = seq![
        flag_entry("MULTILINE"@, o.multiline),
        width,
        axis,
        flag_entry("STRICT"@, o.strict),
        flag_entry(
            "ALLOW_ELLIPSOIDAL_HEIGHT_AS_VERTICAL_CRS"@,
            o.allow_ellipsoidal_height_as_vertical_crs,
        ),
        flag_entry("ALLOW_LINUNIT_NODE"@, o.allow_linunit_node),
    ];
    let all = wkt_entries(o);
    assert forall|i: int| 0 <= i < all.len() implies is_printable_ascii(#[trigger] all[i]) by {
        let a0 = parts[0];
        let a1 = a0 + parts[1];
        let a2 = a1 + parts[2];
        let a3 = a2 + parts[3];
        let a4 = a3 + parts[4];
        assert(all == a4 + parts[5]);
        if i < a0.len() {
            assert(all[i] == a0[i]);
        } else if i < a1.len() {
            assert(all[i] == parts[1][i - a0.len()]);
        } else if i < a2.len() {
            assert(all[i] == parts[2][i - a1.len()]);
        } else if i < a3.len() {
            assert(all[i] == parts[3][i - a2.len()]);
        } else if i < a4.len() {
            assert(all[i] == parts[4][i - a3.len()]);
        } else {
            assert(all[i] == parts[5][i - a4.len()]);
        }
    }
}

/// The options array of a WKT export: always built, with the options that are set; no
/// options give an empty array.
pub fn wkt_options(options: &Option<WktOptions>) -> (r: Result<CStringArray, ProjError>)
    ensures
        r is Ok,
        options_array(
            match options {
                Some(o) => wkt_entries(*o),
                None => seq![],
            },
            r,
        ),
{
    proof {
        let entries = match options {
            Some(o) => wkt_entries(*o),
            None => seq![],
        };
        if let Some(o) = options {
            lemma_wkt_entries_printable(*o);
        }
        assert forall|i: int| 0 <= i < entries.len() implies is_c_string(
            #[trigger] utf8_entries_of(entries)[i],
        ) by {
            lemma_printable_c_string(entries[i]);
        }
    }
    let strings = match options {
        Some(o) => wkt_option_strings(o),
        None => Vec::new(),
    };
    let ghost entries = match options {
        Some(o) => wkt_entries(*o),
        None => seq![],
    };
    assert(texts(strings@) =~= entries);
    proof {
        lemma_utf8_entries_texts(strings@);
    }
    let r = c_string_array(&strings);
    assert(utf8_entries_of(texts(strings@)).len() == strings@.len());
    match r {
        Ok(a) => Ok(a),
        Err(e) => Err(ProjError::Creation(e)),
    }
}

proof fn lemma_encode_concat(a: Seq<char>, b: Seq<char>)
    ensures
        encode_utf8(a + b) == encode_utf8(a) + encode_utf8(b),
    decreases a.len(),
{
    if a.len() == 0 {
        assert(a + b =~= b);
        assert(encode_utf8(a) + encode_utf8(b) =~= encode_utf8(b));
    } else {
        lemma_encode_concat(a.drop_first(), b);
        assert((a + b)[0] == a[0]);
        assert((a + b).drop_first() =~= a.drop_first() + b);
        let e0 = encode_scalar(a[0] as u32);
        assert(e0 + (encode_utf8(a.drop_first()) + encode_utf8(b)) =~= (e0 + encode_utf8(
            a.drop_first(),
        )) + encode_utf8(b));
    }
}

proof fn lemma_c_string_concat(x: Seq<u8>, y: Seq<u8>)
    ensures
        is_c_string(x + y) <==> is_c_string(x) && is_c_string(y),
{
    lemma_c_string_iff_no_nul(x);
    lemma_c_string_iff_no_nul(y);
    lemma_c_string_iff_no_nul(x + y);
    if (x + y).contains(0u8) {
        let k = choose|k: int| 0 <= k < (x + y).len() && (x + y)[k] == 0u8;
        if k < x.len() {
            assert(x[k] == 0u8);
        } else {
            assert(y[k - x.len()] == 0u8);
        }
    }
    if x.contains(0u8) {
        let k = choose|k: int| 0 <= k < x.len() && x[k] == 0u8;
        assert((x + y)[k] == 0u8);
    }
    if y.contains(0u8) {
        let k = choose|k: int| 0 <= k < y.len() && y[k] == 0u8;
        assert((x + y)[k + x.len()] == 0u8);
    }
}

/// The options array of a PROJJSON export; it is built exactly when the schema, if any,
/// holds no NUL byte.
pub fn projjson_options(
    multiline: Option<bool>,
    indentation_width: Option<usize>,
    schema: Option<&str>,
) -> (r: Result<CStringArray, ProjError>)
    ensures
        r is Ok <==> match schema {
            Some(s) => is_c_string(s.spec_bytes()),
            None => true,
        },
        options_array(
            projjson_entries(
                multiline,
                indentation_width,
                match schema {
                    Some(s) => Some(s@),
                    None => None,
                },
            ),
            r,
        ),
{
    let strings = projjson_option_strings(multiline, indentation_width, schema);
    proof {
        lemma_utf8_entries_texts(strings@);
        reveal_strlit("MULTILINE");
        reveal_strlit("INDENTATION_WIDTH=");
        reveal_strlit("SCHEMA=");
        lemma_flag_printable("MULTILINE"@, multiline);
        if let Some(w) = indentation_width {
            lemma_decimal_printable(w as nat);
            lemma_printable_concat("INDENTATION_WIDTH="@, decimal_of(w as nat));
        }
        let fixed = flag_entry("MULTILINE"@, multiline) + width_entry(indentation_width);
        assert forall|i: int| 0 <= i < fixed.len() implies is_c_string(
            #[trigger] utf8_entries_of(fixed)[i],
        ) by {
            if i < flag_entry("MULTILINE"@, multiline).len() {
                assert(fixed[i] == flag_entry("MULTILINE"@, multiline)[i]);
            } else {
                assert(fixed[i] == width_entry(indentation_width)[i - flag_entry(
                    "MULTILINE"@,
                    multiline,
                ).len()]);
            }
            lemma_printable_c_string(fixed[i]);
        }
        let entries = projjson_entries(
            multiline,
            indentation_width,
            match schema {
                Some(s) => Some(s@),
                None => None,
            },
        );
        match schema {
            Some(sc) => {
                assert(entries == fixed.push("SCHEMA="@ + sc@));
                lemma_encode_concat("SCHEMA="@, sc@);
                lemma_printable_c_string("SCHEMA="@);
                lemma_c_string_concat(encode_utf8("SCHEMA="@), sc.spec_bytes());
                assert(utf8_entries_of(entries)[fixed.len() as int] == encode_utf8("SCHEMA="@)
                    + sc.spec_bytes());
                assert forall|i: int| 0 <= i < fixed.len() implies utf8_entries_of(entries)[i]
                    == #[trigger] utf8_entries_of(fixed)[i] by {}
            },
            None => {
                assert(entries =~= fixed);
            },
        }
    }
    let r = c_string_array(&strings);
    proof {
        let n = flag_entry("MULTILINE"@, multiline).len() + width_entry(indentation_width).len();
        assert(schema is Some && r is Ok ==> is_c_string(schema->Some_0.spec_bytes())) by {
            if schema is Some && r is Ok {
                assert(is_c_string(utf8_entries(strings@)[n as int]));
            }
        }
        assert(r is Err ==> schema is Some && !is_c_string(schema->Some_0.spec_bytes())) by {
            if r is Err {
                let u = utf8_entries(strings@);
                let k = choose|k: int| 0 <= k < strings@.len() && !is_c_string(#[trigger] u[k]);
                let fixed = flag_entry("MULTILINE"@, multiline) + width_entry(indentation_width);
                if k < n {
                    assert(u[k] == utf8_entries_of(fixed)[k]);
                }
            }
        }
    }
    match r {
        Ok(a) => Ok(a),
        Err(e) => Err(ProjError::Creation(e)),
    }
}

/// The UTF-8 bytes of each string.
pub open spec fn str_bytes(v: Seq<&str>) -> Seq<Seq<u8>> {
    v.map_values(|o: &str| o.spec_bytes())
}

/// `r` is the matcher options array of `entries`: it is built exactly when no entry holds a
/// NUL byte, and then holds each entry in order.
pub open spec fn matcher_array(entries: Seq<Seq<u8>>, r: Result<CStringArray, ProjCreateError>) -> bool {
    &&& r is Ok <==> forall|i: int| 0 <= i < entries.len() ==> is_c_string(#[trigger] entries[i])
    &&& r matches Ok(a) ==> a.wf() && a.view() == entries
    &&& r matches Err(e) ==> e is ArgumentNulError
}

/// The options array of a CRS-to-CRS matcher, passed on verbatim (`AUTHORITY=EPSG`,
/// `ALLOW_BALLPARK=NO`, ...); no options give an empty array, and an interior NUL in any
/// option fails.
pub fn matcher_options(options: &Option<Vec<&str>>) -> (r: Result<CStringArray, ProjCreateError>)
    ensures
        matcher_array(
            match options {
                Some(v) => str_bytes(v@),
                None => seq![],
            },
            r,
        ),
{
    let mut a = CStringArray::new();
    match options {
        Some(v) => {
            let ghost entries = str_bytes(v@);
            let mut i: usize = 0;
            while i < v.len()
                invariant
                    i <= v@.len(),
                    entries == str_bytes(v@),
                    entries == match options {
                        Some(w) => str_bytes(w@),
                        None => seq![],
                    },
                    a.wf(),
                    a.view() == entries.subrange(0, i as int),
                    forall|k: int| 0 <= k < i ==> is_c_string(#[trigger] entries[k]),
                decreases v@.len() - i,
            {
                assert(entries[i as int] == v@[i as int].spec_bytes());
                match a.push(v[i]) {
                    Ok(()) => {},
                    Err(e) => {
                        assert(!is_c_string(entries[i as int]));
                        return Err(ProjCreateError::ArgumentNulError(e));
                    },
                }
                assert(a.view() =~= entries.subrange(0, i + 1));
                i = i + 1;
            }
            assert(a.view() =~= entries);
        },
        None => {},
    }
    Ok(a)
}

/// `r` is the options array of `entries`: it is built exactly when no entry holds a NUL
/// byte, and then holds the bytes of each entry in order.
pub open spec fn options_array(entries: Seq<Seq<char>>, r: Result<CStringArray, ProjError>) -> bool {
    &&& r is Ok <==> forall|i: int|
        0 <= i < entries.len() ==> is_c_string(#[trigger] utf8_entries_of(entries)[i])
    &&& r matches Ok(a) ==> a.wf() && a.view() == utf8_entries_of(entries)
    &&& r matches Err(e) ==> e is Creation
}

/// The UTF-8 bytes of each text.
pub open spec fn utf8_entries_of(entries: Seq<Seq<char>>) -> Seq<Seq<u8>> {
    entries.map_values(|e: Seq<char>| vstd::utf8::encode_utf8(e))
}

proof fn lemma_utf8_entries_texts(v: Seq<String>)
    ensures
        utf8_entries(v) == utf8_entries_of(texts(v)),
{
    assert(utf8_entries(v) =~= utf8_entries_of(texts(v)));
}

} // verus!
