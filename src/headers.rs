//! Response headers kept for the engine's header lookups.
use vstd::prelude::*;
use crate::error::ProjError;
use crate::request::{parse_content_length, usize_of};

verus! {

/// A header as name and value bytes.
pub type RawHeader = (Vec<u8>, Vec<u8>);

/// The contents of a list of headers.
pub open spec fn headers_view(h: Seq<RawHeader>) -> Seq<(Seq<u8>, Seq<u8>)> {
    h.map_values(|e: RawHeader| (e.0@, e.1@))
}

/// A byte that may stand in a header value that reads as text: visible ASCII or a tab.
pub open spec fn is_visible_ascii(b: u8) -> bool {
    (32 <= b && b < 127) || b == 9
}

/// A header value that reads as text.
pub open spec fn is_text_value(v: Seq<u8>) -> bool {
    forall|i: int| 0 <= i < v.len() ==> is_visible_ascii(#[trigger] v[i])
}

/// ASCII lower case of one byte; other bytes are kept.
pub open spec fn lower_byte(b: u8) -> u8 {
    if 65 <= b && b <= 90 {
        (b + 32) as u8
    } else {
        b
    }
}

/// ASCII lower case of a byte string.
pub open spec fn fold_case(s: Seq<u8>) -> Seq<u8> {
    s.map_values(|b: u8| lower_byte(b))
}

/// Two header names that are equal up to ASCII case.
pub open spec fn same_name(a: Seq<u8>, b: Seq<u8>) -> bool {
    fold_case(a) == fold_case(b)
}

/// The headers of a response that are kept for lookups: those whose value reads as text,
/// in their order.
pub open spec fn kept(h: Seq<(Seq<u8>, Seq<u8>)>) -> Seq<(Seq<u8>, Seq<u8>)>
    decreases h.len(),
{
    if h.len() == 0 {
        seq![]
    } else if is_text_value(h.last().1) {
        kept(h.drop_last()).push(h.last())
    } else {
        kept(h.drop_last())
    }
}

/// The value of the last header named `name`, up to ASCII case.
pub open spec fn lookup(h: Seq<(Seq<u8>, Seq<u8>)>, name: Seq<u8>) -> Option<Seq<u8>>
    decreases h.len(),
{
    if h.len() == 0 {
        None
    } else if same_name(h.last().0, name) {
        Some(h.last().1)
    } else {
        lookup(h.drop_last(), name)
    }
}

/// The value of the first header named `name`, up to ASCII case.
pub open spec fn first_value(h: Seq<(Seq<u8>, Seq<u8>)>, name: Seq<u8>) -> Option<Seq<u8>>
    decreases h.len(),
{
    if h.len() == 0 {
        None
    } else if same_name(h[0].0, name) {
        Some(h[0].1)
    } else {
        first_value(h.drop_first(), name)
    }
}

/// `content-length`.
pub open spec fn content_length_name() -> Seq<u8> {
    seq![99u8, 111, 110, 116, 101, 110, 116, 45, 108, 101, 110, 103, 116, 104]
}

/// ASCII lower case of one byte.
pub fn to_lower_byte(b: u8) -> (r: u8)
    ensures
        r == lower_byte(b),
{
    if 65u8 <= b && b <= 90u8 {
        b + 32
    } else {
        b
    }
}

/// Whether two byte strings are equal up to ASCII case.
pub fn eq_ignore_ascii_case(a: &[u8], b: &[u8]) -> (r: bool)
    ensures
        r == same_name(a@, b@),
{
    if a.len() != b.len() {
        assert(fold_case(a@).len() != fold_case(b@).len());
        return false;
    }
    let mut i: usize = 0;
    while i < a.len()
        invariant
            a@.len() == b@.len(),
            i <= a@.len(),
            forall|k: int| 0 <= k < i ==> lower_byte(#[trigger] a@[k]) == lower_byte(b@[k]),
        decreases a@.len() - i,
    {
        if to_lower_byte(a[i]) != to_lower_byte(b[i]) {
            assert(fold_case(a@)[i as int] != fold_case(b@)[i as int]);
            return false;
        }
        i = i + 1;
    }
    assert(fold_case(a@) =~= fold_case(b@));
    true
}

/// Whether a header value reads as text.
pub fn is_text(v: &[u8]) -> (r: bool)
    ensures
        r == is_text_value(v@),
{
    let mut i: usize = 0;
    while i < v.len()
        invariant
            i <= v@.len(),
            forall|k: int| 0 <= k < i ==> is_visible_ascii(#[trigger] v@[k]),
        decreases v@.len() - i,
    {
        let b = v[i];
        if !((32u8 <= b && b < 127u8) || b == 9u8) {
            return false;
        }
        i = i + 1;
    }
    true
}

fn content_length_name_bytes() -> (r: Vec<u8>)
    ensures
        r@ == content_length_name(),
{
    let r = vec![99u8, 111, 110, 116, 101, 110, 116, 45, 108, 101, 110, 103, 116, 104];
    assert(r@ =~= content_length_name());
    r
}

/// The length a response announces: its first `Content-Length` header, read as a `usize`.
pub fn content_length(headers: &Vec<RawHeader>) -> (r: Result<usize, ProjError>)
    ensures
        match first_value(headers_view(headers@), content_length_name()) {
            Some(v) => match usize_of(v) {
                Some(n) => r == Ok::<usize, ProjError>(n as usize),
                None => r is Err && r->Err_0 is ContentLength,
            },
            None => r is Err && r->Err_0 is ContentLength,
        },
{
    let name = content_length_name_bytes();
    let ghost h = headers_view(headers@);
    let mut i: usize = 0;
    assert(h.subrange(0, h.len() as int) =~= h);
    while i < headers.len()
        invariant
            i <= headers@.len(),
            h == headers_view(headers@),
            name@ == content_length_name(),
            first_value(h, content_length_name()) == first_value(
                h.subrange(i as int, h.len() as int),
                content_length_name(),
            ),
        decreases headers@.len() - i,
    {
        let ghost rest = h.subrange(i as int, h.len() as int);
        assert(rest[0] == h[i as int]);
        if eq_ignore_ascii_case(headers[i].0.as_slice(), name.as_slice()) {
            return match parse_content_length(headers[i].1.as_slice()) {
                Some(n) => Ok(n),
                None => Err(ProjError::ContentLength),
            };
        }
        assert(rest.drop_first() =~= h.subrange(i + 1, h.len() as int));
        i = i + 1;
    }
    assert(h.subrange(i as int, h.len() as int).len() == 0);
    Err(ProjError::ContentLength)
}

/// The headers of the last response of a resource, for the engine's lookups.
#[derive(Debug)]
pub struct HeaderCache {
    entries: Vec<RawHeader>,
}

impl HeaderCache {
    /// Name and value of each header kept, in order.
    pub closed spec fn view(&self) -> Seq<(Seq<u8>, Seq<u8>)> {
        headers_view(self.entries@)
    }

    /// A cache holding nothing.
    pub fn new() -> (r: HeaderCache)
        ensures
            r.view().len() == 0,
    {
        let r = HeaderCache { entries: Vec::new() };
        assert(r.view() =~= seq![]);
        r
    }

    /// Keep the headers of a response whose value reads as text.
    pub fn from_response(headers: Vec<RawHeader>) -> (r: HeaderCache)
        ensures
            r.view() == kept(headers_view(headers@)),
    {
        let ghost h = headers_view(headers@);
        let mut entries: Vec<RawHeader> = Vec::new();
        let mut headers = headers;
        let mut rest: Vec<RawHeader> = Vec::new();
        // walk the headers from the last one, then restore the order
        let n = headers.len();
        while headers.len() > 0
            invariant
                h.len() == n,
                headers@.len() <= n,
                headers_view(headers@) == h.subrange(0, headers@.len() as int),
                kept(h) == kept(h.subrange(0, headers@.len() as int)) + headers_view(rest@).reverse(),
            decreases headers@.len(),
        {
            let ghost before = headers@;
            let e = headers.pop().unwrap();
            let ghost k = headers@.len() as int;
            assert(h.subrange(0, k + 1).drop_last() =~= h.subrange(0, k));
            assert(h.subrange(0, k + 1).last() == (e.0@, e.1@));
            assert(headers_view(headers@) =~= h.subrange(0, k));
            if is_text(e.1.as_slice()) {
                let ghost old_rest = headers_view(rest@);
                rest.push(e);
                assert(headers_view(rest@) =~= old_rest.push((e.0@, e.1@)));
                assert(headers_view(rest@).reverse() =~= seq![(e.0@, e.1@)] + old_rest.reverse());
                assert(kept(h.subrange(0, k + 1)) =~= kept(h.subrange(0, k)).push((e.0@, e.1@)));
            }
        }
        assert(h.subrange(0, 0) =~= seq![]);
        let ghost target = headers_view(rest@).reverse();
        while rest.len() > 0
            invariant
                headers_view(entries@) + headers_view(rest@).reverse() == target,
            decreases rest@.len(),
        {
            let ghost old_rest = headers_view(rest@);
            let ghost old_entries = headers_view(entries@);
            let e = rest.pop().unwrap();
            entries.push(e);
            assert(old_rest =~= headers_view(rest@).push((e.0@, e.1@)));
            assert(old_rest.reverse() =~= seq![(e.0@, e.1@)] + headers_view(rest@).reverse());
            assert(headers_view(entries@) =~= old_entries.push((e.0@, e.1@)));
        }
        assert(headers_view(rest@).reverse() =~= seq![]);
        assert(headers_view(entries@) =~= target);
        HeaderCache { entries }
    }

    /// The value of the last kept header named `name`, up to ASCII case.
    pub fn get(&self, name: &[u8]) -> (r: Option<&Vec<u8>>)
        ensures
            match lookup(self.view(), name@) {
                Some(v) => r is Some && r->Some_0@ == v,
                None => r is None,
            },
    {
        let ghost h = self.view();
        let mut i: usize = self.entries.len();
        assert(h.subrange(0, h.len() as int) =~= h);
        while i > 0
            invariant
                i <= self.entries@.len(),
                h == self.view(),
                lookup(h, name@) == lookup(h.subrange(0, i as int), name@),
            decreases i,
        {
            let ghost pre = h.subrange(0, i as int);
            assert(pre.last() == h[i - 1]);
            if eq_ignore_ascii_case(self.entries[i - 1].0.as_slice(), name) {
                return Some(&self.entries[i - 1].1);
            }
            assert(pre.drop_last() =~= h.subrange(0, i - 1));
            i = i - 1;
        }
        None
    }
}

} // verus!
