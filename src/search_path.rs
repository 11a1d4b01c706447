//! The engine's list of resource search paths.
use vstd::prelude::*;
use vstd::string::*;
use crate::cstring::{c_string_array, is_c_string, utf8_entries, CStringArray};
use crate::error::ProjError;

verus! {

/// The separator of the engine's search path list on Unix-like systems.
pub const UNIX_PATH_SEPARATOR: char = ':';

/// The separator of the engine's search path list on Windows.
pub const WINDOWS_PATH_SEPARATOR: char = ';';

/// `s` cut at every `sep`, as `str::split` cuts it: `k` separators give `k + 1` pieces.
pub open spec fn split_at_sep(s: Seq<char>, sep: char) -> Seq<Seq<char>>
    decreases s.len(),
{
    if s.len() == 0 {
        seq![seq![]]
    } else {
        let init = split_at_sep(s.drop_last(), sep);
        if s.last() == sep {
            init.push(seq![])
        } else {
            init.update(init.len() - 1, init.last().push(s.last()))
        }
    }
}

/// The pieces of `s` between separators `sep`.
pub fn split_paths(s: &str, sep: char) -> (r: Vec<String>)
    ensures
        r@.map_values(|p: String| p@) == split_at_sep(s@, sep),
{
    let n = s.unicode_len();
    let mut pieces: Vec<String> = Vec::new();
    let mut start: usize = 0;
    let mut i: usize = 0;
    assert(s@.subrange(0, 0) =~= Seq::<char>::empty());
    assert(pieces@.map_values(|p: String| p@).push(s@.subrange(0, 0)) =~= seq![Seq::<char>::empty()]);
    while i < n
        invariant
            n == s@.len(),
            start <= i <= n,
            pieces@.map_values(|p: String| p@).push(s@.subrange(start as int, i as int))
                == split_at_sep(s@.subrange(0, i as int), sep),
        decreases n - i,
    {
        let c = s.get_char(i);
        let ghost pre = s@.subrange(0, i as int + 1);
        assert(pre.drop_last() =~= s@.subrange(0, i as int));
        assert(pre.last() == c);
        if c == sep {
            let piece = String::from_str(s.substring_char(start, i));
            let ghost before = pieces@.map_values(|p: String| p@);
            pieces.push(piece);
            assert(pieces@.map_values(|p: String| p@) =~= before.push(s@.subrange(start as int, i as int)));
            assert(s@.subrange(i as int + 1, i as int + 1) =~= seq![]);
            start = i + 1;
        } else {
            let ghost before = pieces@.map_values(|p: String| p@);
            assert(s@.subrange(start as int, i as int + 1) =~= s@.subrange(start as int, i as int).push(c));
            assert(before.push(s@.subrange(start as int, i as int + 1)) =~= before.push(
                s@.subrange(start as int, i as int),
            ).update(before.len() as int, s@.subrange(start as int, i as int).push(c)));
        }
        i = i + 1;
    }
    let last = String::from_str(s.substring_char(start, n));
    pieces.push(last);
    assert(s@.subrange(0, n as int) =~= s@);
    pieces
}

/// The search path list with `newpath` added after the `existing` entries, which are
/// separated by `sep`.
pub open spec fn extended_paths(existing: Seq<char>, sep: char, newpath: Seq<char>) -> Seq<Seq<char>> {
    split_at_sep(existing, sep).push(newpath)
}

/// The entries of the search path list `existing`, whose entries are separated by `sep`
/// (the platform's separator), with `newpath` added at the end, ready for the engine; an
/// interior NUL in any of them fails.
pub fn search_path_entries(existing: &str, sep: char, newpath: &str) -> (r: Result<
    CStringArray,
    ProjError,
>)
    ensures
        ({
            let entries = extended_paths(existing@, sep, newpath@).map_values(
                |e: Seq<char>| vstd::utf8::encode_utf8(e),
            );
            &&& r is Ok <==> forall|i: int| 0 <= i < entries.len() ==> is_c_string(#[trigger] entries[i])
            &&& r matches Ok(a) ==> a.wf() && a.view() == entries
            &&& r matches Err(e) ==> e is Creation
        }),
{
    let mut paths = split_paths(existing, sep);
    let ghost before = paths@.map_values(|p: String| p@);
    paths.push(String::from_str(newpath));
    let ghost entries = extended_paths(existing@, sep, newpath@).map_values(
        |e: Seq<char>| vstd::utf8::encode_utf8(e),
    );
    assert(paths@.map_values(|p: String| p@) =~= extended_paths(existing@, sep, newpath@));
    assert(utf8_entries(paths@) =~= entries);
    match c_string_array(&paths) {
        Ok(a) => Ok(a),
        Err(e) => Err(ProjError::Creation(e)),
    }
}

} // verus!
