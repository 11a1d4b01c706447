//! NUL-terminated strings and option arrays for the engine.
use vstd::prelude::*;
use vstd::string::*;
use vstd::utf8::*;
use crate::error::NulError;
use crate::request::{first_nul, lemma_first_nul_bounds};

verus! {

/// A byte string that can be handed to the engine as a C string: it holds no NUL byte.
pub open spec fn is_c_string(s: Seq<u8>) -> bool {
    first_nul(s) == s.len()
}

/// A byte string can be handed to the engine exactly when it holds no NUL byte.
pub proof fn lemma_c_string_iff_no_nul(s: Seq<u8>)
    ensures
        is_c_string(s) <==> !s.contains(0u8),
    decreases s.len(),
{
    if s.len() > 0 {
        lemma_c_string_iff_no_nul(s.drop_first());
        lemma_first_nul_bounds(s.drop_first(), 0);
        if s[0] != 0 {
            if s.drop_first().contains(0u8) {
                let k = choose|k: int| 0 <= k < s.drop_first().len() && s.drop_first()[k] == 0u8;
                assert(s[k + 1] == 0u8);
            }
            if s.contains(0u8) {
                let k = choose|k: int| 0 <= k < s.len() && s[k] == 0u8;
                assert(s.drop_first()[k - 1] == 0u8);
            }
        } else {
            assert(s[0] == 0u8);
        }
    }
}

/// The UTF-8 bytes of `s` when they hold no NUL byte; otherwise the error naming the
/// first NUL.
pub fn c_string_bytes(s: &str) -> (r: Result<Vec<u8>, NulError>)
    ensures
        match r {
            Ok(b) => b@ == s.spec_bytes() && is_c_string(b@),
            Err(e) => !is_c_string(s.spec_bytes()) && e.bytes@ == s.spec_bytes()
                && e.nul_position == first_nul(s.spec_bytes()),
        },
{
    let bytes = s.as_bytes();
    let mut i: usize = 0;
    while i < bytes.len()
        invariant
            i <= bytes@.len(),
            bytes@ == s.spec_bytes(),
            forall|k: int| 0 <= k < i ==> bytes@[k] != 0,
        decreases bytes@.len() - i,
    {
        if bytes[i] == 0u8 {
            proof {
                lemma_first_nul_bounds(bytes@, i as int);
            }
            return Err(NulError { nul_position: i, bytes: vstd::slice::slice_to_vec(bytes) });
        }
        i = i + 1;
    }
    proof {
        lemma_first_nul_bounds(bytes@, i as int);
    }
    Ok(vstd::slice::slice_to_vec(bytes))
}

/// A list of C strings, handed to the engine as a NULL-terminated array of pointers.
///
/// Each entry is checked for NUL bytes when it is added.
#[derive(Debug)]
pub struct CStringArray {
    cstrings: Vec<Vec<u8>>,
}

impl CStringArray {
    /// The bytes of each entry, in order.
    pub closed spec fn view(&self) -> Seq<Seq<u8>> {
        self.cstrings@.map_values(|c: Vec<u8>| c@)
    }

    /// No entry holds a NUL byte.
    pub open spec fn wf(&self) -> bool {
        forall|i: int| 0 <= i < self.view().len() ==> is_c_string(#[trigger] self.view()[i])
    }

    /// An empty array.
    pub fn new() -> (r: CStringArray)
        ensures
            r.wf(),
            r.view() == Seq::<Seq<u8>>::empty(),
    {
        let r = CStringArray { cstrings: Vec::new() };
        assert(r.view() =~= Seq::<Seq<u8>>::empty());
        r
    }

    /// Add `s` at the end; an interior NUL leaves the array as it was.
    pub fn push(&mut self, s: &str) -> (r: Result<(), NulError>)
        requires
            old(self).wf(),
        ensures
            final(self).wf(),
            match r {
                Ok(()) => is_c_string(s.spec_bytes()) && final(self).view() == old(
                    self,
                ).view().push(s.spec_bytes()),
                Err(e) => !is_c_string(s.spec_bytes()) && final(self).view() == old(self).view()
                    && e.bytes@ == s.spec_bytes() && e.nul_position == first_nul(s.spec_bytes()),
            },
    {
        match c_string_bytes(s) {
            Ok(b) => {
                let ghost before = self.view();
                self.cstrings.push(b);
                assert(self.view() =~= before.push(s.spec_bytes()));
                assert forall|i: int| 0 <= i < self.view().len() implies is_c_string(
                    #[trigger] self.view()[i],
                ) by {
                    if i < before.len() {
                        assert(self.view()[i] == before[i]);
                    }
                }
                Ok(())
            },
            Err(e) => Err(e),
        }
    }

    /// Number of entries.
    pub fn len(&self) -> (r: usize)
        ensures
            r == self.view().len(),
    {
        self.cstrings.len()
    }

    /// Whether the array has no entry.
    pub fn is_empty(&self) -> (r: bool)
        ensures
            r == (self.view().len() == 0),
    {
        self.cstrings.len() == 0
    }

    /// The bytes of entry `i`.
    pub fn get(&self, i: usize) -> (r: &Vec<u8>)
        requires
            i < self.view().len(),
        ensures
            r@ == self.view()[i as int],
    {
        &self.cstrings[i]
    }
}

/// The UTF-8 bytes of each string.
pub open spec fn utf8_entries(entries: Seq<String>) -> Seq<Seq<u8>> {
    entries.map_values(|e: String| encode_utf8(e@))
}

/// Build the array of `entries`, in order; fails on the first entry that holds a NUL byte.
pub fn c_string_array(entries: &Vec<String>) -> (r: Result<CStringArray, NulError>)
    ensures
        match r {
            Ok(a) => a.wf() && a.view() == utf8_entries(entries@),
            Err(e) => exists|i: int|
                0 <= i < entries@.len() && !is_c_string(#[trigger] utf8_entries(entries@)[i])
                    && e.bytes@ == utf8_entries(entries@)[i],
        },
        r is Ok <==> forall|i: int|
            0 <= i < entries@.len() ==> is_c_string(#[trigger] utf8_entries(entries@)[i]),
{
    let mut a = CStringArray::new();
    let mut i: usize = 0;
    while i < entries.len()
        invariant
            i <= entries@.len(),
            a.wf(),
            a.view() == utf8_entries(entries@).subrange(0, i as int),
        decreases entries@.len() - i,
    {
        let s = entries[i].as_str();
        assert(s.spec_bytes() == utf8_entries(entries@)[i as int]);
        match a.push(s) {
            Ok(()) => {},
            Err(e) => {
                return Err(e);
            },
        }
        assert(a.view() =~= utf8_entries(entries@).subrange(0, i + 1));
        i = i + 1;
    }
    assert(a.view() =~= utf8_entries(entries@));
    Ok(a)
}

} // verus!
