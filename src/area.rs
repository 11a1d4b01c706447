//! Reading the engine's answer to an area-of-use query.
use vstd::prelude::*;
use crate::error::ProjError;

verus! {

/// What the engine's answer says of the bounding box, given whether the query succeeded and
/// which of the four bounds (west, south, east, north) hold the "unknown" sentinel:
/// `Ok(true)` for a known box, `Ok(false)` for no known box, and an error for a mix of
/// sentinel and real bounds, which the engine never promises.
pub open spec fn area_bounds(found: bool, sentinel: [bool; 4]) -> Result<bool, ProjError> {
    if !found {
        Ok(false)
    } else if sentinel[0] && sentinel[1] && sentinel[2] && sentinel[3] {
        Ok(false)
    } else if !sentinel[0] && !sentinel[1] && !sentinel[2] && !sentinel[3] {
        Ok(true)
    } else {
        Err(ProjError::UnknownAreaOfUse)
    }
}

/// Decide whether an area-of-use answer carries a bounding box.
///
/// `found` is false when the engine knows no area at all; `sentinel[i]` tells whether bound
/// `i` (west, south, east, north) holds the "unknown" value.
pub fn area_bounds_known(found: bool, sentinel: [bool; 4]) -> (r: Result<bool, ProjError>)
    ensures
        match area_bounds(found, sentinel) {
            Ok(b) => r == Ok::<bool, ProjError>(b),
            Err(_) => r is Err && r->Err_0 is UnknownAreaOfUse,
        },
{
    if !found {
        Ok(false)
    } else if sentinel[0] && sentinel[1] && sentinel[2] && sentinel[3] {
        Ok(false)
    } else if !sentinel[0] && !sentinel[1] && !sentinel[2] && !sentinel[3] {
        Ok(true)
    } else {
        Err(ProjError::UnknownAreaOfUse)
    }
}

/// An answer with all four bounds at the sentinel means no known area, and one with only
/// some of them there is never taken for a box.
pub proof fn lemma_sentinel_means_no_area(sentinel: [bool; 4])
    ensures
        sentinel[0] && sentinel[1] && sentinel[2] && sentinel[3] ==> area_bounds(true, sentinel)
            == Ok::<bool, ProjError>(false),
        (sentinel[0] || sentinel[1] || sentinel[2] || sentinel[3]) ==> area_bounds(
            true,
            sentinel,
        ) != Ok::<bool, ProjError>(true),
        !sentinel[0] && !sentinel[1] && !sentinel[2] && !sentinel[3] ==> area_bounds(
            true,
            sentinel,
        ) == Ok::<bool, ProjError>(true),
{
}

} // verus!
