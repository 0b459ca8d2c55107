//! What the library knows of `RangeInclusive`.

use core::ops::RangeInclusive;
use vstd::prelude::*;
use vstd::std_specs::cmp::{PartialOrdIs, PartialOrdSpec};

verus! {

/// `RangeInclusive::into_inner` returns the range's bounds.
pub assume_specification<Idx>[ RangeInclusive::<Idx>::into_inner ](range: RangeInclusive<Idx>) -> (bounds: (Idx, Idx))
    ensures
        bounds.0 == range@.start,
        bounds.1 == range@.end,
;

/// `RangeInclusive::is_empty` holds when the range yields no item: once it
/// has been run to its end, or when its start is not below or at its end.
pub assume_specification<Idx: PartialOrd<Idx>>[ RangeInclusive::<Idx>::is_empty ](range: &RangeInclusive<Idx>) -> (r: bool) where Idx: PartialOrd
    ensures
        Idx::obeys_partial_cmp_spec() ==> r == (range@.exhausted
            || !range@.start.is_le(&range@.end)),
;

} // verus!
