//! Fret windows: inclusive ranges of fret numbers.

use std::ops::RangeInclusive;
use vstd::prelude::*;
use vstd::std_specs::cmp::{PartialOrdIs, PartialOrdSpec};

verus! {

/// `RangeInclusive::start`: the lower bound of the range, as long as
/// iteration has not used the range up.
pub assume_specification<Idx>[ RangeInclusive::<Idx>::start ](
    range: &RangeInclusive<Idx>,
) -> (start: &Idx)
    ensures
        !range@.exhausted ==> *start == range@.start,
;

/// `RangeInclusive::end`: the upper bound of the range, as long as
/// iteration has not used the range up.
pub assume_specification<Idx>[ RangeInclusive::<Idx>::end ](
    range: &RangeInclusive<Idx>,
) -> (end: &Idx)
    ensures
        !range@.exhausted ==> *end == range@.end,
;

/// `RangeInclusive::is_empty`: whether the range holds no items, which is so
/// once iteration has used it up or where the lower bound is not at most
/// the upper one.
pub assume_specification<Idx: PartialOrd>[ RangeInclusive::<Idx>::is_empty ](
    range: &RangeInclusive<Idx>,
) -> (empty: bool) where Idx: PartialOrd
    ensures
        Idx::obeys_partial_cmp_spec() ==> empty == (range@.exhausted || !range@.start.is_le(
            &range@.end,
        )),
;

/// `Clone::clone` of a `RangeInclusive`: a range with clones of both bounds
/// that is used up exactly if the given one is.
pub assume_specification<Idx: Clone>[ <RangeInclusive<Idx> as Clone>::clone ](
    range: &RangeInclusive<Idx>,
) -> (copy: RangeInclusive<Idx>)
    ensures
        cloned(range@.start, copy@.start),
        cloned(range@.end, copy@.end),
        copy@.exhausted == range@.exhausted,
;

/// Whether the window holds no fret.
pub open spec fn has_no_fret(frets: RangeInclusive<u8>) -> bool {
    frets@.exhausted || frets@.start > frets@.end
}

/// The frets from `first` to `last`, in rising order; none if `first` lies
/// above `last`.
pub open spec fn frets_between(first: u8, last: u8) -> Seq<u8> {
    if first > last {
        Seq::empty()
    } else {
        Seq::new((last - first + 1) as nat, |i: int| (first + i) as u8)
    }
}

/// The frets of the window, in rising order.
pub open spec fn fret_numbers(frets: RangeInclusive<u8>) -> Seq<u8> {
    if frets@.exhausted {
        Seq::empty()
    } else {
        frets_between(frets@.start, frets@.end)
    }
}

} // verus!
