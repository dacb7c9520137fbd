//! The range types of std that tessellation views are taken with.
//!
//! `RangeFull`, `RangeTo`, `RangeFrom` and `RangeToInclusive` have only public fields, which Verus
//! reads as they are; `RangeInclusive` is declared by vstd, and its bounds are read through the
//! contracts of its accessors below.
use vstd::prelude::*;
use std::ops::{RangeFrom, RangeFull, RangeInclusive, RangeTo, RangeToInclusive};

verus! {

/// `std::ops::RangeFull`, the unbounded range `..`.
#[verifier::external_type_specification]
pub struct ExRangeFull(RangeFull);

/// `std::ops::RangeTo`, the range `..end`.
#[verifier::external_type_specification]
#[verifier::reject_recursive_types(Idx)]
pub struct ExRangeTo<Idx>(RangeTo<Idx>);

/// `std::ops::RangeFrom`, the range `start..`.
#[verifier::external_type_specification]
#[verifier::reject_recursive_types(Idx)]
pub struct ExRangeFrom<Idx>(RangeFrom<Idx>);

/// `std::ops::RangeToInclusive`, the range `..=end`.
#[verifier::external_type_specification]
#[verifier::reject_recursive_types(Idx)]
pub struct ExRangeToInclusive<Idx>(RangeToInclusive<Idx>);

/// `RangeInclusive::start`: std documents that it returns the lower bound of the range, the one
/// the range was made with.
pub assume_specification<Idx>[ RangeInclusive::<Idx>::start ](range: &RangeInclusive<Idx>) -> (r: &Idx)
    ensures
        *r == range@.start,
;

/// `RangeInclusive::end`: std documents that it returns the upper bound of the range, the one the
/// range was made with.
pub assume_specification<Idx>[ RangeInclusive::<Idx>::end ](range: &RangeInclusive<Idx>) -> (r: &Idx)
    ensures
        *r == range@.end,
;

} // verus!
