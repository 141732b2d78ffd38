//! Acceptance intervals for hit parameters.

use crate::fixed::{Fx, FX_MAX};
use vstd::prelude::*;

verus! {

/// The mathematical value of an interval: two numerators.
pub ghost struct IntervalV {
    pub min: int,
    pub max: int,
}

#[derive(Clone, Copy, Debug)]
pub struct Interval {
    pub min: Fx,
    pub max: Fx,
}

impl View for Interval {
    type V = IntervalV;

    open spec fn view(&self) -> IntervalV {
        IntervalV { min: self.min@, max: self.max@ }
    }
}

/// Membership with the bounds included.
pub open spec fn iv_contains(i: IntervalV, x: int) -> bool {
    i.min <= x <= i.max
}

/// Membership with the bounds excluded.
pub open spec fn iv_surrounds(i: IntervalV, x: int) -> bool {
    i.min < x < i.max
}

impl Interval {
    pub fn new(min: Fx, max: Fx) -> (r: Interval)
        ensures
            r@ == (IntervalV { min: min@, max: max@ }),
    {
        Interval { min, max }
    }

    /// The interval that contains nothing: the largest scalar down to
    /// the smallest, standing in for `[infinity, -infinity]`.
    pub fn empty() -> (r: Interval)
        ensures
            r@.min == FX_MAX as int,
            r@.max == -(FX_MAX as int),
            forall|x: int| !iv_contains(r@, x),
    {
        Interval { min: Fx::from_raw(FX_MAX), max: Fx::from_raw(-FX_MAX) }
    }

    /// The interval that contains every scalar, standing in for
    /// `[-infinity, infinity]`.
    pub fn universe() -> (r: Interval)
        ensures
            r@.min == -(FX_MAX as int),
            r@.max == FX_MAX as int,
    {
        Interval { min: Fx::from_raw(-FX_MAX), max: Fx::from_raw(FX_MAX) }
    }

    /// True exactly when `min <= x <= max`.
    pub fn contains(&self, x: Fx) -> (r: bool)
        ensures
            r == iv_contains(self@, x@),
    {
        self.min.le(x) && x.le(self.max)
    }

    /// True exactly when `min < x < max`, strictly.
    pub fn surrounds(&self, x: Fx) -> (r: bool)
        ensures
            r == iv_surrounds(self@, x@),
    {
        self.min.lt(x) && x.lt(self.max)
    }
}

} // verus!
