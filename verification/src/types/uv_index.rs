//! Ultraviolet index, a dimensionless scale.
//!
//! Values are carried in milli-index units (thousandths of one index
//! point). The index is an open-ended linear scale, so the type is a plain
//! tagged scalar with no unit conversions.

use vstd::prelude::*;
use crate::scaled::MEASURE_INPUT_MAX;

verus! {

/// UV index in milli-index units.
#[derive(Debug, Clone, Copy, PartialEq, Eq, Structural)]
pub struct UVIndex {
    milli: i64,
}

impl View for UVIndex {
    type V = int;

    closed spec fn view(&self) -> int {
        self.milli as int
    }
}

impl UVIndex {
    pub fn new(value: i64) -> (r: Self)
        requires
            -MEASURE_INPUT_MAX <= value <= MEASURE_INPUT_MAX,
        ensures
            r@ == value as int,
    {
        UVIndex { milli: value }
    }

    pub fn value(&self) -> (r: i64)
        ensures
            r == self@,
    {
        self.milli
    }
}

} // verus!
