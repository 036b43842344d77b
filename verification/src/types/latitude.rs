//! Geographic latitude in milli-degrees.

use vstd::prelude::*;
use crate::scaled::MEASURE_INPUT_MAX;

verus! {

/// Latitude in milli-degrees north of the equator.
#[derive(Debug, Clone, Copy, PartialEq, Eq, Structural)]
pub struct Latitude {
    milli_degrees: i64,
}

impl View for Latitude {
    type V = int;

    closed spec fn view(&self) -> int {
        self.milli_degrees as int
    }
}

impl Latitude {
    pub fn new(value: i64) -> (r: Self)
        requires
            -MEASURE_INPUT_MAX <= value <= MEASURE_INPUT_MAX,
        ensures
            r@ == value as int,
    {
        Latitude { milli_degrees: value }
    }

    pub fn value(&self) -> (r: i64)
        ensures
            r == self@,
    {
        self.milli_degrees
    }
}

} // verus!
