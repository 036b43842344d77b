//! Geographic longitude in milli-degrees.

use vstd::prelude::*;
use crate::scaled::MEASURE_INPUT_MAX;

verus! {

/// Longitude in milli-degrees east of the prime meridian.
#[derive(Debug, Clone, Copy, PartialEq, Eq, Structural)]
pub struct Longitude {
    milli_degrees: i64,
}

impl View for Longitude {
    type V = int;

    closed spec fn view(&self) -> int {
        self.milli_degrees as int
    }
}

impl Longitude {
    pub fn new(value: i64) -> (r: Self)
        requires
            -MEASURE_INPUT_MAX <= value <= MEASURE_INPUT_MAX,
        ensures
            r@ == value as int,
    {
        Longitude { milli_degrees: value }
    }

    pub fn value(&self) -> (r: i64)
        ensures
            r == self@,
    {
        self.milli_degrees
    }
}

} // verus!
