//! Percentage, stored canonically as a 0.0-1.0 fraction.
//!
//! Inputs are milli-units: thousandths of a fraction point for the 0-1
//! scale, thousandths of a percent point for the 0-100 scale. The canonical
//! tick is one hundred-thousandth of the fraction, on which both scales map
//! exactly. The layer does not range-check; validation is the caller's
//! responsibility.

use vstd::prelude::*;
use crate::scaled::{div_round, div_round_spec, lemma_div_round_exact, MEASURE_INPUT_MAX,
    TICKS_MAX};

verus! {

/// Ticks (fraction hundred-thousandths) for a milli-fraction input.
pub open spec fn fraction_to_ticks(v: int) -> int {
    100 * v
}

/// Ticks for a milli-percent input.
pub open spec fn percent_to_ticks(v: int) -> int {
    v
}

/// Milli-fraction reading of a tick count, rounded to nearest.
pub open spec fn ticks_to_fraction(t: int) -> int {
    div_round_spec(t, 100)
}

/// Milli-percent reading of a tick count.
pub open spec fn ticks_to_percent(t: int) -> int {
    t
}

/// Percentage in 0.0-1.0 range.
#[derive(Debug, Clone, Copy, PartialEq, Eq, Structural)]
pub struct Percentage {
    ticks: i64,
}

impl View for Percentage {
    type V = int;

    closed spec fn view(&self) -> int {
        self.ticks as int
    }
}

impl Percentage {
    /// Tick count within the range any constructor can produce.
    pub open spec fn wf(&self) -> bool {
        -TICKS_MAX <= self@ <= TICKS_MAX
    }

    pub fn from_0_1(value: i64) -> (r: Self)
        requires
            -MEASURE_INPUT_MAX <= value <= MEASURE_INPUT_MAX,
        ensures
            r@ == fraction_to_ticks(value as int),
            r.wf(),
    {
        Percentage { ticks: 100 * value }
    }

    pub fn from_0_100(value: i64) -> (r: Self)
        requires
            -MEASURE_INPUT_MAX <= value <= MEASURE_INPUT_MAX,
        ensures
            r@ == percent_to_ticks(value as int),
            r.wf(),
    {
        Percentage { ticks: value }
    }

    pub fn as_0_1(&self) -> (r: i64)
        requires
            self.wf(),
        ensures
            r == ticks_to_fraction(self@),
    {
        div_round(self.ticks, 100)
    }

    pub fn as_0_100(&self) -> (r: i64)
        requires
            self.wf(),
        ensures
            r == ticks_to_percent(self@),
    {
        self.ticks
    }
}

/// Unit round trips are exact: constructing a percentage on either scale
/// and reading it back on the same scale returns the value unchanged.
pub proof fn lemma_percentage_unit_round_trips(v: int)
    ensures
        ticks_to_fraction(fraction_to_ticks(v)) == v,
        ticks_to_percent(percent_to_ticks(v)) == v,
{
    lemma_div_round_exact(v, 100);
}

} // verus!
