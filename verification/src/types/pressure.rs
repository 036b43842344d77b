//! Pressure, stored canonically in hectopascals.
//!
//! Inputs are milli-units (thousandths of an hPa, kPa, or bar). The
//! canonical tick is one milli-hectopascal, on which the identity map from
//! hPa, the factor 10 from kPa, and the factor 1000 from bar are exact.

use vstd::prelude::*;
use crate::scaled::{div_round, div_round_spec, lemma_div_round_exact, MEASURE_INPUT_MAX,
    TICKS_MAX};
use crate::format::{format_fixed2, spec_fixed2};

verus! {

/// Ticks (milli-hPa) for a milli-hPa input.
pub open spec fn hpa_to_ticks(v: int) -> int {
    v
}

/// Ticks for a milli-kPa input.
pub open spec fn kpa_to_ticks(v: int) -> int {
    10 * v
}

/// Ticks for a milli-bar input.
pub open spec fn bar_to_ticks(v: int) -> int {
    1000 * v
}

/// Milli-hPa reading of a tick count.
pub open spec fn ticks_to_hpa(t: int) -> int {
    t
}

/// Milli-kPa reading of a tick count, rounded to nearest.
pub open spec fn ticks_to_kpa(t: int) -> int {
    div_round_spec(t, 10)
}

/// Milli-bar reading of a tick count, rounded to nearest.
pub open spec fn ticks_to_bar(t: int) -> int {
    div_round_spec(t, 1000)
}

/// Pressure in hPa.
#[derive(Debug, Clone, Copy, PartialEq, Eq, Structural)]
pub struct Pressure {
    ticks: i64,
}

impl View for Pressure {
    type V = int;

    closed spec fn view(&self) -> int {
        self.ticks as int
    }
}

impl Pressure {
    /// Tick count within the range any constructor can produce.
    pub open spec fn wf(&self) -> bool {
        -TICKS_MAX <= self@ <= TICKS_MAX
    }

    pub fn from_hpa(value: i64) -> (r: Self)
        requires
            -MEASURE_INPUT_MAX <= value <= MEASURE_INPUT_MAX,
        ensures
            r@ == hpa_to_ticks(value as int),
            r.wf(),
    {
        Pressure { ticks: value }
    }

    pub fn from_kpa(value: i64) -> (r: Self)
        requires
            -MEASURE_INPUT_MAX <= value <= MEASURE_INPUT_MAX,
        ensures
            r@ == kpa_to_ticks(value as int),
            r.wf(),
    {
        Pressure { ticks: 10 * value }
    }

    pub fn from_bar(value: i64) -> (r: Self)
        requires
            -MEASURE_INPUT_MAX <= value <= MEASURE_INPUT_MAX,
        ensures
            r@ == bar_to_ticks(value as int),
            r.wf(),
    {
        Pressure { ticks: 1000 * value }
    }

    pub fn as_hpa(&self) -> (r: i64)
        requires
            self.wf(),
        ensures
            r == ticks_to_hpa(self@),
    {
        self.ticks
    }

    pub fn as_kpa(&self) -> (r: i64)
        requires
            self.wf(),
        ensures
            r == ticks_to_kpa(self@),
    {
        div_round(self.ticks, 10)
    }

    pub fn as_bar(&self) -> (r: i64)
        requires
            self.wf(),
        ensures
            r == ticks_to_bar(self@),
    {
        div_round(self.ticks, 1000)
    }

    pub fn format_hpa(&self) -> (r: String)
        requires
            self.wf(),
        ensures
            r@ == spec_fixed2(div_round_spec(self@, 10)) + " hPa"@,
    {
        format_fixed2(div_round(self.ticks, 10), " hPa")
    }

    pub fn format_kpa(&self) -> (r: String)
        requires
            self.wf(),
        ensures
            r@ == spec_fixed2(div_round_spec(self@, 100)) + " kPa"@,
    {
        format_fixed2(div_round(self.ticks, 100), " kPa")
    }

    pub fn format_bar(&self) -> (r: String)
        requires
            self.wf(),
        ensures
            r@ == spec_fixed2(div_round_spec(self@, 10000)) + " bar"@,
    {
        format_fixed2(div_round(self.ticks, 10000), " bar")
    }
}

/// Unit round trips are exact: constructing a pressure from a value in any
/// declared unit and reading it back in the same unit returns the value
/// unchanged.
pub proof fn lemma_pressure_unit_round_trips(v: int)
    ensures
        ticks_to_hpa(hpa_to_ticks(v)) == v,
        ticks_to_kpa(kpa_to_ticks(v)) == v,
        ticks_to_bar(bar_to_ticks(v)) == v,
{
    lemma_div_round_exact(v, 10);
    lemma_div_round_exact(v, 1000);
}

} // verus!
