//! Speed, stored canonically in meters per second.
//!
//! Inputs are milli-units (thousandths of a m/s or km/h). The canonical
//! tick is 1/18000 m/s, the coarsest scale on which both the identity map
//! from m/s and the 5/18 factor from km/h are exact on milli-unit inputs.

use vstd::prelude::*;
use crate::scaled::{div_round, div_round_spec, lemma_div_round_exact, MEASURE_INPUT_MAX,
    TICKS_MAX};
use crate::format::{format_fixed2, spec_fixed2};

verus! {

/// Ticks (1/18000 m/s) for a milli-m/s input.
pub open spec fn m_s_to_ticks(v: int) -> int {
    18 * v
}

/// Ticks for a milli-km/h input: 1 km/h is 5/18 m/s.
pub open spec fn km_h_to_ticks(v: int) -> int {
    5 * v
}

/// Milli-m/s reading of a tick count, rounded to nearest.
pub open spec fn ticks_to_m_s(t: int) -> int {
    div_round_spec(t, 18)
}

/// Milli-km/h reading of a tick count, rounded to nearest.
pub open spec fn ticks_to_km_h(t: int) -> int {
    div_round_spec(t, 5)
}

/// Speed in m/s.
#[derive(Debug, Clone, Copy, PartialEq, Eq, Structural)]
pub struct Speed {
    ticks: i64,
}

impl View for Speed {
    type V = int;

    closed spec fn view(&self) -> int {
        self.ticks as int
    }
}

impl Speed {
    /// Tick count within the range any constructor can produce.
    pub open spec fn wf(&self) -> bool {
        -TICKS_MAX <= self@ <= TICKS_MAX
    }

    pub fn from_m_s(value: i64) -> (r: Self)
        requires
            -MEASURE_INPUT_MAX <= value <= MEASURE_INPUT_MAX,
        ensures
            r@ == m_s_to_ticks(value as int),
            r.wf(),
    {
        Speed { ticks: 18 * value }
    }

    pub fn from_km_h(value: i64) -> (r: Self)
        requires
            -MEASURE_INPUT_MAX <= value <= MEASURE_INPUT_MAX,
        ensures
            r@ == km_h_to_ticks(value as int),
            r.wf(),
    {
        Speed { ticks: 5 * value }
    }

    pub fn as_m_s(&self) -> (r: i64)
        requires
            self.wf(),
        ensures
            r == ticks_to_m_s(self@),
    {
        div_round(self.ticks, 18)
    }

    pub fn as_km_h(&self) -> (r: i64)
        requires
            self.wf(),
        ensures
            r == ticks_to_km_h(self@),
    {
        div_round(self.ticks, 5)
    }

    pub fn format_m_s(&self) -> (r: String)
        requires
            self.wf(),
        ensures
            r@ == spec_fixed2(div_round_spec(self@, 180)) + " m/s"@,
    {
        format_fixed2(div_round(self.ticks, 180), " m/s")
    }

    pub fn format_km_h(&self) -> (r: String)
        requires
            self.wf(),
        ensures
            r@ == spec_fixed2(div_round_spec(self@, 50)) + " km/h"@,
    {
        format_fixed2(div_round(self.ticks, 50), " km/h")
    }
}

/// Unit round trips are exact: constructing a speed from a value in either
/// declared unit and reading it back in the same unit returns the value
/// unchanged.
pub proof fn lemma_speed_unit_round_trips(v: int)
    ensures
        ticks_to_m_s(m_s_to_ticks(v)) == v,
        ticks_to_km_h(km_h_to_ticks(v)) == v,
{
    lemma_div_round_exact(v, 18);
    lemma_div_round_exact(v, 5);
}

} // verus!
