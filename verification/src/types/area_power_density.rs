//! Power density, stored canonically in watts per square meter.
//!
//! Inputs are milli-units (thousandths of a W/m² or kW/m²). The canonical
//! tick is one milli-W/m², on which the identity map from W/m² and the
//! factor 1000 from kW/m² are exact.

use vstd::prelude::*;
use crate::scaled::{div_round, div_round_spec, lemma_div_round_exact, MEASURE_INPUT_MAX,
    TICKS_MAX};
use crate::format::{format_fixed2, spec_fixed2};

verus! {

/// Ticks (milli-W/m²) for a milli-W/m² input.
pub open spec fn w_m2_to_ticks(v: int) -> int {
    v
}

/// Ticks for a milli-kW/m² input.
pub open spec fn kw_m2_to_ticks(v: int) -> int {
    1000 * v
}

/// Milli-W/m² reading of a tick count.
pub open spec fn ticks_to_w_m2(t: int) -> int {
    t
}

/// Milli-kW/m² reading of a tick count, rounded to nearest.
pub open spec fn ticks_to_kw_m2(t: int) -> int {
    div_round_spec(t, 1000)
}

/// Power density in W/m².
#[derive(Debug, Clone, Copy, PartialEq, Eq, Structural)]
pub struct AreaPowerDensity {
    ticks: i64,
}

impl View for AreaPowerDensity {
    type V = int;

    closed spec fn view(&self) -> int {
        self.ticks as int
    }
}

impl AreaPowerDensity {
    /// Tick count within the range any constructor can produce.
    pub open spec fn wf(&self) -> bool {
        -TICKS_MAX <= self@ <= TICKS_MAX
    }

    pub fn from_w_m2(value: i64) -> (r: Self)
        requires
            -MEASURE_INPUT_MAX <= value <= MEASURE_INPUT_MAX,
        ensures
            r@ == w_m2_to_ticks(value as int),
            r.wf(),
    {
        AreaPowerDensity { ticks: value }
    }

    pub fn from_kw_m2(value: i64) -> (r: Self)
        requires
            -MEASURE_INPUT_MAX <= value <= MEASURE_INPUT_MAX,
        ensures
            r@ == kw_m2_to_ticks(value as int),
            r.wf(),
    {
        AreaPowerDensity { ticks: 1000 * value }
    }

    pub fn as_w_m2(&self) -> (r: i64)
        requires
            self.wf(),
        ensures
            r == ticks_to_w_m2(self@),
    {
        self.ticks
    }

    pub fn as_kw_m2(&self) -> (r: i64)
        requires
            self.wf(),
        ensures
            r == ticks_to_kw_m2(self@),
    {
        div_round(self.ticks, 1000)
    }

    pub fn format_w_m2(&self) -> (r: String)
        requires
            self.wf(),
        ensures
            r@ == spec_fixed2(div_round_spec(self@, 10)) + " W/m²"@,
    {
        format_fixed2(div_round(self.ticks, 10), " W/m²")
    }

    pub fn format_kw_m2(&self) -> (r: String)
        requires
            self.wf(),
        ensures
            r@ == spec_fixed2(div_round_spec(self@, 10000)) + " kW/m²"@,
    {
        format_fixed2(div_round(self.ticks, 10000), " kW/m²")
    }
}

/// Unit round trips are exact: constructing a power density from a value in
/// either declared unit and reading it back in the same unit returns the
/// value unchanged.
pub proof fn lemma_area_power_density_unit_round_trips(v: int)
    ensures
        ticks_to_w_m2(w_m2_to_ticks(v)) == v,
        ticks_to_kw_m2(kw_m2_to_ticks(v)) == v,
{
    lemma_div_round_exact(v, 1000);
}

} // verus!
