//! Energy density, stored canonically in joules per square meter.
//!
//! Inputs are milli-units (thousandths of a J/m² or MJ/m²). The canonical
//! tick is one milli-J/m², on which the identity map from J/m² and the
//! factor one million from MJ/m² are exact.

use vstd::prelude::*;
use crate::scaled::{div_round, div_round_spec, lemma_div_round_exact, MEASURE_INPUT_MAX,
    TICKS_MAX};
use crate::format::{format_fixed2, spec_fixed2};

verus! {

/// Ticks (milli-J/m²) for a milli-J/m² input.
pub open spec fn j_m2_to_ticks(v: int) -> int {
    v
}

/// Ticks for a milli-MJ/m² input.
pub open spec fn mj_m2_to_ticks(v: int) -> int {
    1000000 * v
}

/// Milli-J/m² reading of a tick count.
pub open spec fn ticks_to_j_m2(t: int) -> int {
    t
}

/// Milli-MJ/m² reading of a tick count, rounded to nearest.
pub open spec fn ticks_to_mj_m2(t: int) -> int {
    div_round_spec(t, 1000000)
}

/// Energy density in J/m².
#[derive(Debug, Clone, Copy, PartialEq, Eq, Structural)]
pub struct AreaEnergyDensity {
    ticks: i64,
}

impl View for AreaEnergyDensity {
    type V = int;

    closed spec fn view(&self) -> int {
        self.ticks as int
    }
}

impl AreaEnergyDensity {
    /// Tick count within the range any constructor can produce.
    pub open spec fn wf(&self) -> bool {
        -TICKS_MAX <= self@ <= TICKS_MAX
    }

    pub fn from_j_m2(value: i64) -> (r: Self)
        requires
            -MEASURE_INPUT_MAX <= value <= MEASURE_INPUT_MAX,
        ensures
            r@ == j_m2_to_ticks(value as int),
            r.wf(),
    {
        AreaEnergyDensity { ticks: value }
    }

    pub fn from_mj_m2(value: i64) -> (r: Self)
        requires
            -MEASURE_INPUT_MAX <= value <= MEASURE_INPUT_MAX,
        ensures
            r@ == mj_m2_to_ticks(value as int),
            r.wf(),
    {
        AreaEnergyDensity { ticks: 1000000 * value }
    }

    pub fn as_j_m2(&self) -> (r: i64)
        requires
            self.wf(),
        ensures
            r == ticks_to_j_m2(self@),
    {
        self.ticks
    }

    pub fn as_mj_m2(&self) -> (r: i64)
        requires
            self.wf(),
        ensures
            r == ticks_to_mj_m2(self@),
    {
        div_round(self.ticks, 1000000)
    }

    pub fn format_j_m2(&self) -> (r: String)
        requires
            self.wf(),
        ensures
            r@ == spec_fixed2(div_round_spec(self@, 10)) + " J/m^2"@,
    {
        format_fixed2(div_round(self.ticks, 10), " J/m^2")
    }

    pub fn format_mj_m2(&self) -> (r: String)
        requires
            self.wf(),
        ensures
            r@ == spec_fixed2(div_round_spec(self@, 10000000)) + " MJ/m^2"@,
    {
        format_fixed2(div_round(self.ticks, 10000000), " MJ/m^2")
    }
}

/// Unit round trips are exact: constructing an energy density from a value
/// in either declared unit and reading it back in the same unit returns the
/// value unchanged.
pub proof fn lemma_area_energy_density_unit_round_trips(v: int)
    ensures
        ticks_to_j_m2(j_m2_to_ticks(v)) == v,
        ticks_to_mj_m2(mj_m2_to_ticks(v)) == v,
{
    lemma_div_round_exact(v, 1000000);
}

} // verus!
