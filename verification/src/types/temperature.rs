//! Temperature, stored canonically in kelvin.
//!
//! Inputs are milli-units of the named source unit (thousandths of a kelvin,
//! degree Celsius, or degree Fahrenheit). The canonical tick is 1/9000 K,
//! the coarsest scale on which all three conversions are exact integer maps:
//! `K = C + 273.15` and `K = (F + 459.67) * 5/9` turn milli-unit inputs into
//! whole tick counts.

use vstd::prelude::*;
use crate::scaled::{div_round, div_round_spec, lemma_div_round_exact, MEASURE_INPUT_MAX,
    TICKS_MAX};
use crate::format::{format_fixed2, spec_fixed2};

verus! {

/// Ticks (1/9000 K) for a milli-kelvin input.
pub open spec fn kelvin_to_ticks(v: int) -> int {
    9 * v
}

/// Ticks for a milli-degree-Celsius input; 2458350 ticks are 273.15 K.
pub open spec fn celsius_to_ticks(v: int) -> int {
    9 * v + 2458350
}

/// Ticks for a milli-degree-Fahrenheit input; 2298350 ticks are 459.67 °F
/// scaled by 5/9.
pub open spec fn fahrenheit_to_ticks(v: int) -> int {
    5 * v + 2298350
}

/// Milli-kelvin reading of a tick count, rounded to nearest.
pub open spec fn ticks_to_kelvin(t: int) -> int {
    div_round_spec(t, 9)
}

/// Milli-degree-Celsius reading of a tick count, rounded to nearest.
pub open spec fn ticks_to_celsius(t: int) -> int {
    div_round_spec(t - 2458350, 9)
}

/// Milli-degree-Fahrenheit reading of a tick count, rounded to nearest.
pub open spec fn ticks_to_fahrenheit(t: int) -> int {
    div_round_spec(t - 2298350, 5)
}

/// Temperature in kelvin.
#[derive(Debug, Clone, Copy, PartialEq, Eq, Structural)]
pub struct Temperature {
    ticks: i64,
}

impl View for Temperature {
    type V = int;

    closed spec fn view(&self) -> int {
        self.ticks as int
    }
}

impl Temperature {
    /// Tick count within the range any constructor can produce.
    pub open spec fn wf(&self) -> bool {
        -TICKS_MAX <= self@ <= TICKS_MAX
    }

    pub fn from_kelvin(value: i64) -> (r: Self)
        requires
            -MEASURE_INPUT_MAX <= value <= MEASURE_INPUT_MAX,
        ensures
            r@ == kelvin_to_ticks(value as int),
            r.wf(),
    {
        Temperature { ticks: 9 * value }
    }

    pub fn from_celsius(value: i64) -> (r: Self)
        requires
            -MEASURE_INPUT_MAX <= value <= MEASURE_INPUT_MAX,
        ensures
            r@ == celsius_to_ticks(value as int),
            r.wf(),
    {
        Temperature { ticks: 9 * value + 2458350 }
    }

    pub fn from_fahrenheit(value: i64) -> (r: Self)
        requires
            -MEASURE_INPUT_MAX <= value <= MEASURE_INPUT_MAX,
        ensures
            r@ == fahrenheit_to_ticks(value as int),
            r.wf(),
    {
        Temperature { ticks: 5 * value + 2298350 }
    }

    pub fn as_kelvin(&self) -> (r: i64)
        requires
            self.wf(),
        ensures
            r == ticks_to_kelvin(self@),
    {
        div_round(self.ticks, 9)
    }

    pub fn as_celsius(&self) -> (r: i64)
        requires
            self.wf(),
        ensures
            r == ticks_to_celsius(self@),
    {
        div_round(self.ticks - 2458350, 9)
    }

    pub fn as_fahrenheit(&self) -> (r: i64)
        requires
            self.wf(),
        ensures
            r == ticks_to_fahrenheit(self@),
    {
        div_round(self.ticks - 2298350, 5)
    }

    pub fn format_kelvin(&self) -> (r: String)
        requires
            self.wf(),
        ensures
            r@ == spec_fixed2(div_round_spec(self@, 90)) + " K"@,
    {
        format_fixed2(div_round(self.ticks, 90), " K")
    }

    pub fn format_celsius(&self) -> (r: String)
        requires
            self.wf(),
        ensures
            r@ == spec_fixed2(div_round_spec(self@ - 2458350, 90)) + " °C"@,
    {
        format_fixed2(div_round(self.ticks - 2458350, 90), " °C")
    }

    pub fn format_fahrenheit(&self) -> (r: String)
        requires
            self.wf(),
        ensures
            r@ == spec_fixed2(div_round_spec(self@ - 2298350, 50)) + " °F"@,
    {
        format_fixed2(div_round(self.ticks - 2298350, 50), " °F")
    }
}

/// Unit round trips are exact: constructing a temperature from a value in
/// any declared unit and reading it back in the same unit returns the value
/// unchanged.
pub proof fn lemma_temperature_unit_round_trips(v: int)
    ensures
        ticks_to_kelvin(kelvin_to_ticks(v)) == v,
        ticks_to_celsius(celsius_to_ticks(v)) == v,
        ticks_to_fahrenheit(fahrenheit_to_ticks(v)) == v,
{
    lemma_div_round_exact(v, 9);
    lemma_div_round_exact(v, 5);
}

} // verus!
