//! Length, stored canonically in meters.
//!
//! Inputs are milli-units (thousandths of a millimeter, centimeter, or
//! meter). The canonical tick is one micrometer, on which all three
//! conversions are exact: a milli-millimeter is one micrometer, a
//! milli-centimeter is ten, a milli-meter is a thousand.

use vstd::prelude::*;
use crate::scaled::{div_round, div_round_spec, lemma_div_round_exact, MEASURE_INPUT_MAX,
    TICKS_MAX};
use crate::format::{format_fixed2, spec_fixed2};

verus! {

/// Ticks (micrometers) for a milli-millimeter input.
pub open spec fn millimeters_to_ticks(v: int) -> int {
    v
}

/// Ticks for a milli-centimeter input.
pub open spec fn centimeters_to_ticks(v: int) -> int {
    10 * v
}

/// Ticks for a milli-meter input.
pub open spec fn meters_to_ticks(v: int) -> int {
    1000 * v
}

/// Milli-millimeter reading of a tick count.
pub open spec fn ticks_to_millimeters(t: int) -> int {
    t
}

/// Milli-centimeter reading of a tick count, rounded to nearest.
pub open spec fn ticks_to_centimeters(t: int) -> int {
    div_round_spec(t, 10)
}

/// Milli-meter reading of a tick count, rounded to nearest.
pub open spec fn ticks_to_meters(t: int) -> int {
    div_round_spec(t, 1000)
}

/// Length in meters.
#[derive(Debug, Clone, Copy, PartialEq, Eq, Structural)]
pub struct Length {
    ticks: i64,
}

impl View for Length {
    type V = int;

    closed spec fn view(&self) -> int {
        self.ticks as int
    }
}

impl Length {
    /// Tick count within the range any constructor can produce.
    pub open spec fn wf(&self) -> bool {
        -TICKS_MAX <= self@ <= TICKS_MAX
    }

    pub fn from_millimeters(value: i64) -> (r: Self)
        requires
            -MEASURE_INPUT_MAX <= value <= MEASURE_INPUT_MAX,
        ensures
            r@ == millimeters_to_ticks(value as int),
            r.wf(),
    {
        Length { ticks: value }
    }

    pub fn from_centimeters(value: i64) -> (r: Self)
        requires
            -MEASURE_INPUT_MAX <= value <= MEASURE_INPUT_MAX,
        ensures
            r@ == centimeters_to_ticks(value as int),
            r.wf(),
    {
        Length { ticks: 10 * value }
    }

    pub fn from_meters(value: i64) -> (r: Self)
        requires
            -MEASURE_INPUT_MAX <= value <= MEASURE_INPUT_MAX,
        ensures
            r@ == meters_to_ticks(value as int),
            r.wf(),
    {
        Length { ticks: 1000 * value }
    }

    pub fn as_millimeters(&self) -> (r: i64)
        requires
            self.wf(),
        ensures
            r == ticks_to_millimeters(self@),
    {
        self.ticks
    }

    pub fn as_centimeters(&self) -> (r: i64)
        requires
            self.wf(),
        ensures
            r == ticks_to_centimeters(self@),
    {
        div_round(self.ticks, 10)
    }

    pub fn as_meters(&self) -> (r: i64)
        requires
            self.wf(),
        ensures
            r == ticks_to_meters(self@),
    {
        div_round(self.ticks, 1000)
    }

    pub fn format_millimeters(&self) -> (r: String)
        requires
            self.wf(),
        ensures
            r@ == spec_fixed2(div_round_spec(self@, 10)) + " mm"@,
    {
        format_fixed2(div_round(self.ticks, 10), " mm")
    }

    pub fn format_centimeters(&self) -> (r: String)
        requires
            self.wf(),
        ensures
            r@ == spec_fixed2(div_round_spec(self@, 100)) + " cm"@,
    {
        format_fixed2(div_round(self.ticks, 100), " cm")
    }

    pub fn format_meters(&self) -> (r: String)
        requires
            self.wf(),
        ensures
            r@ == spec_fixed2(div_round_spec(self@, 10000)) + " m"@,
    {
        format_fixed2(div_round(self.ticks, 10000), " m")
    }
}

/// Unit round trips are exact: constructing a length from a value in any
/// declared unit and reading it back in the same unit returns the value
/// unchanged.
pub proof fn lemma_length_unit_round_trips(v: int)
    ensures
        ticks_to_millimeters(millimeters_to_ticks(v)) == v,
        ticks_to_centimeters(centimeters_to_ticks(v)) == v,
        ticks_to_meters(meters_to_ticks(v)) == v,
{
    lemma_div_round_exact(v, 10);
    lemma_div_round_exact(v, 1000);
}

/// Equal raw magnitudes a factor of ten apart in canonical meters: a value
/// constructed from centimeters stores exactly ten times the ticks of the
/// same value constructed from millimeters.
pub proof fn lemma_centimeters_are_ten_millimeters(v: int)
    ensures
        centimeters_to_ticks(v) == 10 * millimeters_to_ticks(v),
{
}

} // verus!
