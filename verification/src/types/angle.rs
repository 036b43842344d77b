//! Angle, stored canonically in radians.
//!
//! Inputs are milli-units (thousandths of a radian or degree). The
//! canonical tick is one microradian. Radians map exactly; degrees are
//! scaled by pi/180 through a fixed rational approximation of pi, rounding
//! to the nearest tick. Because one milli-degree is more than seventeen
//! ticks, the degree conversion loses strictly less than half a
//! milli-degree, and the degree round trip is exact (proved below).

use vstd::prelude::*;
use crate::scaled::{div_round, div_round_i128, div_round_spec, lemma_div_round_exact,
    lemma_div_round_round_trip, lemma_div_round_scaled_bound, lemma_mul_bound,
    MEASURE_INPUT_MAX, TICKS_MAX};
use crate::format::{format_fixed2, spec_fixed2};

verus! {

/// Microradians per 180,000 milli-degrees: 50 times a fixed rational
/// approximation of pi with 15 decimal places.
pub const ANGLE_P: i64 = 50 * 3_141_592_653_589_793;

/// The matching denominator: 9 times the power of ten of the approximation.
pub const ANGLE_Q: i64 = 9_000_000_000_000_000;

/// Ticks (microradians) for a milli-radian input.
pub open spec fn radians_to_ticks(v: int) -> int {
    1000 * v
}

/// Ticks for a milli-degree input, rounded to the nearest microradian.
pub open spec fn degrees_to_ticks(v: int) -> int {
    div_round_spec(v * ANGLE_P, ANGLE_Q as int)
}

/// Milli-radian reading of a tick count, rounded to nearest.
pub open spec fn ticks_to_radians(t: int) -> int {
    div_round_spec(t, 1000)
}

/// Milli-degree reading of a tick count, rounded to nearest.
pub open spec fn ticks_to_degrees(t: int) -> int {
    div_round_spec(t * ANGLE_Q, ANGLE_P as int)
}

/// Angle in radians.
#[derive(Debug, Clone, Copy, PartialEq, Eq, Structural)]
pub struct Angle {
    ticks: i64,
}

impl View for Angle {
    type V = int;

    closed spec fn view(&self) -> int {
        self.ticks as int
    }
}

impl Angle {
    /// Tick count within the range any constructor can produce.
    pub open spec fn wf(&self) -> bool {
        -TICKS_MAX <= self@ <= TICKS_MAX
    }

    pub fn from_radians(value: i64) -> (r: Self)
        requires
            -MEASURE_INPUT_MAX <= value <= MEASURE_INPUT_MAX,
        ensures
            r@ == radians_to_ticks(value as int),
            r.wf(),
    {
        Angle { ticks: 1000 * value }
    }

    pub fn from_degrees(value: i64) -> (r: Self)
        requires
            -MEASURE_INPUT_MAX <= value <= MEASURE_INPUT_MAX,
        ensures
            r@ == degrees_to_ticks(value as int),
            r.wf(),
    {
        proof {
            lemma_mul_bound(value as int, ANGLE_P as int, MEASURE_INPUT_MAX as int,
                ANGLE_P as int);
        }
        let n: i128 = (value as i128) * (ANGLE_P as i128);
        proof {
            lemma_div_round_scaled_bound(n as int, ANGLE_Q as int,
                18 * (MEASURE_INPUT_MAX as int));
        }
        let t = div_round_i128(n, ANGLE_Q as i128);
        Angle { ticks: t as i64 }
    }

    pub fn as_radians(&self) -> (r: i64)
        requires
            self.wf(),
        ensures
            r == ticks_to_radians(self@),
    {
        div_round(self.ticks, 1000)
    }

    pub fn as_degrees(&self) -> (r: i64)
        requires
            self.wf(),
        ensures
            r == ticks_to_degrees(self@),
    {
        proof {
            lemma_mul_bound(self.ticks as int, ANGLE_Q as int, TICKS_MAX as int,
                ANGLE_Q as int);
        }
        let n: i128 = (self.ticks as i128) * (ANGLE_Q as i128);
        proof {
            lemma_div_round_scaled_bound(n as int, ANGLE_P as int, TICKS_MAX as int);
        }
        let r = div_round_i128(n, ANGLE_P as i128);
        r as i64
    }

    pub fn format_radians(&self) -> (r: String)
        requires
            self.wf(),
        ensures
            r@ == spec_fixed2(div_round_spec(self@, 10000)) + " rad"@,
    {
        format_fixed2(div_round(self.ticks, 10000), " rad")
    }

    pub fn format_degrees(&self) -> (r: String)
        requires
            self.wf(),
        ensures
            r@ == spec_fixed2(div_round_spec(self@ * ANGLE_Q, 10 * ANGLE_P)) + "°"@,
    {
        proof {
            lemma_mul_bound(self.ticks as int, ANGLE_Q as int, TICKS_MAX as int,
                ANGLE_Q as int);
        }
        let n: i128 = (self.ticks as i128) * (ANGLE_Q as i128);
        proof {
            lemma_div_round_scaled_bound(n as int, 10 * (ANGLE_P as int), TICKS_MAX as int);
        }
        let h = div_round_i128(n, 10 * (ANGLE_P as i128));
        format_fixed2(h as i64, "°")
    }
}

/// Unit round trips are exact: radians map through the identity scale, and
/// the degree scale factor exceeds one tick per milli-degree, so rounding
/// up into ticks and back down recovers every milli-degree value.
pub proof fn lemma_angle_unit_round_trips(v: int)
    ensures
        ticks_to_radians(radians_to_ticks(v)) == v,
        ticks_to_degrees(degrees_to_ticks(v)) == v,
{
    lemma_div_round_exact(v, 1000);
    lemma_div_round_round_trip(v, ANGLE_P as int, ANGLE_Q as int);
}

} // verus!
