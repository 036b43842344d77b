//! Byte counts with tiered human-readable formatting.
//!
//! Unlike the physical measurement types, digital information uses integer
//! canonical storage in whole bytes. Constructors from larger decimal units
//! multiply with saturation at `usize::MAX`; accessors divide back to whole
//! units, rounding to nearest. The pretty formatter picks the largest unit
//! under which the magnitude stays below 1000, falling back to terabytes.

use vstd::prelude::*;
use crate::scaled::{div_round_spec, div_round_u64, lemma_div_round_exact,
    lemma_div_round_scaled_bound};
use crate::format::{append_u64, format_fixed2, spec_fixed2, spec_nat_digits};

verus! {

/// Byte count of `v` units of `factor` bytes each, saturating at
/// `usize::MAX`.
pub open spec fn sat_scale(v: int, factor: int) -> int {
    if factor * v > usize::MAX {
        usize::MAX as int
    } else {
        factor * v
    }
}

/// The tiered rendering: bytes verbatim below 1000, otherwise two decimal
/// places of the largest unit still below 1000, capped at terabytes.
pub open spec fn spec_format_pretty(bytes: int) -> Seq<char> {
    if bytes < 1000 {
        spec_nat_digits(bytes as nat) + seq![' ', 'B']
    } else if bytes < 1000000 {
        spec_fixed2(div_round_spec(bytes, 10)) + seq![' ', 'k', 'B']
    } else if bytes < 1000000000 {
        spec_fixed2(div_round_spec(bytes, 10000)) + seq![' ', 'M', 'B']
    } else if bytes < 1000000000000 {
        spec_fixed2(div_round_spec(bytes, 10000000)) + seq![' ', 'G', 'B']
    } else {
        spec_fixed2(div_round_spec(bytes, 10000000000)) + seq![' ', 'T', 'B']
    }
}

/// Byte count of `value` units of `factor` bytes each, saturating at
/// `usize::MAX`.
fn saturating_scale(value: usize, factor: u64) -> (r: usize)
    ensures
        r as int == sat_scale(value as int, factor as int),
{
    proof {
        assert((value as int) * (factor as int) == (factor as int) * (value as int))
            by (nonlinear_arith);
    }
    match (value as u64).checked_mul(factor) {
        Some(b) => {
            if b <= usize::MAX as u64 {
                b as usize
            } else {
                usize::MAX
            }
        },
        None => usize::MAX,
    }
}

/// Digital information in bytes.
#[derive(Debug, Clone, Copy, PartialEq, Eq, Structural)]
pub struct DigitalInformation {
    bytes: usize,
}

impl View for DigitalInformation {
    type V = int;

    closed spec fn view(&self) -> int {
        self.bytes as int
    }
}

impl DigitalInformation {
    pub fn from_bytes(value: usize) -> (r: Self)
        ensures
            r@ == value as int,
    {
        DigitalInformation { bytes: value }
    }

    pub fn from_kb(value: usize) -> (r: Self)
        ensures
            r@ == sat_scale(value as int, 1000),
    {
        DigitalInformation { bytes: saturating_scale(value, 1000) }
    }

    pub fn from_mb(value: usize) -> (r: Self)
        ensures
            r@ == sat_scale(value as int, 1000000),
    {
        DigitalInformation { bytes: saturating_scale(value, 1000000) }
    }

    pub fn from_gb(value: usize) -> (r: Self)
        ensures
            r@ == sat_scale(value as int, 1000000000),
    {
        DigitalInformation { bytes: saturating_scale(value, 1000000000) }
    }

    pub fn from_tb(value: usize) -> (r: Self)
        ensures
            r@ == sat_scale(value as int, 1000000000000),
    {
        DigitalInformation { bytes: saturating_scale(value, 1000000000000) }
    }

    pub fn as_bytes(&self) -> (r: usize)
        ensures
            r == self@,
    {
        self.bytes
    }

    pub fn as_kb(&self) -> (r: usize)
        ensures
            r == div_round_spec(self@, 1000),
    {
        div_round_u64(self.bytes as u64, 1000) as usize
    }

    pub fn as_mb(&self) -> (r: usize)
        ensures
            r == div_round_spec(self@, 1000000),
    {
        div_round_u64(self.bytes as u64, 1000000) as usize
    }

    pub fn as_gb(&self) -> (r: usize)
        ensures
            r == div_round_spec(self@, 1000000000),
    {
        div_round_u64(self.bytes as u64, 1000000000) as usize
    }

    pub fn as_tb(&self) -> (r: usize)
        ensures
            r == div_round_spec(self@, 1000000000000),
    {
        div_round_u64(self.bytes as u64, 1000000000000) as usize
    }

    pub fn format_pretty(&self) -> (r: String)
        ensures
            r@ == spec_format_pretty(self@),
    {
        let b: u64 = self.bytes as u64;
        if b < 1000 {
            let mut s = String::new();
            append_u64(&mut s, b);
            proof {
                reveal_strlit(" B");
            }
            s.append(" B");
            assert(s@ =~= spec_format_pretty(self@));
            s
        } else if b < 1000000 {
            let h = div_round_u64(b, 10);
            let r = format_fixed2(h as i64, " kB");
            proof {
                reveal_strlit(" kB");
            }
            assert(r@ =~= spec_format_pretty(self@));
            r
        } else if b < 1000000000 {
            let h = div_round_u64(b, 10000);
            let r = format_fixed2(h as i64, " MB");
            proof {
                reveal_strlit(" MB");
            }
            assert(r@ =~= spec_format_pretty(self@));
            r
        } else if b < 1000000000000 {
            let h = div_round_u64(b, 10000000);
            let r = format_fixed2(h as i64, " GB");
            proof {
                reveal_strlit(" GB");
            }
            assert(r@ =~= spec_format_pretty(self@));
            r
        } else {
            proof {
                lemma_div_round_scaled_bound(self@, 10000000000, 2000000000);
            }
            let h = div_round_u64(b, 10000000000);
            let r = format_fixed2(h as i64, " TB");
            proof {
                reveal_strlit(" TB");
            }
            assert(r@ =~= spec_format_pretty(self@));
            r
        }
    }
}

/// Unit round trips are exact whenever construction did not saturate:
/// building a byte count from whole kilo-, mega-, giga-, or terabytes and
/// reading it back in the same unit returns the value unchanged.
pub proof fn lemma_digital_information_unit_round_trips(v: int)
    requires
        0 <= v,
    ensures
        1000 * v <= usize::MAX ==> div_round_spec(sat_scale(v, 1000), 1000) == v,
        1000000 * v <= usize::MAX ==> div_round_spec(sat_scale(v, 1000000), 1000000) == v,
        1000000000 * v <= usize::MAX ==> div_round_spec(sat_scale(v, 1000000000), 1000000000)
            == v,
        1000000000000 * v <= usize::MAX ==> div_round_spec(
            sat_scale(v, 1000000000000),
            1000000000000,
        ) == v,
{
    lemma_div_round_exact(v, 1000);
    lemma_div_round_exact(v, 1000000);
    lemma_div_round_exact(v, 1000000000);
    lemma_div_round_exact(v, 1000000000000);
}

} // verus!
