//! Timezone-safe resolution of naive local times to UTC instants.
//!
//! A timezone identifier plus a naive local time resolves to exactly one
//! UTC instant, or fails explicitly: daylight-saving "spring forward"
//! leaves a gap of local times that do not exist, and "fall back" leaves an
//! overlap of local times that exist twice. Resolution goes through the
//! IANA database embedded in the chrono-tz crate, so for a fixed crate
//! version the outcome is a pure function of the identifier and the naive
//! time; the two trusted functions below carry that function as the names
//! `tz_name_known` and `spec_local_resolution`.

use vstd::prelude::*;
use crate::datetime::LocalStamp;

verus! {

/// A point on the UTC timeline, in whole seconds since the Unix epoch.
#[derive(Debug, Clone, Copy, PartialEq, Eq, Structural)]
pub struct UtcInstant {
    pub secs: i64,
}

/// Outcome of resolving one naive local time in one timezone.
#[derive(Debug, Clone, Copy, PartialEq, Eq, Structural)]
pub enum LocalResolution {
    /// The local time exists exactly once; the payload is the UTC instant
    /// in seconds since the Unix epoch.
    Unique(i64),
    /// The local time exists twice (a daylight-saving overlap).
    Ambiguous,
    /// The local time does not exist (a daylight-saving gap).
    Missing,
}

/// Whether the timezone database embedded in chrono-tz knows a name.
pub uninterp spec fn tz_name_known(name: Seq<char>) -> bool;

/// Relies on chrono_tz::Tz::from_str: a lookup in the crate's embedded
/// IANA table, a pure function of the name.
#[verifier::external_body]
pub(crate) fn tz_known(name: &str) -> (r: bool)
    ensures
        r == tz_name_known(name@),
{
    <chrono_tz::Tz as std::str::FromStr>::from_str(name).is_ok()
}

/// What resolving the naive local time `stamp` under the named timezone
/// yields, per the timezone database embedded in chrono-tz.
pub uninterp spec fn spec_local_resolution(name: Seq<char>, stamp: LocalStamp) -> LocalResolution;

/// Relies on chrono_tz::Tz::from_str and chrono's
/// TimeZone::from_local_datetime: the offset rules come from the timezone
/// database embedded in chrono-tz, so the outcome is a function of the
/// name and the naive local time alone. Single maps to Unique with the
/// instant's Unix timestamp; Ambiguous and None map to the overlap and gap
/// outcomes.
#[verifier::external_body]
pub(crate) fn resolve_local(name: &str, stamp: &LocalStamp) -> (r: LocalResolution)
    requires
        tz_name_known(name@),
        stamp.wf(),
    ensures
        r == spec_local_resolution(name@, *stamp),
{
    let tz: chrono_tz::Tz = <chrono_tz::Tz as std::str::FromStr>::from_str(name).unwrap();
    let date = chrono::NaiveDate::from_ymd_opt(
        stamp.year as i32,
        stamp.month as u32,
        stamp.day as u32,
    ).unwrap();
    let naive = date.and_hms_opt(stamp.hour as u32, stamp.minute as u32, 0).unwrap();
    match chrono::TimeZone::from_local_datetime(&tz, &naive) {
        chrono::LocalResult::Single(dt) => LocalResolution::Unique(dt.timestamp()),
        chrono::LocalResult::Ambiguous(_, _) => LocalResolution::Ambiguous,
        chrono::LocalResult::None => LocalResolution::Missing,
    }
}

} // verus!
