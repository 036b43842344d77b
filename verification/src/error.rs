//! Errors surfaced by forecast normalization.
//!
//! Normalization never retries and never partially succeeds: the first
//! failing row aborts the whole response, and one of these values tells the
//! caller exactly what went wrong.

use vstd::prelude::*;

verus! {

/// The first failure encountered while normalizing a forecast response.
#[derive(Debug, Clone, PartialEq, Eq)]
pub enum IntegrationError {
    /// The declared timezone identifier is not in the timezone database.
    UnknownTimezone(String),
    /// A naive local time fell in a daylight-saving gap or overlap under
    /// the declared timezone, so it maps to zero or two UTC instants.
    AmbiguousTimezone(String),
    /// A local date or date-time string does not match its fixed layout or
    /// names an invalid calendar moment.
    MalformedTimestamp(String),
    /// A weather code outside the known WMO table.
    UnknownWeatherCode(u8),
    /// Two parallel field arrays declare different lengths.
    MismatchedLengths,
}

} // verus!
