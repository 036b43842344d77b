//! Weather-forecast normalization core.
//!
//! Third-party forecast APIs deliver column-major payloads: one array per
//! measured quantity, indexed by time step. This crate turns such payloads
//! into ordered sequences of strongly typed row records. Every scalar is
//! wrapped in a unit-carrying measurement value stored in one canonical unit
//! per physical dimension, weather codes are classified into a closed enum,
//! and naive local times are resolved against the IANA timezone database
//! into unambiguous UTC instants, failing explicitly on gaps and overlaps.
//!
//! Measurement values use exact fixed-point arithmetic: constructors take
//! the source-unit value in thousandths (milli-units) and store an integer
//! tick count whose per-dimension scale makes every declared unit conversion
//! an exact integer map, so unit round trips are exact and proved.

pub mod config;
pub mod datetime;
pub mod error;
pub mod forecast;
pub mod format;
pub mod message;
pub mod scaled;
pub mod timezone;
pub mod types;
