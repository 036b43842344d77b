//! Unit-carrying measurement value types.
//!
//! Each physical dimension has one canonical internal unit and an integer
//! tick scale fine enough that every declared unit conversion is an exact
//! integer map on milli-unit inputs. Constructors convert into the canonical
//! unit at construction time; accessors convert back out, rounding to the
//! nearest milli-unit; formatters render two decimal places with the unit
//! symbol appended. No operation crosses dimensions.

pub mod angle;
pub mod area_energy_density;
pub mod area_power_density;
pub mod digital_information;
pub mod latitude;
pub mod length;
pub mod longitude;
pub mod percentage;
pub mod pressure;
pub mod speed;
pub mod temperature;
pub mod uv_index;
pub mod wmo_code;
