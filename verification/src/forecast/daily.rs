//! Daily forecast normalization.
//!
//! The raw daily payload carries one array per field, indexed by calendar
//! day. Each row holds a date rather than an instant, and two local times
//! — sunrise and sunset — are resolved to UTC per row. Milli-unit columns
//! hold thousandths of the unit the API delivers (degrees Celsius, km/h,
//! millimeters, centimeters, MJ/m², seconds, hours, index points);
//! percentage columns are whole 0-100 integers and the dominant wind
//! direction whole degrees, both widened before conversion.

use vstd::prelude::*;
use crate::error::IntegrationError;
use crate::datetime::{parse_local_date, parse_local_stamp, spec_parse_date, spec_parse_stamp,
    LocalDate, LocalStamp};
use crate::forecast::{val_in_range, vals_in_range};
use crate::timezone::{resolve_local, spec_local_resolution, tz_known, tz_name_known,
    LocalResolution, UtcInstant};
use crate::types::angle::{degrees_to_ticks, Angle};
use crate::types::area_energy_density::{mj_m2_to_ticks, AreaEnergyDensity};
use crate::types::latitude::Latitude;
use crate::types::length::{centimeters_to_ticks, meters_to_ticks, millimeters_to_ticks, Length};
use crate::types::longitude::Longitude;
use crate::types::percentage::{percent_to_ticks, Percentage};
use crate::types::speed::{km_h_to_ticks, Speed};
use crate::types::temperature::{celsius_to_ticks, Temperature};
use crate::types::uv_index::UVIndex;
use crate::types::wmo_code::{spec_classify, WMOCode};

verus! {

/// One fully typed daily observation, independent of the raw input.
#[derive(Debug, Clone)]
pub struct OpenMeteoDaily {
    pub time: LocalDate,
    pub latitude: Latitude,
    pub longitude: Longitude,
    pub elevation: Length,
    /// The most severe weather condition on the day.
    pub wmo_code: WMOCode,
    pub temperature_2m_max: Temperature,
    pub temperature_2m_mean: Temperature,
    pub temperature_2m_min: Temperature,
    pub apparent_temperature_max: Temperature,
    pub apparent_temperature_mean: Temperature,
    pub apparent_temperature_min: Temperature,
    pub precipitation_sum: Length,
    pub rain_sum: Length,
    pub showers_sum: Length,
    /// Snowfall sum; arrives in centimeters.
    pub snowfall_sum: Length,
    /// Hours with precipitation, in milli-hours.
    pub precipitation_hours: i64,
    pub precipitation_probability_max: Percentage,
    pub precipitation_probability_mean: Percentage,
    pub precipitation_probability_min: Percentage,
    pub sunrise: UtcInstant,
    pub sunset: UtcInstant,
    /// Sunshine duration of the day, in milliseconds; consistently less
    /// than daylight duration due to dawn and dusk.
    pub sunshine_duration: i64,
    /// Daylight duration of the day, in milliseconds.
    pub daylight_duration: i64,
    pub wind_speed_10m_max: Speed,
    /// Wind gusts share the speed dimension with the sustained wind field,
    /// so they use the same measurement type.
    pub wind_gusts_10m_max: Speed,
    pub wind_direction_10m_dominant: Angle,
    pub uv_index_max: UVIndex,
    pub uv_index_clear_sky_max: UVIndex,
    /// The sum of solar radiation on the day; arrives in MJ/m².
    pub shortwave_radiation_sum: AreaEnergyDensity,
}

impl OpenMeteoDaily {
    /// Every measurement field carries a tick count in its type's
    /// well-formed range, so all accessors and formatters apply.
    pub open spec fn wf(&self) -> bool {
        &&& self.elevation.wf()
        &&& self.temperature_2m_max.wf()
        &&& self.temperature_2m_mean.wf()
        &&& self.temperature_2m_min.wf()
        &&& self.apparent_temperature_max.wf()
        &&& self.apparent_temperature_mean.wf()
        &&& self.apparent_temperature_min.wf()
        &&& self.precipitation_sum.wf()
        &&& self.rain_sum.wf()
        &&& self.showers_sum.wf()
        &&& self.snowfall_sum.wf()
        &&& self.precipitation_probability_max.wf()
        &&& self.precipitation_probability_mean.wf()
        &&& self.precipitation_probability_min.wf()
        &&& self.wind_speed_10m_max.wf()
        &&& self.wind_gusts_10m_max.wf()
        &&& self.wind_direction_10m_dominant.wf()
        &&& self.shortwave_radiation_sum.wf()
    }
}

/// The parallel field arrays of the daily payload, index-aligned by day.
/// Milli-unit columns are `i64`; whole 0-100 ratios are `u8`; whole
/// compass degrees are `u16`.
pub struct DailyForecastDailyModel {
    pub time: Vec<String>,
    pub weather_code: Vec<u8>,
    pub temperature_2m_max: Vec<i64>,
    pub temperature_2m_mean: Vec<i64>,
    pub temperature_2m_min: Vec<i64>,
    pub apparent_temperature_max: Vec<i64>,
    pub apparent_temperature_mean: Vec<i64>,
    pub apparent_temperature_min: Vec<i64>,
    pub uv_index_max: Vec<i64>,
    pub uv_index_clear_sky_max: Vec<i64>,
    pub sunshine_duration: Vec<i64>,
    pub daylight_duration: Vec<i64>,
    pub sunset: Vec<String>,
    pub sunrise: Vec<String>,
    pub rain_sum: Vec<i64>,
    pub showers_sum: Vec<i64>,
    pub snowfall_sum: Vec<i64>,
    pub precipitation_sum: Vec<i64>,
    pub precipitation_hours: Vec<i64>,
    pub precipitation_probability_max: Vec<u8>,
    pub precipitation_probability_mean: Vec<u8>,
    pub precipitation_probability_min: Vec<u8>,
    pub wind_speed_10m_max: Vec<i64>,
    pub wind_gusts_10m_max: Vec<i64>,
    pub wind_direction_10m_dominant: Vec<u16>,
    pub shortwave_radiation_sum: Vec<i64>,
    pub cloud_cover_max: Vec<i64>,
    pub cloud_cover_mean: Vec<i64>,
    pub cloud_cover_min: Vec<i64>,
    pub dew_point_2m_max: Vec<i64>,
    pub dew_point_2m_mean: Vec<i64>,
    pub dew_point_2m_min: Vec<i64>,
    pub relative_humidity_2m_max: Vec<i64>,
    pub relative_humidity_2m_mean: Vec<i64>,
    pub relative_humidity_2m_min: Vec<i64>,
    pub surface_pressure_max: Vec<i64>,
    pub surface_pressure_mean: Vec<i64>,
    pub surface_pressure_min: Vec<i64>,
    pub visibility_max: Vec<i64>,
    pub visibility_mean: Vec<i64>,
    pub visibility_min: Vec<i64>,
}

/// A raw daily response: location and timezone context plus the column
/// arrays.
pub struct DailyForecastModel {
    pub latitude: i64,
    pub longitude: i64,
    pub timezone: String,
    pub timezone_abbreviation: String,
    pub elevation: i64,
    pub daily: DailyForecastDailyModel,
}

impl DailyForecastModel {
    /// The row count: the length of the canonical time-index array.
    pub open spec fn n(&self) -> nat {
        self.daily.time@.len()
    }

    /// Every field array has exactly the length of the time-index array.
    pub open spec fn aligned(&self) -> bool {
        &&& self.daily.weather_code@.len() == self.n()
        &&& self.daily.temperature_2m_max@.len() == self.n()
        &&& self.daily.temperature_2m_mean@.len() == self.n()
        &&& self.daily.temperature_2m_min@.len() == self.n()
        &&& self.daily.apparent_temperature_max@.len() == self.n()
        &&& self.daily.apparent_temperature_mean@.len() == self.n()
        &&& self.daily.apparent_temperature_min@.len() == self.n()
        &&& self.daily.uv_index_max@.len() == self.n()
        &&& self.daily.uv_index_clear_sky_max@.len() == self.n()
        &&& self.daily.sunshine_duration@.len() == self.n()
        &&& self.daily.daylight_duration@.len() == self.n()
        &&& self.daily.sunset@.len() == self.n()
        &&& self.daily.sunrise@.len() == self.n()
        &&& self.daily.rain_sum@.len() == self.n()
        &&& self.daily.showers_sum@.len() == self.n()
        &&& self.daily.snowfall_sum@.len() == self.n()
        &&& self.daily.precipitation_sum@.len() == self.n()
        &&& self.daily.precipitation_hours@.len() == self.n()
        &&& self.daily.precipitation_probability_max@.len() == self.n()
        &&& self.daily.precipitation_probability_mean@.len() == self.n()
        &&& self.daily.precipitation_probability_min@.len() == self.n()
        &&& self.daily.wind_speed_10m_max@.len() == self.n()
        &&& self.daily.wind_gusts_10m_max@.len() == self.n()
        &&& self.daily.wind_direction_10m_dominant@.len() == self.n()
        &&& self.daily.shortwave_radiation_sum@.len() == self.n()
        &&& self.daily.cloud_cover_max@.len() == self.n()
        &&& self.daily.cloud_cover_mean@.len() == self.n()
        &&& self.daily.cloud_cover_min@.len() == self.n()
        &&& self.daily.dew_point_2m_max@.len() == self.n()
        &&& self.daily.dew_point_2m_mean@.len() == self.n()
        &&& self.daily.dew_point_2m_min@.len() == self.n()
        &&& self.daily.relative_humidity_2m_max@.len() == self.n()
        &&& self.daily.relative_humidity_2m_mean@.len() == self.n()
        &&& self.daily.relative_humidity_2m_min@.len() == self.n()
        &&& self.daily.surface_pressure_max@.len() == self.n()
        &&& self.daily.surface_pressure_mean@.len() == self.n()
        &&& self.daily.surface_pressure_min@.len() == self.n()
        &&& self.daily.visibility_max@.len() == self.n()
        &&& self.daily.visibility_mean@.len() == self.n()
        &&& self.daily.visibility_min@.len() == self.n()
    }

    /// Every milli-unit value fed to a measurement constructor is within
    /// the range the constructors accept (a machine limit, far beyond any
    /// physical reading).
    pub open spec fn in_range(&self) -> bool {
        &&& val_in_range(self.latitude)
        &&& val_in_range(self.longitude)
        &&& val_in_range(self.elevation)
        &&& vals_in_range(self.daily.temperature_2m_max@)
        &&& vals_in_range(self.daily.temperature_2m_mean@)
        &&& vals_in_range(self.daily.temperature_2m_min@)
        &&& vals_in_range(self.daily.apparent_temperature_max@)
        &&& vals_in_range(self.daily.apparent_temperature_mean@)
        &&& vals_in_range(self.daily.apparent_temperature_min@)
        &&& vals_in_range(self.daily.uv_index_max@)
        &&& vals_in_range(self.daily.uv_index_clear_sky_max@)
        &&& vals_in_range(self.daily.rain_sum@)
        &&& vals_in_range(self.daily.showers_sum@)
        &&& vals_in_range(self.daily.snowfall_sum@)
        &&& vals_in_range(self.daily.precipitation_sum@)
        &&& vals_in_range(self.daily.wind_speed_10m_max@)
        &&& vals_in_range(self.daily.wind_gusts_10m_max@)
        &&& vals_in_range(self.daily.shortwave_radiation_sum@)
    }

    /// What row `i`'s date string parses to.
    pub open spec fn spec_date(&self, i: int) -> Option<LocalDate> {
        spec_parse_date(self.daily.time@[i]@)
    }

    /// What row `i`'s sunrise string parses to.
    pub open spec fn spec_sunrise_stamp(&self, i: int) -> Option<LocalStamp> {
        spec_parse_stamp(self.daily.sunrise@[i]@)
    }

    /// What row `i`'s sunset string parses to.
    pub open spec fn spec_sunset_stamp(&self, i: int) -> Option<LocalStamp> {
        spec_parse_stamp(self.daily.sunset@[i]@)
    }

    /// What row `i`'s sunrise resolves to in the response's timezone.
    pub open spec fn spec_sunrise_resolution(&self, i: int) -> LocalResolution {
        spec_local_resolution(self.timezone@, self.spec_sunrise_stamp(i)->0)
    }

    /// What row `i`'s sunset resolves to in the response's timezone.
    pub open spec fn spec_sunset_resolution(&self, i: int) -> LocalResolution {
        spec_local_resolution(self.timezone@, self.spec_sunset_stamp(i)->0)
    }

    /// Row `i` normalizes cleanly: its date parses, its weather code is
    /// known, and both sunrise and sunset parse and resolve to exactly one
    /// UTC instant each.
    pub open spec fn row_ok(&self, i: int) -> bool {
        &&& self.spec_date(i) is Some
        &&& spec_classify(self.daily.weather_code@[i] as int) is Some
        &&& self.spec_sunrise_stamp(i) is Some
        &&& self.spec_sunrise_resolution(i) is Unique
        &&& self.spec_sunset_stamp(i) is Some
        &&& self.spec_sunset_resolution(i) is Unique
    }

    /// The error row `i` fails with, in evaluation order: malformed date,
    /// unknown weather code, malformed sunrise, unresolvable sunrise,
    /// malformed sunset, unresolvable sunset.
    pub open spec fn row_error_matches(&self, i: int, e: IntegrationError) -> bool {
        if self.spec_date(i) is None {
            e matches IntegrationError::MalformedTimestamp(s) && s@ == self.daily.time@[i]@
        } else if spec_classify(self.daily.weather_code@[i] as int) is None {
            e matches IntegrationError::UnknownWeatherCode(c) && c == self.daily.weather_code@[i]
        } else if self.spec_sunrise_stamp(i) is None {
            e matches IntegrationError::MalformedTimestamp(s) && s@ == self.daily.sunrise@[i]@
        } else if !(self.spec_sunrise_resolution(i) is Unique) {
            e matches IntegrationError::AmbiguousTimezone(s) && s@ == self.timezone@
        } else if self.spec_sunset_stamp(i) is None {
            e matches IntegrationError::MalformedTimestamp(s) && s@ == self.daily.sunset@[i]@
        } else {
            e matches IntegrationError::AmbiguousTimezone(s) && s@ == self.timezone@
        }
    }

    /// Record `r` is row `i` of this payload: every field is built from
    /// index `i` of its own column under the fixed field-to-unit mapping,
    /// and from nothing else.
    pub open spec fn row_matches(&self, r: OpenMeteoDaily, i: int) -> bool {
        &&& Some(r.time) == self.spec_date(i)
        &&& r.latitude@ == self.latitude as int
        &&& r.longitude@ == self.longitude as int
        &&& r.elevation@ == meters_to_ticks(self.elevation as int)
        &&& Some(r.wmo_code) == spec_classify(self.daily.weather_code@[i] as int)
        &&& r.temperature_2m_max@ == celsius_to_ticks(self.daily.temperature_2m_max@[i] as int)
        &&& r.temperature_2m_mean@ == celsius_to_ticks(
            self.daily.temperature_2m_mean@[i] as int,
        )
        &&& r.temperature_2m_min@ == celsius_to_ticks(self.daily.temperature_2m_min@[i] as int)
        &&& r.apparent_temperature_max@ == celsius_to_ticks(
            self.daily.apparent_temperature_max@[i] as int,
        )
        &&& r.apparent_temperature_mean@ == celsius_to_ticks(
            self.daily.apparent_temperature_mean@[i] as int,
        )
        &&& r.apparent_temperature_min@ == celsius_to_ticks(
            self.daily.apparent_temperature_min@[i] as int,
        )
        &&& r.precipitation_sum@ == millimeters_to_ticks(
            self.daily.precipitation_sum@[i] as int,
        )
        &&& r.rain_sum@ == millimeters_to_ticks(self.daily.rain_sum@[i] as int)
        &&& r.showers_sum@ == millimeters_to_ticks(self.daily.showers_sum@[i] as int)
        &&& r.snowfall_sum@ == centimeters_to_ticks(self.daily.snowfall_sum@[i] as int)
        &&& r.precipitation_hours == self.daily.precipitation_hours@[i]
        &&& r.precipitation_probability_max@ == percent_to_ticks(
            1000 * self.daily.precipitation_probability_max@[i] as int,
        )
        &&& r.precipitation_probability_mean@ == percent_to_ticks(
            1000 * self.daily.precipitation_probability_mean@[i] as int,
        )
        &&& r.precipitation_probability_min@ == percent_to_ticks(
            1000 * self.daily.precipitation_probability_min@[i] as int,
        )
        &&& r.sunrise.secs == self.spec_sunrise_resolution(i)->Unique_0
        &&& r.sunset.secs == self.spec_sunset_resolution(i)->Unique_0
        &&& r.sunshine_duration == self.daily.sunshine_duration@[i]
        &&& r.daylight_duration == self.daily.daylight_duration@[i]
        &&& r.wind_speed_10m_max@ == km_h_to_ticks(self.daily.wind_speed_10m_max@[i] as int)
        &&& r.wind_gusts_10m_max@ == km_h_to_ticks(self.daily.wind_gusts_10m_max@[i] as int)
        &&& r.wind_direction_10m_dominant@ == degrees_to_ticks(
            1000 * self.daily.wind_direction_10m_dominant@[i] as int,
        )
        &&& r.uv_index_max@ == self.daily.uv_index_max@[i] as int
        &&& r.uv_index_clear_sky_max@ == self.daily.uv_index_clear_sky_max@[i] as int
        &&& r.shortwave_radiation_sum@ == mj_m2_to_ticks(
            self.daily.shortwave_radiation_sum@[i] as int,
        )
    }

    /// Checks that every field array matches the time-index array length.
    fn check_aligned(&self) -> (r: bool)
        ensures
            r == self.aligned(),
    {
        let n = self.daily.time.len();
        self.daily.weather_code.len() == n && self.daily.temperature_2m_max.len() == n
            && self.daily.temperature_2m_mean.len() == n
            && self.daily.temperature_2m_min.len() == n
            && self.daily.apparent_temperature_max.len() == n
            && self.daily.apparent_temperature_mean.len() == n
            && self.daily.apparent_temperature_min.len() == n
            && self.daily.uv_index_max.len() == n
            && self.daily.uv_index_clear_sky_max.len() == n
            && self.daily.sunshine_duration.len() == n
            && self.daily.daylight_duration.len() == n && self.daily.sunset.len() == n
            && self.daily.sunrise.len() == n && self.daily.rain_sum.len() == n
            && self.daily.showers_sum.len() == n && self.daily.snowfall_sum.len() == n
            && self.daily.precipitation_sum.len() == n
            && self.daily.precipitation_hours.len() == n
            && self.daily.precipitation_probability_max.len() == n
            && self.daily.precipitation_probability_mean.len() == n
            && self.daily.precipitation_probability_min.len() == n
            && self.daily.wind_speed_10m_max.len() == n
            && self.daily.wind_gusts_10m_max.len() == n
            && self.daily.wind_direction_10m_dominant.len() == n
            && self.daily.shortwave_radiation_sum.len() == n
            && self.daily.cloud_cover_max.len() == n && self.daily.cloud_cover_mean.len() == n
            && self.daily.cloud_cover_min.len() == n && self.daily.dew_point_2m_max.len() == n
            && self.daily.dew_point_2m_mean.len() == n
            && self.daily.dew_point_2m_min.len() == n
            && self.daily.relative_humidity_2m_max.len() == n
            && self.daily.relative_humidity_2m_mean.len() == n
            && self.daily.relative_humidity_2m_min.len() == n
            && self.daily.surface_pressure_max.len() == n
            && self.daily.surface_pressure_mean.len() == n
            && self.daily.surface_pressure_min.len() == n
            && self.daily.visibility_max.len() == n && self.daily.visibility_mean.len() == n
            && self.daily.visibility_min.len() == n
    }

    /// Normalizes the column-major payload into one record per day, in
    /// input order, or the first error encountered: an unknown timezone
    /// fails the whole response before any row; misaligned array lengths
    /// fail it next; then rows are processed in order and the first row
    /// whose date or sunrise or sunset string is malformed, whose sunrise
    /// or sunset does not resolve uniquely, or whose weather code is
    /// unknown aborts everything.
    #[verifier::loop_isolation(false)]
    pub fn parse_forecasts(&self) -> (r: Result<Vec<OpenMeteoDaily>, IntegrationError>)
        requires
            self.in_range(),
        ensures
            match r {
                Ok(recs) => {
                    &&& tz_name_known(self.timezone@)
                    &&& self.aligned()
                    &&& recs@.len() == self.n()
                    &&& forall|i: int| 0 <= i < recs@.len() ==> #[trigger] self.row_ok(i)
                    &&& forall|i: int| 0 <= i < recs@.len() ==> (#[trigger] recs@[i]).wf()
                    &&& forall|i: int|
                        0 <= i < recs@.len() ==> self.row_matches(#[trigger] recs@[i], i)
                },
                Err(e) => {
                    if !tz_name_known(self.timezone@) {
                        e matches IntegrationError::UnknownTimezone(s) && s@ == self.timezone@
                    } else if !self.aligned() {
                        e == IntegrationError::MismatchedLengths
                    } else {
                        exists|i: int|
                            0 <= i < self.n() && !(#[trigger] self.row_ok(i)) && (forall|
                                j: int,
                            |
                                0 <= j < i ==> self.row_ok(j)) && self.row_error_matches(i, e)
                    }
                },
            },
    {
        if !tz_known(self.timezone.as_str()) {
            return Err(IntegrationError::UnknownTimezone(self.timezone.clone()));
        }
        if !self.check_aligned() {
            return Err(IntegrationError::MismatchedLengths);
        }
        let latitude = Latitude::new(self.latitude);
        let longitude = Longitude::new(self.longitude);
        let elevation = Length::from_meters(self.elevation);

        let count = self.daily.time.len();
        let mut forecasts: Vec<OpenMeteoDaily> = Vec::new();
        let mut i: usize = 0;
        while i < count
            invariant
                i <= count,
                forecasts@.len() == i as int,
                forall|j: int| 0 <= j < i as int ==> #[trigger] self.row_ok(j),
                forall|j: int| 0 <= j < i as int ==> (#[trigger] forecasts@[j]).wf(),
                forall|j: int|
                    0 <= j < i as int ==> self.row_matches(#[trigger] forecasts@[j], j),
            decreases count - i,
        {
            let time_str = &self.daily.time[i];
            let time = match parse_local_date(time_str.as_str()) {
                Some(d) => d,
                None => {
                    let e = IntegrationError::MalformedTimestamp(time_str.clone());
                    proof {
                        assert(!self.row_ok(i as int));
                        assert(self.row_error_matches(i as int, e));
                    }
                    return Err(e);
                },
            };
            let wmo_code = match WMOCode::from_code(self.daily.weather_code[i]) {
                Some(w) => w,
                None => {
                    let e = IntegrationError::UnknownWeatherCode(self.daily.weather_code[i]);
                    proof {
                        assert(!self.row_ok(i as int));
                        assert(self.row_error_matches(i as int, e));
                    }
                    return Err(e);
                },
            };
            let sunrise_str = &self.daily.sunrise[i];
            let sunrise_stamp = match parse_local_stamp(sunrise_str.as_str()) {
                Some(st) => st,
                None => {
                    let e = IntegrationError::MalformedTimestamp(sunrise_str.clone());
                    proof {
                        assert(!self.row_ok(i as int));
                        assert(self.row_error_matches(i as int, e));
                    }
                    return Err(e);
                },
            };
            let sunrise_secs = match resolve_local(self.timezone.as_str(), &sunrise_stamp) {
                LocalResolution::Unique(s) => s,
                _ => {
                    let e = IntegrationError::AmbiguousTimezone(self.timezone.clone());
                    proof {
                        assert(!self.row_ok(i as int));
                        assert(self.row_error_matches(i as int, e));
                    }
                    return Err(e);
                },
            };
            let sunset_str = &self.daily.sunset[i];
            let sunset_stamp = match parse_local_stamp(sunset_str.as_str()) {
                Some(st) => st,
                None => {
                    let e = IntegrationError::MalformedTimestamp(sunset_str.clone());
                    proof {
                        assert(!self.row_ok(i as int));
                        assert(self.row_error_matches(i as int, e));
                    }
                    return Err(e);
                },
            };
            let sunset_secs = match resolve_local(self.timezone.as_str(), &sunset_stamp) {
                LocalResolution::Unique(s) => s,
                _ => {
                    let e = IntegrationError::AmbiguousTimezone(self.timezone.clone());
                    proof {
                        assert(!self.row_ok(i as int));
                        assert(self.row_error_matches(i as int, e));
                    }
                    return Err(e);
                },
            };

            let forecast = OpenMeteoDaily {
                time,
                latitude,
                longitude,
                elevation,
                wmo_code,
                temperature_2m_max: Temperature::from_celsius(
                    self.daily.temperature_2m_max[i],
                ),
                temperature_2m_mean: Temperature::from_celsius(
                    self.daily.temperature_2m_mean[i],
                ),
                temperature_2m_min: Temperature::from_celsius(
                    self.daily.temperature_2m_min[i],
                ),
                apparent_temperature_max: Temperature::from_celsius(
                    self.daily.apparent_temperature_max[i],
                ),
                apparent_temperature_mean: Temperature::from_celsius(
                    self.daily.apparent_temperature_mean[i],
                ),
                apparent_temperature_min: Temperature::from_celsius(
                    self.daily.apparent_temperature_min[i],
                ),
                precipitation_sum: Length::from_millimeters(self.daily.precipitation_sum[i]),
                rain_sum: Length::from_millimeters(self.daily.rain_sum[i]),
                showers_sum: Length::from_millimeters(self.daily.showers_sum[i]),
                snowfall_sum: Length::from_centimeters(self.daily.snowfall_sum[i]),
                precipitation_hours: self.daily.precipitation_hours[i],
                precipitation_probability_max: Percentage::from_0_100(
                    1000 * (self.daily.precipitation_probability_max[i] as i64),
                ),
                precipitation_probability_mean: Percentage::from_0_100(
                    1000 * (self.daily.precipitation_probability_mean[i] as i64),
                ),
                precipitation_probability_min: Percentage::from_0_100(
                    1000 * (self.daily.precipitation_probability_min[i] as i64),
                ),
                sunrise: UtcInstant { secs: sunrise_secs },
                sunset: UtcInstant { secs: sunset_secs },
                sunshine_duration: self.daily.sunshine_duration[i],
                daylight_duration: self.daily.daylight_duration[i],
                wind_speed_10m_max: Speed::from_km_h(self.daily.wind_speed_10m_max[i]),
                wind_gusts_10m_max: Speed::from_km_h(self.daily.wind_gusts_10m_max[i]),
                wind_direction_10m_dominant: Angle::from_degrees(
                    1000 * (self.daily.wind_direction_10m_dominant[i] as i64),
                ),
                uv_index_max: UVIndex::new(self.daily.uv_index_max[i]),
                uv_index_clear_sky_max: UVIndex::new(self.daily.uv_index_clear_sky_max[i]),
                shortwave_radiation_sum: AreaEnergyDensity::from_mj_m2(
                    self.daily.shortwave_radiation_sum[i],
                ),
            };

            let ghost pre = forecasts@;
            forecasts.push(forecast);
            proof {
                assert forall|j: int|
                    0 <= j < i as int + 1 implies self.row_matches(
                        #[trigger] forecasts@[j],
                        j,
                    ) && (forecasts@[j]).wf() by {
                    if j < i as int {
                        assert(forecasts@[j] == pre[j]);
                    } else {
                        assert(forecasts@[j] == forecast);
                    }
                }
            }
            i = i + 1;
        }
        Ok(forecasts)
    }
}

} // verus!
