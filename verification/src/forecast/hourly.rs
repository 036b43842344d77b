//! Hourly forecast normalization.
//!
//! The raw hourly payload carries one array per field, indexed by time
//! step. Milli-unit columns hold thousandths of the unit the API delivers
//! (degrees Celsius, km/h, millimeters, centimeters, meters, hPa, W/m²);
//! percentage columns are whole 0-100 integers and direction columns whole
//! degrees, both widened before conversion.

use vstd::prelude::*;
use crate::error::IntegrationError;
use crate::datetime::{parse_local_stamp, spec_parse_stamp, LocalStamp};
use crate::forecast::{val_in_range, vals_in_range};
use crate::timezone::{resolve_local, spec_local_resolution, tz_known, tz_name_known,
    LocalResolution, UtcInstant};
use crate::types::angle::{degrees_to_ticks, Angle};
use crate::types::area_power_density::{w_m2_to_ticks, AreaPowerDensity};
use crate::types::latitude::Latitude;
use crate::types::length::{centimeters_to_ticks, meters_to_ticks, millimeters_to_ticks, Length};
use crate::types::longitude::Longitude;
use crate::types::percentage::{percent_to_ticks, Percentage};
use crate::types::pressure::{hpa_to_ticks, Pressure};
use crate::types::speed::{km_h_to_ticks, Speed};
use crate::types::temperature::{celsius_to_ticks, Temperature};
use crate::types::wmo_code::{spec_classify, WMOCode};

verus! {

/// One fully typed hourly observation, independent of the raw input.
#[derive(Debug, Clone)]
pub struct OpenMeteoHourly {
    pub time: UtcInstant,
    pub latitude: Latitude,
    pub longitude: Longitude,
    pub wmo_code: WMOCode,
    pub elevation: Length,
    /// Perceived feels-like temperature combining wind chill, humidity and
    /// solar radiation.
    pub apparent_temperature: Temperature,
    /// Air temperature at 2 meters above ground.
    pub temperature_2m: Temperature,
    /// Relative humidity at 2 meters above ground.
    pub relative_humidity_2m: Percentage,
    /// Dew point temperature at 2 meters above ground.
    pub dew_point_2m: Temperature,
    /// Atmospheric air pressure at surface level.
    pub surface_pressure: Pressure,
    /// Total cloud cover.
    pub cloud_cover: Percentage,
    /// Low-level clouds and fog up to 3 km altitude.
    pub cloud_cover_low: Percentage,
    /// Mid-level clouds from 3 to 8 km altitude.
    pub cloud_cover_mid: Percentage,
    /// High-level clouds from 8 km altitude.
    pub cloud_cover_high: Percentage,
    pub wind_speed_10m: Speed,
    pub wind_speed_80m: Speed,
    pub wind_speed_120m: Speed,
    pub wind_speed_180m: Speed,
    pub wind_direction_10m: Angle,
    pub wind_direction_80m: Angle,
    pub wind_direction_120m: Angle,
    pub wind_direction_180m: Angle,
    /// Wind gusts share the speed dimension with the sustained wind
    /// fields, so they use the same measurement type.
    pub max_wind_speed_10m: Speed,
    /// Total precipitation (rain, showers, snow) of the preceding hour.
    pub total_precipitation: Length,
    /// Probability of precipitation over 0.1 mm in the preceding hour.
    pub precipitation_probability: Percentage,
    /// Rain from large-scale weather systems of the preceding hour.
    pub rain: Length,
    /// Snowfall amount of the preceding hour; arrives in centimeters.
    pub snowfall: Length,
    pub snow_depth: Length,
    /// Showers from convective precipitation of the preceding hour.
    pub showers: Length,
    /// Viewing distance in meters.
    pub visibility: Length,
    /// Shortwave solar radiation as average of the preceding hour.
    pub shortwave_radiation: AreaPowerDensity,
}

impl OpenMeteoHourly {
    /// Every measurement field carries a tick count in its type's
    /// well-formed range, so all accessors and formatters apply.
    pub open spec fn wf(&self) -> bool {
        &&& self.elevation.wf()
        &&& self.apparent_temperature.wf()
        &&& self.temperature_2m.wf()
        &&& self.relative_humidity_2m.wf()
        &&& self.dew_point_2m.wf()
        &&& self.surface_pressure.wf()
        &&& self.cloud_cover.wf()
        &&& self.cloud_cover_low.wf()
        &&& self.cloud_cover_mid.wf()
        &&& self.cloud_cover_high.wf()
        &&& self.wind_speed_10m.wf()
        &&& self.wind_speed_80m.wf()
        &&& self.wind_speed_120m.wf()
        &&& self.wind_speed_180m.wf()
        &&& self.wind_direction_10m.wf()
        &&& self.wind_direction_80m.wf()
        &&& self.wind_direction_120m.wf()
        &&& self.wind_direction_180m.wf()
        &&& self.max_wind_speed_10m.wf()
        &&& self.total_precipitation.wf()
        &&& self.precipitation_probability.wf()
        &&& self.rain.wf()
        &&& self.snowfall.wf()
        &&& self.snow_depth.wf()
        &&& self.showers.wf()
        &&& self.visibility.wf()
        &&& self.shortwave_radiation.wf()
    }
}

/// The parallel field arrays of the hourly payload, index-aligned by time
/// step. Milli-unit columns are `i64`; whole 0-100 ratios are `u8`; whole
/// compass degrees are `u16`.
pub struct HourlyForecastHoursModel {
    pub time: Vec<String>,
    pub temperature_2m: Vec<i64>,
    pub relative_humidity_2m: Vec<u8>,
    pub dew_point_2m: Vec<i64>,
    pub apparent_temperature: Vec<i64>,
    pub precipitation_probability: Vec<u8>,
    pub precipitation: Vec<i64>,
    pub rain: Vec<i64>,
    pub showers: Vec<i64>,
    pub snowfall: Vec<i64>,
    pub snow_depth: Vec<i64>,
    pub weather_code: Vec<u8>,
    pub surface_pressure: Vec<i64>,
    pub cloud_cover: Vec<u8>,
    pub cloud_cover_low: Vec<u8>,
    pub cloud_cover_mid: Vec<u8>,
    pub cloud_cover_high: Vec<u8>,
    pub visibility: Vec<i64>,
    pub wind_speed_10m: Vec<i64>,
    pub wind_speed_80m: Vec<i64>,
    pub wind_speed_120m: Vec<i64>,
    pub wind_speed_180m: Vec<i64>,
    pub wind_direction_10m: Vec<u16>,
    pub wind_direction_80m: Vec<u16>,
    pub wind_direction_120m: Vec<u16>,
    pub wind_direction_180m: Vec<u16>,
    pub wind_gusts_10m: Vec<i64>,
    pub shortwave_radiation: Vec<i64>,
}

/// A raw hourly response: location and timezone context plus the column
/// arrays.
pub struct HourlyForecastModel {
    pub latitude: i64,
    pub longitude: i64,
    pub timezone: String,
    pub timezone_abbreviation: String,
    pub elevation: i64,
    pub hourly: HourlyForecastHoursModel,
}

impl HourlyForecastModel {
    /// The row count: the length of the canonical time-index array.
    pub open spec fn n(&self) -> nat {
        self.hourly.time@.len()
    }

    /// Every field array has exactly the length of the time-index array.
    pub open spec fn aligned(&self) -> bool {
        &&& self.hourly.temperature_2m@.len() == self.n()
        &&& self.hourly.relative_humidity_2m@.len() == self.n()
        &&& self.hourly.dew_point_2m@.len() == self.n()
        &&& self.hourly.apparent_temperature@.len() == self.n()
        &&& self.hourly.precipitation_probability@.len() == self.n()
        &&& self.hourly.precipitation@.len() == self.n()
        &&& self.hourly.rain@.len() == self.n()
        &&& self.hourly.showers@.len() == self.n()
        &&& self.hourly.snowfall@.len() == self.n()
        &&& self.hourly.snow_depth@.len() == self.n()
        &&& self.hourly.weather_code@.len() == self.n()
        &&& self.hourly.surface_pressure@.len() == self.n()
        &&& self.hourly.cloud_cover@.len() == self.n()
        &&& self.hourly.cloud_cover_low@.len() == self.n()
        &&& self.hourly.cloud_cover_mid@.len() == self.n()
        &&& self.hourly.cloud_cover_high@.len() == self.n()
        &&& self.hourly.visibility@.len() == self.n()
        &&& self.hourly.wind_speed_10m@.len() == self.n()
        &&& self.hourly.wind_speed_80m@.len() == self.n()
        &&& self.hourly.wind_speed_120m@.len() == self.n()
        &&& self.hourly.wind_speed_180m@.len() == self.n()
        &&& self.hourly.wind_direction_10m@.len() == self.n()
        &&& self.hourly.wind_direction_80m@.len() == self.n()
        &&& self.hourly.wind_direction_120m@.len() == self.n()
        &&& self.hourly.wind_direction_180m@.len() == self.n()
        &&& self.hourly.wind_gusts_10m@.len() == self.n()
        &&& self.hourly.shortwave_radiation@.len() == self.n()
    }

    /// Every milli-unit scalar and column value is within the range the
    /// measurement constructors accept (a machine limit, far beyond any
    /// physical reading).
    pub open spec fn in_range(&self) -> bool {
        &&& val_in_range(self.latitude)
        &&& val_in_range(self.longitude)
        &&& val_in_range(self.elevation)
        &&& vals_in_range(self.hourly.temperature_2m@)
        &&& vals_in_range(self.hourly.dew_point_2m@)
        &&& vals_in_range(self.hourly.apparent_temperature@)
        &&& vals_in_range(self.hourly.precipitation@)
        &&& vals_in_range(self.hourly.rain@)
        &&& vals_in_range(self.hourly.showers@)
        &&& vals_in_range(self.hourly.snowfall@)
        &&& vals_in_range(self.hourly.snow_depth@)
        &&& vals_in_range(self.hourly.surface_pressure@)
        &&& vals_in_range(self.hourly.visibility@)
        &&& vals_in_range(self.hourly.wind_speed_10m@)
        &&& vals_in_range(self.hourly.wind_speed_80m@)
        &&& vals_in_range(self.hourly.wind_speed_120m@)
        &&& vals_in_range(self.hourly.wind_speed_180m@)
        &&& vals_in_range(self.hourly.wind_gusts_10m@)
        &&& vals_in_range(self.hourly.shortwave_radiation@)
    }

    /// What row `i`'s time string parses to.
    pub open spec fn spec_stamp(&self, i: int) -> Option<LocalStamp> {
        spec_parse_stamp(self.hourly.time@[i]@)
    }

    /// What row `i`'s parsed local time resolves to in the response's
    /// timezone.
    pub open spec fn spec_resolution(&self, i: int) -> LocalResolution {
        spec_local_resolution(self.timezone@, self.spec_stamp(i)->0)
    }

    /// Row `i` normalizes cleanly: its time string parses, its local time
    /// resolves to exactly one UTC instant, and its weather code is known.
    pub open spec fn row_ok(&self, i: int) -> bool {
        &&& self.spec_stamp(i) is Some
        &&& self.spec_resolution(i) is Unique
        &&& spec_classify(self.hourly.weather_code@[i] as int) is Some
    }

    /// The error row `i` fails with, in evaluation order: malformed time
    /// string, then unresolvable local time, then unknown weather code.
    pub open spec fn row_error_matches(&self, i: int, e: IntegrationError) -> bool {
        if self.spec_stamp(i) is None {
            e matches IntegrationError::MalformedTimestamp(s) && s@ == self.hourly.time@[i]@
        } else if !(self.spec_resolution(i) is Unique) {
            e matches IntegrationError::AmbiguousTimezone(s) && s@ == self.timezone@
        } else {
            e matches IntegrationError::UnknownWeatherCode(c) && c == self.hourly.weather_code@[i]
        }
    }

    /// Record `r` is row `i` of this payload: every field is built from
    /// index `i` of its own column under the fixed field-to-unit mapping,
    /// and from nothing else.
    pub open spec fn row_matches(&self, r: OpenMeteoHourly, i: int) -> bool {
        &&& r.time.secs == self.spec_resolution(i)->Unique_0
        &&& r.latitude@ == self.latitude as int
        &&& r.longitude@ == self.longitude as int
        &&& Some(r.wmo_code) == spec_classify(self.hourly.weather_code@[i] as int)
        &&& r.elevation@ == meters_to_ticks(self.elevation as int)
        &&& r.apparent_temperature@ == celsius_to_ticks(
            self.hourly.apparent_temperature@[i] as int,
        )
        &&& r.temperature_2m@ == celsius_to_ticks(self.hourly.temperature_2m@[i] as int)
        &&& r.relative_humidity_2m@ == percent_to_ticks(
            1000 * self.hourly.relative_humidity_2m@[i] as int,
        )
        &&& r.dew_point_2m@ == celsius_to_ticks(self.hourly.dew_point_2m@[i] as int)
        &&& r.surface_pressure@ == hpa_to_ticks(self.hourly.surface_pressure@[i] as int)
        &&& r.cloud_cover@ == percent_to_ticks(1000 * self.hourly.cloud_cover@[i] as int)
        &&& r.cloud_cover_low@ == percent_to_ticks(
            1000 * self.hourly.cloud_cover_low@[i] as int,
        )
        &&& r.cloud_cover_mid@ == percent_to_ticks(
            1000 * self.hourly.cloud_cover_mid@[i] as int,
        )
        &&& r.cloud_cover_high@ == percent_to_ticks(
            1000 * self.hourly.cloud_cover_high@[i] as int,
        )
        &&& r.wind_speed_10m@ == km_h_to_ticks(self.hourly.wind_speed_10m@[i] as int)
        &&& r.wind_speed_80m@ == km_h_to_ticks(self.hourly.wind_speed_80m@[i] as int)
        &&& r.wind_speed_120m@ == km_h_to_ticks(self.hourly.wind_speed_120m@[i] as int)
        &&& r.wind_speed_180m@ == km_h_to_ticks(self.hourly.wind_speed_180m@[i] as int)
        &&& r.wind_direction_10m@ == degrees_to_ticks(
            1000 * self.hourly.wind_direction_10m@[i] as int,
        )
        &&& r.wind_direction_80m@ == degrees_to_ticks(
            1000 * self.hourly.wind_direction_80m@[i] as int,
        )
        &&& r.wind_direction_120m@ == degrees_to_ticks(
            1000 * self.hourly.wind_direction_120m@[i] as int,
        )
        &&& r.wind_direction_180m@ == degrees_to_ticks(
            1000 * self.hourly.wind_direction_180m@[i] as int,
        )
        &&& r.max_wind_speed_10m@ == km_h_to_ticks(self.hourly.wind_gusts_10m@[i] as int)
        &&& r.total_precipitation@ == millimeters_to_ticks(
            self.hourly.precipitation@[i] as int,
        )
        &&& r.precipitation_probability@ == percent_to_ticks(
            1000 * self.hourly.precipitation_probability@[i] as int,
        )
        &&& r.rain@ == millimeters_to_ticks(self.hourly.rain@[i] as int)
        &&& r.snowfall@ == centimeters_to_ticks(self.hourly.snowfall@[i] as int)
        &&& r.snow_depth@ == meters_to_ticks(self.hourly.snow_depth@[i] as int)
        &&& r.showers@ == millimeters_to_ticks(self.hourly.showers@[i] as int)
        &&& r.visibility@ == meters_to_ticks(self.hourly.visibility@[i] as int)
        &&& r.shortwave_radiation@ == w_m2_to_ticks(self.hourly.shortwave_radiation@[i] as int)
    }

    /// Checks that every field array matches the time-index array length.
    fn check_aligned(&self) -> (r: bool)
        ensures
            r == self.aligned(),
    {
        let n = self.hourly.time.len();
        self.hourly.temperature_2m.len() == n && self.hourly.relative_humidity_2m.len() == n
            && self.hourly.dew_point_2m.len() == n
            && self.hourly.apparent_temperature.len() == n
            && self.hourly.precipitation_probability.len() == n
            && self.hourly.precipitation.len() == n && self.hourly.rain.len() == n
            && self.hourly.showers.len() == n && self.hourly.snowfall.len() == n
            && self.hourly.snow_depth.len() == n && self.hourly.weather_code.len() == n
            && self.hourly.surface_pressure.len() == n && self.hourly.cloud_cover.len() == n
            && self.hourly.cloud_cover_low.len() == n
            && self.hourly.cloud_cover_mid.len() == n
            && self.hourly.cloud_cover_high.len() == n && self.hourly.visibility.len() == n
            && self.hourly.wind_speed_10m.len() == n && self.hourly.wind_speed_80m.len() == n
            && self.hourly.wind_speed_120m.len() == n
            && self.hourly.wind_speed_180m.len() == n
            && self.hourly.wind_direction_10m.len() == n
            && self.hourly.wind_direction_80m.len() == n
            && self.hourly.wind_direction_120m.len() == n
            && self.hourly.wind_direction_180m.len() == n
            && self.hourly.wind_gusts_10m.len() == n
            && self.hourly.shortwave_radiation.len() == n
    }

    /// Normalizes the column-major payload into one record per time step,
    /// in input order, or the first error encountered: an unknown timezone
    /// fails the whole response before any row; misaligned array lengths
    /// fail it next; then rows are processed in order and the first row
    /// whose time string is malformed, whose local time does not resolve
    /// uniquely, or whose weather code is unknown aborts everything.
    #[verifier::loop_isolation(false)]
    pub fn parse_forecasts(&self) -> (r: Result<Vec<OpenMeteoHourly>, IntegrationError>)
        requires
            self.in_range(),
        ensures
            match r {
                Ok(recs) => {
                    &&& tz_name_known(self.timezone@)
                    &&& self.aligned()
                    &&& recs@.len() == self.n()
                    &&& forall|i: int| 0 <= i < recs@.len() ==> #[trigger] self.row_ok(i)
                    &&& forall|i: int| 0 <= i < recs@.len() ==> (#[trigger] recs@[i]).wf()
                    &&& forall|i: int|
                        0 <= i < recs@.len() ==> self.row_matches(#[trigger] recs@[i], i)
                },
                Err(e) => {
                    if !tz_name_known(self.timezone@) {
                        e matches IntegrationError::UnknownTimezone(s) && s@ == self.timezone@
                    } else if !self.aligned() {
                        e == IntegrationError::MismatchedLengths
                    } else {
                        exists|i: int|
                            0 <= i < self.n() && !(#[trigger] self.row_ok(i)) && (forall|
                                j: int,
                            |
                                0 <= j < i ==> self.row_ok(j)) && self.row_error_matches(i, e)
                    }
                },
            },
    {
        if !tz_known(self.timezone.as_str()) {
            return Err(IntegrationError::UnknownTimezone(self.timezone.clone()));
        }
        if !self.check_aligned() {
            return Err(IntegrationError::MismatchedLengths);
        }
        let latitude = Latitude::new(self.latitude);
        let longitude = Longitude::new(self.longitude);
        let elevation = Length::from_meters(self.elevation);

        let count = self.hourly.time.len();
        let mut forecasts: Vec<OpenMeteoHourly> = Vec::new();
        let mut i: usize = 0;
        while i < count
            invariant
                i <= count,
                forecasts@.len() == i as int,
                forall|j: int| 0 <= j < i as int ==> #[trigger] self.row_ok(j),
                forall|j: int| 0 <= j < i as int ==> (#[trigger] forecasts@[j]).wf(),
                forall|j: int|
                    0 <= j < i as int ==> self.row_matches(#[trigger] forecasts@[j], j),
            decreases count - i,
        {
            let time_str = &self.hourly.time[i];
            let stamp = match parse_local_stamp(time_str.as_str()) {
                Some(st) => st,
                None => {
                    let e = IntegrationError::MalformedTimestamp(time_str.clone());
                    proof {
                        assert(!self.row_ok(i as int));
                        assert(self.row_error_matches(i as int, e));
                    }
                    return Err(e);
                },
            };
            let secs = match resolve_local(self.timezone.as_str(), &stamp) {
                LocalResolution::Unique(s) => s,
                _ => {
                    let e = IntegrationError::AmbiguousTimezone(self.timezone.clone());
                    proof {
                        assert(!self.row_ok(i as int));
                        assert(self.row_error_matches(i as int, e));
                    }
                    return Err(e);
                },
            };
            let wmo_code = match WMOCode::from_code(self.hourly.weather_code[i]) {
                Some(w) => w,
                None => {
                    let e = IntegrationError::UnknownWeatherCode(self.hourly.weather_code[i]);
                    proof {
                        assert(!self.row_ok(i as int));
                        assert(self.row_error_matches(i as int, e));
                    }
                    return Err(e);
                },
            };

            let forecast = OpenMeteoHourly {
                time: UtcInstant { secs },
                latitude,
                longitude,
                wmo_code,
                elevation,
                apparent_temperature: Temperature::from_celsius(
                    self.hourly.apparent_temperature[i],
                ),
                temperature_2m: Temperature::from_celsius(self.hourly.temperature_2m[i]),
                relative_humidity_2m: Percentage::from_0_100(
                    1000 * (self.hourly.relative_humidity_2m[i] as i64),
                ),
                dew_point_2m: Temperature::from_celsius(self.hourly.dew_point_2m[i]),
                surface_pressure: Pressure::from_hpa(self.hourly.surface_pressure[i]),
                cloud_cover: Percentage::from_0_100(
                    1000 * (self.hourly.cloud_cover[i] as i64),
                ),
                cloud_cover_low: Percentage::from_0_100(
                    1000 * (self.hourly.cloud_cover_low[i] as i64),
                ),
                cloud_cover_mid: Percentage::from_0_100(
                    1000 * (self.hourly.cloud_cover_mid[i] as i64),
                ),
                cloud_cover_high: Percentage::from_0_100(
                    1000 * (self.hourly.cloud_cover_high[i] as i64),
                ),
                wind_speed_10m: Speed::from_km_h(self.hourly.wind_speed_10m[i]),
                wind_speed_80m: Speed::from_km_h(self.hourly.wind_speed_80m[i]),
                wind_speed_120m: Speed::from_km_h(self.hourly.wind_speed_120m[i]),
                wind_speed_180m: Speed::from_km_h(self.hourly.wind_speed_180m[i]),
                wind_direction_10m: Angle::from_degrees(
                    1000 * (self.hourly.wind_direction_10m[i] as i64),
                ),
                wind_direction_80m: Angle::from_degrees(
                    1000 * (self.hourly.wind_direction_80m[i] as i64),
                ),
                wind_direction_120m: Angle::from_degrees(
                    1000 * (self.hourly.wind_direction_120m[i] as i64),
                ),
                wind_direction_180m: Angle::from_degrees(
                    1000 * (self.hourly.wind_direction_180m[i] as i64),
                ),
                max_wind_speed_10m: Speed::from_km_h(self.hourly.wind_gusts_10m[i]),
                total_precipitation: Length::from_millimeters(self.hourly.precipitation[i]),
                precipitation_probability: Percentage::from_0_100(
                    1000 * (self.hourly.precipitation_probability[i] as i64),
                ),
                rain: Length::from_millimeters(self.hourly.rain[i]),
                snowfall: Length::from_centimeters(self.hourly.snowfall[i]),
                snow_depth: Length::from_meters(self.hourly.snow_depth[i]),
                showers: Length::from_millimeters(self.hourly.showers[i]),
                visibility: Length::from_meters(self.hourly.visibility[i]),
                shortwave_radiation: AreaPowerDensity::from_w_m2(
                    self.hourly.shortwave_radiation[i],
                ),
            };

            let ghost pre = forecasts@;
            forecasts.push(forecast);
            proof {
                assert forall|j: int|
                    0 <= j < i as int + 1 implies self.row_matches(
                        #[trigger] forecasts@[j],
                        j,
                    ) && (forecasts@[j]).wf() by {
                    if j < i as int {
                        assert(forecasts@[j] == pre[j]);
                    } else {
                        assert(forecasts@[j] == forecast);
                    }
                }
            }
            i = i + 1;
        }
        Ok(forecasts)
    }
}

} // verus!
