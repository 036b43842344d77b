//! End-to-end hourly normalization: column-major payload in, typed row
//! records out, first error aborts everything.

use chrono::TimeZone;
use omnistat::error::IntegrationError;
use omnistat::forecast::hourly::{HourlyForecastHoursModel, HourlyForecastModel};
use omnistat::types::wmo_code::WMOCode;

fn two_step_model() -> HourlyForecastModel {
    HourlyForecastModel {
        latitude: 52_520,
        longitude: 13_405,
        timezone: "Europe/Berlin".to_string(),
        timezone_abbreviation: "CEST".to_string(),
        elevation: 34_000,
        hourly: HourlyForecastHoursModel {
            time: vec!["2024-06-15T12:00".to_string(), "2024-06-15T13:00".to_string()],
            temperature_2m: vec![21_500, 22_000],
            relative_humidity_2m: vec![50, 100],
            dew_point_2m: vec![10_000, 11_000],
            apparent_temperature: vec![21_000, 21_750],
            precipitation_probability: vec![10, 20],
            precipitation: vec![0, 1_500],
            rain: vec![0, 1_200],
            showers: vec![0, 300],
            snowfall: vec![0, 700],
            snow_depth: vec![0, 0],
            weather_code: vec![0, 61],
            surface_pressure: vec![1_013_000, 1_012_500],
            cloud_cover: vec![25, 75],
            cloud_cover_low: vec![10, 30],
            cloud_cover_mid: vec![10, 30],
            cloud_cover_high: vec![5, 15],
            visibility: vec![10_000_000, 8_000_000],
            wind_speed_10m: vec![10_000, 36_000],
            wind_speed_80m: vec![12_000, 38_000],
            wind_speed_120m: vec![14_000, 40_000],
            wind_speed_180m: vec![16_000, 42_000],
            wind_direction_10m: vec![90, 180],
            wind_direction_80m: vec![91, 181],
            wind_direction_120m: vec![92, 182],
            wind_direction_180m: vec![93, 183],
            wind_gusts_10m: vec![20_000, 50_000],
            shortwave_radiation: vec![500_000, 600_000],
        },
    }
}

#[test]
fn normalizes_two_rows_in_order() {
    let model = two_step_model();
    let recs = model.parse_forecasts().expect("clean payload");
    assert_eq!(recs.len(), 2);

    // Wind speeds arrive in km/h: 10 km/h is 2.777... m/s (2778 rounded
    // milli-m/s), 36 km/h is exactly 10 m/s.
    assert_eq!(recs[0].wind_speed_10m.as_m_s(), 2_778);
    assert_eq!(recs[1].wind_speed_10m.as_m_s(), 10_000);

    // Humidity arrives on the 0-100 scale: 50 and 100 become the
    // fractions 0.5 and 1.0.
    assert_eq!(recs[0].relative_humidity_2m.as_0_1(), 500);
    assert_eq!(recs[1].relative_humidity_2m.as_0_1(), 1_000);

    // Record i is built from index i of every column.
    assert_eq!(recs[0].temperature_2m.as_celsius(), 21_500);
    assert_eq!(recs[1].temperature_2m.as_celsius(), 22_000);
    assert_eq!(recs[0].wmo_code, WMOCode::ClearSky);
    assert_eq!(recs[1].wmo_code, WMOCode::SlightRain);

    // Snowfall arrives in centimeters, rain in millimeters: 700 milli-cm
    // of snow is ten times 700 milli-mm of rain in canonical meters.
    assert_eq!(recs[1].snowfall.as_millimeters(), 7_000);
    assert_eq!(recs[1].rain.as_millimeters(), 1_200);

    // Gusts share the speed dimension: 50 km/h in canonical m/s.
    assert_eq!(recs[1].max_wind_speed_10m.as_km_h(), 50_000);

    let tz = chrono_tz::Tz::Europe__Berlin;
    let first = tz.with_ymd_and_hms(2024, 6, 15, 12, 0, 0).unwrap().timestamp();
    let second = tz.with_ymd_and_hms(2024, 6, 15, 13, 0, 0).unwrap().timestamp();
    assert_eq!(recs[0].time.secs, first);
    assert_eq!(recs[1].time.secs, second);

    assert_eq!(recs[0].latitude.value(), 52_520);
    assert_eq!(recs[0].longitude.value(), 13_405);
    assert_eq!(recs[0].elevation.as_meters(), 34_000);
    assert_eq!(recs[0].surface_pressure.as_hpa(), 1_013_000);
    assert_eq!(recs[0].shortwave_radiation.as_w_m2(), 500_000);
}

#[test]
fn unknown_timezone_fails_the_whole_response() {
    let mut model = two_step_model();
    model.timezone = "Nowhere/Nope".to_string();
    match model.parse_forecasts() {
        Err(IntegrationError::UnknownTimezone(s)) => assert_eq!(s, "Nowhere/Nope"),
        other => panic!("expected an unknown-timezone error, got {:?}", other.err()),
    }
}

#[test]
fn mismatched_array_lengths_fail_deterministically() {
    let mut model = two_step_model();
    model.hourly.rain = vec![0];
    assert_eq!(model.parse_forecasts().err(), Some(IntegrationError::MismatchedLengths));

    let mut model = two_step_model();
    model.hourly.wind_direction_180m = vec![1, 2, 3];
    assert_eq!(model.parse_forecasts().err(), Some(IntegrationError::MismatchedLengths));
}

#[test]
fn spring_forward_gap_aborts_the_batch() {
    let mut model = two_step_model();
    model.timezone = "America/New_York".to_string();
    // 02:30 on the 2024 spring-forward date does not exist: clocks skip
    // from 02:00 to 03:00, so the row must fail, not guess an offset.
    model.hourly.time[1] = "2024-03-10T02:30".to_string();
    match model.parse_forecasts() {
        Err(IntegrationError::AmbiguousTimezone(s)) => assert_eq!(s, "America/New_York"),
        other => panic!("expected an ambiguous-timezone error, got {:?}", other.err()),
    }
}

#[test]
fn fall_back_overlap_aborts_the_batch() {
    let mut model = two_step_model();
    model.timezone = "America/New_York".to_string();
    model.hourly.time[0] = "2024-11-03T01:30".to_string();
    match model.parse_forecasts() {
        Err(IntegrationError::AmbiguousTimezone(s)) => assert_eq!(s, "America/New_York"),
        other => panic!("expected an ambiguous-timezone error, got {:?}", other.err()),
    }
}

#[test]
fn malformed_time_string_names_the_offender() {
    let mut model = two_step_model();
    model.hourly.time[1] = "2024-06-15 13:00".to_string();
    match model.parse_forecasts() {
        Err(IntegrationError::MalformedTimestamp(s)) => assert_eq!(s, "2024-06-15 13:00"),
        other => panic!("expected a malformed-timestamp error, got {:?}", other.err()),
    }
}

#[test]
fn unknown_weather_code_is_rejected_not_coerced() {
    let mut model = two_step_model();
    model.hourly.weather_code[1] = 42;
    assert_eq!(
        model.parse_forecasts().err(),
        Some(IntegrationError::UnknownWeatherCode(42))
    );
}
