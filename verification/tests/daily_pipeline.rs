//! End-to-end daily normalization: per-row date plus sunrise and sunset
//! resolution.

use chrono::TimeZone;
use omnistat::error::IntegrationError;
use omnistat::forecast::daily::{DailyForecastDailyModel, DailyForecastModel};
use omnistat::types::wmo_code::WMOCode;

fn one_day_model() -> DailyForecastModel {
    DailyForecastModel {
        latitude: 52_520,
        longitude: 13_405,
        timezone: "Europe/Berlin".to_string(),
        timezone_abbreviation: "CEST".to_string(),
        elevation: 34_000,
        daily: DailyForecastDailyModel {
            time: vec!["2024-06-15".to_string()],
            weather_code: vec![3],
            temperature_2m_max: vec![25_000],
            temperature_2m_mean: vec![20_000],
            temperature_2m_min: vec![15_000],
            apparent_temperature_max: vec![26_000],
            apparent_temperature_mean: vec![21_000],
            apparent_temperature_min: vec![16_000],
            uv_index_max: vec![7_500],
            uv_index_clear_sky_max: vec![8_000],
            sunshine_duration: vec![50_000_000],
            daylight_duration: vec![60_000_000],
            sunset: vec!["2024-06-15T21:32".to_string()],
            sunrise: vec!["2024-06-15T04:42".to_string()],
            rain_sum: vec![1_200],
            showers_sum: vec![300],
            snowfall_sum: vec![700],
            precipitation_sum: vec![700],
            precipitation_hours: vec![2_000],
            precipitation_probability_max: vec![80],
            precipitation_probability_mean: vec![50],
            precipitation_probability_min: vec![20],
            wind_speed_10m_max: vec![36_000],
            wind_gusts_10m_max: vec![54_000],
            wind_direction_10m_dominant: vec![270],
            shortwave_radiation_sum: vec![22_500],
            cloud_cover_max: vec![90_000],
            cloud_cover_mean: vec![50_000],
            cloud_cover_min: vec![10_000],
            dew_point_2m_max: vec![12_000],
            dew_point_2m_mean: vec![10_000],
            dew_point_2m_min: vec![8_000],
            relative_humidity_2m_max: vec![90_000],
            relative_humidity_2m_mean: vec![60_000],
            relative_humidity_2m_min: vec![40_000],
            surface_pressure_max: vec![1_015_000],
            surface_pressure_mean: vec![1_013_000],
            surface_pressure_min: vec![1_011_000],
            visibility_max: vec![20_000_000],
            visibility_mean: vec![15_000_000],
            visibility_min: vec![10_000_000],
        },
    }
}

#[test]
fn normalizes_one_day() {
    let model = one_day_model();
    let recs = model.parse_forecasts().expect("clean payload");
    assert_eq!(recs.len(), 1);
    let rec = &recs[0];

    assert_eq!(rec.time.year, 2024);
    assert_eq!(rec.time.month, 6);
    assert_eq!(rec.time.day, 15);
    assert_eq!(rec.wmo_code, WMOCode::Overcast);

    let tz = chrono_tz::Tz::Europe__Berlin;
    let sunrise = tz.with_ymd_and_hms(2024, 6, 15, 4, 42, 0).unwrap().timestamp();
    let sunset = tz.with_ymd_and_hms(2024, 6, 15, 21, 32, 0).unwrap().timestamp();
    assert_eq!(rec.sunrise.secs, sunrise);
    assert_eq!(rec.sunset.secs, sunset);

    assert_eq!(rec.temperature_2m_max.as_celsius(), 25_000);
    assert_eq!(rec.temperature_2m_min.as_celsius(), 15_000);
    assert_eq!(rec.wind_speed_10m_max.as_m_s(), 10_000);
    assert_eq!(rec.wind_gusts_10m_max.as_km_h(), 54_000);

    // Snowfall arrives in centimeters, precipitation in millimeters:
    // equal raw magnitudes differ by exactly a factor of ten.
    assert_eq!(rec.snowfall_sum.as_millimeters(), 7_000);
    assert_eq!(rec.precipitation_sum.as_millimeters(), 700);

    // Radiation sums arrive in MJ/m²: 22.5 MJ/m² in canonical J/m².
    assert_eq!(rec.shortwave_radiation_sum.as_j_m2(), 22_500_000_000);

    assert_eq!(rec.precipitation_hours, 2_000);
    assert_eq!(rec.sunshine_duration, 50_000_000);
    assert_eq!(rec.daylight_duration, 60_000_000);
    assert_eq!(rec.uv_index_max.value(), 7_500);
    assert_eq!(rec.precipitation_probability_max.as_0_1(), 800);
}

#[test]
fn malformed_sunrise_names_the_offender() {
    let mut model = one_day_model();
    model.daily.sunrise[0] = "04:42".to_string();
    match model.parse_forecasts() {
        Err(IntegrationError::MalformedTimestamp(s)) => assert_eq!(s, "04:42"),
        other => panic!("expected a malformed-timestamp error, got {:?}", other.err()),
    }
}

#[test]
fn sunset_in_a_gap_aborts_the_batch() {
    let mut model = one_day_model();
    model.timezone = "America/New_York".to_string();
    model.daily.time[0] = "2024-03-10".to_string();
    model.daily.sunrise[0] = "2024-03-10T06:00".to_string();
    model.daily.sunset[0] = "2024-03-10T02:30".to_string();
    match model.parse_forecasts() {
        Err(IntegrationError::AmbiguousTimezone(s)) => assert_eq!(s, "America/New_York"),
        other => panic!("expected an ambiguous-timezone error, got {:?}", other.err()),
    }
}

#[test]
fn daily_length_mismatch_fails_deterministically() {
    let mut model = one_day_model();
    model.daily.visibility_min = vec![];
    assert_eq!(model.parse_forecasts().err(), Some(IntegrationError::MismatchedLengths));
}

#[test]
fn daily_unknown_weather_code_is_rejected() {
    let mut model = one_day_model();
    model.daily.weather_code[0] = 17;
    assert_eq!(
        model.parse_forecasts().err(),
        Some(IntegrationError::UnknownWeatherCode(17))
    );
}
