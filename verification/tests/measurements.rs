//! Unit round trips and conversions of the measurement value types.
//! Inputs are milli-units of the named source unit.

use omnistat::types::angle::Angle;
use omnistat::types::area_energy_density::AreaEnergyDensity;
use omnistat::types::area_power_density::AreaPowerDensity;
use omnistat::types::length::Length;
use omnistat::types::percentage::Percentage;
use omnistat::types::pressure::Pressure;
use omnistat::types::speed::Speed;
use omnistat::types::temperature::Temperature;

#[test]
fn temperature_round_trips() {
    assert_eq!(Temperature::from_kelvin(294_650).as_kelvin(), 294_650);
    assert_eq!(Temperature::from_celsius(21_500).as_celsius(), 21_500);
    assert_eq!(Temperature::from_celsius(-40_000).as_celsius(), -40_000);
    assert_eq!(Temperature::from_fahrenheit(98_600).as_fahrenheit(), 98_600);
}

#[test]
fn temperature_cross_unit_conversions() {
    // 21.5 °C is 294.65 K.
    assert_eq!(Temperature::from_celsius(21_500).as_kelvin(), 294_650);
    // 32 °F is 0 °C.
    assert_eq!(Temperature::from_fahrenheit(32_000).as_celsius(), 0);
    // 100 °C is 212 °F.
    assert_eq!(Temperature::from_celsius(100_000).as_fahrenheit(), 212_000);
}

#[test]
fn temperature_formatting() {
    assert_eq!(Temperature::from_celsius(21_500).format_celsius(), "21.50 °C");
    assert_eq!(Temperature::from_celsius(-5_250).format_celsius(), "-5.25 °C");
    assert_eq!(Temperature::from_kelvin(294_650).format_kelvin(), "294.65 K");
    assert_eq!(Temperature::from_fahrenheit(98_600).format_fahrenheit(), "98.60 °F");
}

#[test]
fn speed_round_trips() {
    assert_eq!(Speed::from_m_s(2_778).as_m_s(), 2_778);
    assert_eq!(Speed::from_km_h(10_000).as_km_h(), 10_000);
    assert_eq!(Speed::from_km_h(36_000).as_km_h(), 36_000);
}

#[test]
fn speed_km_h_to_m_s() {
    // 10 km/h is 2.777... m/s; the milli-m/s reading rounds to 2778.
    assert_eq!(Speed::from_km_h(10_000).as_m_s(), 2_778);
    // 36 km/h is exactly 10 m/s.
    assert_eq!(Speed::from_km_h(36_000).as_m_s(), 10_000);
    assert_eq!(Speed::from_km_h(10_000).format_m_s(), "2.78 m/s");
    assert_eq!(Speed::from_km_h(36_000).format_km_h(), "36.00 km/h");
}

#[test]
fn length_round_trips() {
    assert_eq!(Length::from_millimeters(7_000).as_millimeters(), 7_000);
    assert_eq!(Length::from_centimeters(7_000).as_centimeters(), 7_000);
    assert_eq!(Length::from_meters(1_250).as_meters(), 1_250);
}

#[test]
fn snowfall_centimeters_are_ten_millimeters() {
    // Equal raw magnitudes: 7 cm of snowfall vs 7 mm of precipitation
    // differ by exactly a factor of ten in canonical meters.
    let snow = Length::from_centimeters(7_000);
    let rain = Length::from_millimeters(7_000);
    assert_eq!(snow.as_millimeters(), 10 * rain.as_millimeters());
    assert_eq!(snow.as_millimeters(), 70_000);
}

#[test]
fn length_formatting() {
    assert_eq!(Length::from_meters(1_250).format_meters(), "1.25 m");
    assert_eq!(Length::from_millimeters(7_000).format_millimeters(), "7.00 mm");
    assert_eq!(Length::from_centimeters(7_000).format_centimeters(), "7.00 cm");
}

#[test]
fn pressure_round_trips_and_conversions() {
    assert_eq!(Pressure::from_hpa(1_013_000).as_hpa(), 1_013_000);
    assert_eq!(Pressure::from_kpa(101_300).as_kpa(), 101_300);
    assert_eq!(Pressure::from_bar(1_013).as_bar(), 1_013);
    // 101.3 kPa is 1013 hPa.
    assert_eq!(Pressure::from_kpa(101_300).as_hpa(), 1_013_000);
    assert_eq!(Pressure::from_hpa(1_013_000).format_hpa(), "1013.00 hPa");
}

#[test]
fn percentage_round_trips_and_scales() {
    assert_eq!(Percentage::from_0_1(500).as_0_1(), 500);
    assert_eq!(Percentage::from_0_100(50_000).as_0_100(), 50_000);
    // 50 on the 0-100 scale is a 0.5 fraction.
    assert_eq!(Percentage::from_0_100(50_000).as_0_1(), 500);
    assert_eq!(Percentage::from_0_1(1_000).as_0_100(), 100_000);
}

#[test]
fn angle_round_trips() {
    assert_eq!(Angle::from_radians(3_142).as_radians(), 3_142);
    assert_eq!(Angle::from_degrees(180_000).as_degrees(), 180_000);
    assert_eq!(Angle::from_degrees(359_999).as_degrees(), 359_999);
    assert_eq!(Angle::from_degrees(-45_000).as_degrees(), -45_000);
}

#[test]
fn angle_degrees_to_radians() {
    // 180 degrees is pi radians: 3.142 in milli-radians.
    assert_eq!(Angle::from_degrees(180_000).as_radians(), 3_142);
    assert_eq!(Angle::from_degrees(90_000).format_degrees(), "90.00°");
    assert_eq!(Angle::from_radians(3_142).format_radians(), "3.14 rad");
}

#[test]
fn area_power_density_round_trips() {
    assert_eq!(AreaPowerDensity::from_w_m2(500_000).as_w_m2(), 500_000);
    assert_eq!(AreaPowerDensity::from_kw_m2(1_500).as_kw_m2(), 1_500);
    // 1.5 kW/m² is 1500 W/m².
    assert_eq!(AreaPowerDensity::from_kw_m2(1_500).as_w_m2(), 1_500_000);
    assert_eq!(AreaPowerDensity::from_w_m2(500_000).format_w_m2(), "500.00 W/m²");
}

#[test]
fn area_energy_density_round_trips() {
    assert_eq!(AreaEnergyDensity::from_j_m2(2_000_000).as_j_m2(), 2_000_000);
    assert_eq!(AreaEnergyDensity::from_mj_m2(2_500).as_mj_m2(), 2_500);
    // 2.5 MJ/m² is 2,500,000 J/m².
    assert_eq!(AreaEnergyDensity::from_mj_m2(2_500).as_j_m2(), 2_500_000_000);
    assert_eq!(AreaEnergyDensity::from_mj_m2(2_500).format_mj_m2(), "2.50 MJ/m^2");
}
