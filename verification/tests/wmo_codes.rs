//! Weather-code classification: exact round trips over the whole table,
//! explicit rejection outside it.

use omnistat::types::wmo_code::WMOCode;

const KNOWN_CODES: [u8; 28] = [
    0, 1, 2, 3, 45, 48, 51, 53, 55, 56, 57, 61, 63, 65, 66, 67, 71, 73, 75, 77, 80, 81, 82,
    85, 86, 95, 96, 99,
];

#[test]
fn classification_round_trips_every_known_code() {
    for &code in KNOWN_CODES.iter() {
        let classified = WMOCode::from_code(code).expect("code in the table");
        assert_eq!(classified.code(), code);
    }
}

#[test]
fn specific_classifications() {
    assert_eq!(WMOCode::from_code(0), Some(WMOCode::ClearSky));
    assert_eq!(WMOCode::from_code(45), Some(WMOCode::Fog));
    assert_eq!(WMOCode::from_code(75), Some(WMOCode::HeavySnowFall));
    assert_eq!(WMOCode::from_code(99), Some(WMOCode::ThunderstormHeavyHail));
}

#[test]
fn unknown_codes_are_rejected() {
    for code in 0..=255u8 {
        let known = KNOWN_CODES.contains(&code);
        assert_eq!(WMOCode::from_code(code).is_some(), known, "code {}", code);
    }
}
