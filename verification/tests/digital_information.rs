//! Byte counts: saturating construction, rounded accessors, tiered
//! formatting.

use omnistat::types::digital_information::DigitalInformation;

#[test]
fn unit_round_trips() {
    assert_eq!(DigitalInformation::from_bytes(1_234).as_bytes(), 1_234);
    assert_eq!(DigitalInformation::from_kb(1_500).as_kb(), 1_500);
    assert_eq!(DigitalInformation::from_mb(42).as_mb(), 42);
    assert_eq!(DigitalInformation::from_gb(7).as_gb(), 7);
    assert_eq!(DigitalInformation::from_tb(3).as_tb(), 3);
}

#[test]
fn decimal_scaling() {
    assert_eq!(DigitalInformation::from_kb(1_500).as_bytes(), 1_500_000);
    assert_eq!(DigitalInformation::from_mb(2).as_kb(), 2_000);
    assert_eq!(DigitalInformation::from_tb(1).as_bytes(), 1_000_000_000_000);
}

#[test]
fn construction_saturates() {
    let saturated = DigitalInformation::from_tb(usize::MAX / 1_000);
    assert_eq!(saturated.as_bytes(), usize::MAX);
    assert_eq!(DigitalInformation::from_kb(usize::MAX).as_bytes(), usize::MAX);
}

#[test]
fn format_pretty_tiers() {
    assert_eq!(DigitalInformation::from_bytes(0).format_pretty(), "0 B");
    assert_eq!(DigitalInformation::from_bytes(999).format_pretty(), "999 B");
    assert_eq!(DigitalInformation::from_bytes(1_000).format_pretty(), "1.00 kB");
    assert_eq!(DigitalInformation::from_bytes(1_234).format_pretty(), "1.23 kB");
    assert_eq!(DigitalInformation::from_bytes(999_999).format_pretty(), "1000.00 kB");
    assert_eq!(DigitalInformation::from_bytes(1_000_000).format_pretty(), "1.00 MB");
    assert_eq!(DigitalInformation::from_bytes(2_500_000).format_pretty(), "2.50 MB");
    assert_eq!(DigitalInformation::from_gb(5).format_pretty(), "5.00 GB");
    assert_eq!(DigitalInformation::from_tb(12).format_pretty(), "12.00 TB");
}
