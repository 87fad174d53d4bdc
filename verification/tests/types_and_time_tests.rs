//! Tests for identifier, band, health and time primitives.

use space_comms::time::{current_time_nanos, Duration, TimeSource, Timestamp};
use space_comms::types::{BandType, ComponentId, HealthStatus, MessageId, PacketId, PowerLevel};

#[test]
fn test_packet_id() {
    let id = PacketId::new(12345);
    assert_eq!(id.value(), 12345);
}

#[test]
fn test_band_type_properties() {
    let s_band = BandType::SBand;
    assert_eq!(s_band.frequency_range(), (2_000_000_000, 4_000_000_000));
    assert_eq!(s_band.primary_use_case(), "Telemetry, tracking, and command (TT&C)");
    assert!(s_band.weather_sensitivity_percent() < 50);
}

#[test]
fn test_health_status_ordering() {
    assert!(HealthStatus::Excellent > HealthStatus::Good);
    assert!(HealthStatus::Critical < HealthStatus::Poor);
    assert!(HealthStatus::Critical.requires_attention());
    assert!(!HealthStatus::Good.requires_attention());
}

#[test]
fn test_component_id() {
    let id = ComponentId::new(0x1234);
    assert_eq!(id.value(), 0x1234);

    let id2 = ComponentId::new(0x1234);
    assert_eq!(id, id2);
}

#[test]
fn test_message_id() {
    let id = MessageId::new(42);
    assert_eq!(id.value(), 42);

    let id2 = MessageId::new(42);
    assert_eq!(id, id2);

    let id3 = MessageId::new(43);
    assert_ne!(id, id3);
}

#[test]
fn test_health_status() {
    assert_eq!(HealthStatus::Excellent.score(), 100);
    assert_eq!(HealthStatus::Good.score(), 80);
    assert_eq!(HealthStatus::Fair.score(), 60);
    assert_eq!(HealthStatus::Poor.score(), 40);
    assert_eq!(HealthStatus::Critical.score(), 20);
    assert_eq!(HealthStatus::Unknown.score(), 0);
}

#[test]
fn test_band_types() {
    let bands = vec![
        BandType::UhfBand,
        BandType::SBand,
        BandType::XBand,
        BandType::KBand,
        BandType::KaBand,
    ];

    assert_eq!(bands.len(), 5);

    for band in bands {
        let serialized = format!("{:?}", band);
        assert!(!serialized.is_empty());
    }
}

#[test]
fn band_codes_are_distinct() {
    assert_eq!(BandType::UhfBand.code_value(), 0);
    assert_eq!(BandType::SBand.code_value(), 1);
    assert_eq!(BandType::XBand.code_value(), 2);
    assert_eq!(BandType::KBand.code_value(), 3);
    assert_eq!(BandType::KaBand.code_value(), 4);
}

#[test]
fn power_level_watts_table() {
    assert_eq!(PowerLevel::VeryLow.typical_milliwatts(), 100);
    assert_eq!(PowerLevel::Medium.typical_milliwatts(), 10_000);
    assert_eq!(PowerLevel::VeryHigh.typical_milliwatts(), 1_000_000);
    assert!(PowerLevel::Low < PowerLevel::High);
}

#[test]
fn timestamp_conversions() {
    let t = Timestamp::new(1_694_188_900_123_456_789);
    assert_eq!(t.nanos(), 1_694_188_900_123_456_789);
    assert_eq!(t.millis(), 1_694_188_900_123);
    assert_eq!(t.seconds(), 1_694_188_900);
}

#[test]
fn timestamp_elapsed_at() {
    let t = Timestamp::new(1_000_000_000);
    assert_eq!(t.elapsed_at(3_500_000_000).nanos(), 2_500_000_000);
    assert_eq!(t.elapsed_at(500).nanos(), 0);
}

#[test]
fn duration_conversions() {
    let d = Duration::from_millis(1500);
    assert_eq!(d.nanos(), 1_500_000_000);
    assert_eq!(d.millis(), 1500);
    assert_eq!(d.secs(), 1);
    assert!(!d.is_zero());
    assert!(Duration::new(0).is_zero());
    assert_eq!(Duration::from_secs(2).nanos(), 2_000_000_000);
}

#[test]
fn clock_reads_after_epoch() {
    // The wall clock reads a plausible modern time, so the trusted
    // reading is not a constant placeholder.
    let now = current_time_nanos();
    assert!(now > 1_600_000_000_000_000_000);
    let t = Timestamp::now();
    assert!(t.nanos() > 1_600_000_000_000_000_000);
}

#[test]
fn time_source_accuracy() {
    assert_eq!(TimeSource::AtomicClock.accuracy_nanos(), 1);
    assert_eq!(TimeSource::Internal.accuracy_nanos(), 1_000_000_000);
    assert!(TimeSource::Gps.is_high_precision());
    assert!(!TimeSource::Ntp.is_high_precision());
}
