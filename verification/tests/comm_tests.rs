//! Tests for band selection, emergency and failover overrides, the
//! confirmation gate, timing, and packet framing.

use space_comms::ccsds::PacketType;
use space_comms::comm::{
    authorize_transmission, create_message_packet, create_telemetry_packet,
    expected_on_air_seconds, send_deadline_ms, CommunicationManager, LinkState,
};
use space_comms::commands::{EmergencyReason, SpaceCommand};
use space_comms::fault::{ErrorHandler, FaultType, RecoveryAction};
use space_comms::messaging::{Message, MessagePayload, MessagePriority};
use space_comms::telemetry::{
    Measurement, MeasurementQuality, MeasurementValue, TelemetryData, TelemetryPacket,
};
use space_comms::types::{BandType, ComponentId, HealthStatus, MessageId};

fn message_at(priority: MessagePriority, id: u64) -> Message {
    Message {
        id: MessageId::new(id),
        priority,
        source: ComponentId::new(1),
        destination: ComponentId::new(2),
        timestamp: 0,
        payload: MessagePayload::Raw { data: vec![] },
        preferred_band: BandType::SBand,
        ttl_seconds: 0,
        retry_count: 0,
        max_retries: 1,
    }
}

#[test]
fn band_selection_follows_priority() {
    let manager = CommunicationManager::new();
    assert_eq!(manager.select_band(MessagePriority::Emergency), BandType::KBand);
    assert_eq!(manager.select_band(MessagePriority::Critical), BandType::XBand);
    assert_eq!(manager.select_band(MessagePriority::High), BandType::SBand);
    assert_eq!(manager.select_band(MessagePriority::Medium), BandType::SBand);
    assert_eq!(manager.select_band(MessagePriority::Low), BandType::UhfBand);
}

#[test]
fn emergency_override_forces_uhf() {
    let mut manager = CommunicationManager::new();
    manager.set_emergency_mode(true);
    for p in [
        MessagePriority::Low,
        MessagePriority::Medium,
        MessagePriority::High,
        MessagePriority::Critical,
        MessagePriority::Emergency,
    ] {
        assert_eq!(manager.select_band(p), BandType::UhfBand);
        assert_eq!(manager.select_optimal_band(&message_at(p, 1)), BandType::UhfBand);
    }
}

#[test]
fn emergency_mode_halves_power_once() {
    let mut manager = CommunicationManager::new();
    manager.set_emergency_mode(true);
    let x = manager.get_band_config(BandType::XBand).unwrap();
    assert_eq!(x.power_level, 40); // halved from 80
    let uhf = manager.get_band_config(BandType::UhfBand).unwrap();
    assert_eq!(uhf.power_level, 50); // UHF keeps its power

    // Idempotent: a second activation changes nothing.
    manager.set_emergency_mode(true);
    assert_eq!(manager.get_band_config(BandType::XBand).unwrap().power_level, 40);

    // Exit restores nothing of the power levels.
    manager.set_emergency_mode(false);
    assert_eq!(manager.get_band_config(BandType::XBand).unwrap().power_level, 40);
}

#[test]
fn scenario_band_failover() {
    // Mark X band failed; a critical command goes out on S band, and a
    // communication fault is raised for X band.
    let mut manager = CommunicationManager::new();
    manager.record_send_result(BandType::XBand, false);
    assert_eq!(manager.band_state(BandType::XBand), LinkState::Failed);

    let band = manager.select_band_with_failover(MessagePriority::Critical).unwrap();
    assert_eq!(band, BandType::SBand);

    let mut handler = ErrorHandler::new();
    let action = handler.add_fault(FaultType::Communication { band: BandType::XBand, error_code: 800 });
    assert!(matches!(action, RecoveryAction::SwitchToBackup(BandType::XBand)));
    assert_eq!(handler.get_active_faults().len(), 1);
}

#[test]
fn failover_prefers_operational_over_degraded() {
    let mut manager = CommunicationManager::new();
    // X degraded, S operational: Critical traffic skips to S only if X
    // is failed; a degraded preferred band still loses to a healthy
    // fallback further down the chain.
    manager.record_signal_quality(BandType::XBand, 30);
    assert_eq!(manager.band_state(BandType::XBand), LinkState::Degraded);
    assert_eq!(
        manager.select_band_with_failover(MessagePriority::Critical).unwrap(),
        BandType::SBand
    );

    // With every band of the chain degraded, the preferred one wins.
    manager.record_signal_quality(BandType::SBand, 30);
    manager.record_signal_quality(BandType::UhfBand, 30);
    assert_eq!(
        manager.select_band_with_failover(MessagePriority::Critical).unwrap(),
        BandType::XBand
    );
}

#[test]
fn failover_fails_when_chain_is_dead() {
    let mut manager = CommunicationManager::new();
    manager.record_send_result(BandType::UhfBand, false);
    assert!(manager.select_band_with_failover(MessagePriority::Low).is_err());
}

#[test]
fn three_successes_restore_operational() {
    let mut manager = CommunicationManager::new();
    manager.record_send_result(BandType::KBand, false);
    assert_eq!(manager.band_state(BandType::KBand), LinkState::Failed);
    manager.record_send_result(BandType::KBand, true);
    manager.record_send_result(BandType::KBand, true);
    assert_eq!(manager.band_state(BandType::KBand), LinkState::Failed);
    manager.record_send_result(BandType::KBand, true);
    assert_eq!(manager.band_state(BandType::KBand), LinkState::Operational);
}

#[test]
fn communication_health_tracks_quality() {
    let mut manager = CommunicationManager::new();
    assert!(manager.is_communication_healthy());
    for b in [BandType::UhfBand, BandType::SBand, BandType::XBand, BandType::KBand, BandType::KaBand]
    {
        manager.record_signal_quality(b, 10);
    }
    assert!(!manager.is_communication_healthy());
}

#[test]
fn on_air_time_rounds_up() {
    assert_eq!(expected_on_air_seconds(BandType::UhfBand, 9_600), 1);
    assert_eq!(expected_on_air_seconds(BandType::UhfBand, 9_601), 2);
    assert_eq!(expected_on_air_seconds(BandType::UhfBand, 0), 0);
    assert_eq!(expected_on_air_seconds(BandType::SBand, 4_000_000), 2);
    assert_eq!(expected_on_air_seconds(BandType::KaBand, 1), 1);
}

#[test]
fn send_deadlines_by_priority() {
    assert_eq!(send_deadline_ms(MessagePriority::High), Some(10));
    assert_eq!(send_deadline_ms(MessagePriority::Medium), Some(100));
    assert_eq!(send_deadline_ms(MessagePriority::Low), Some(1000));
    assert_eq!(send_deadline_ms(MessagePriority::Critical), None);
    assert_eq!(send_deadline_ms(MessagePriority::Emergency), None);
}

#[test]
fn scenario_confirmation_required() {
    // An emergency abort presented without a matching token at the
    // transmit boundary is refused before anything reaches a
    // transceiver.
    let cmd = SpaceCommand::EmergencyAbort {
        reason: EmergencyReason::SystemFailure,
        confirmation_code: 0x12345678,
    };
    let refused = authorize_transmission(&cmd, None);
    match refused {
        Err(e) => {
            assert!(e.describe().contains("confirmation required"));
        }
        Ok(()) => panic!("a missing token must be refused"),
    }
    assert!(authorize_transmission(&cmd, Some(0xDEAD_BEEF)).is_err());
    assert!(authorize_transmission(&cmd, Some(0x12345678)).is_ok());
}

#[test]
fn confirmation_gate_ignores_unconfirmed_commands() {
    let cmd = SpaceCommand::UpdateTime {
        utc_time: 0,
        time_source: space_comms::commands::CommandTimeSource::Gps,
        precision_microseconds: 1,
    };
    assert!(authorize_transmission(&cmd, None).is_ok());
}

#[test]
fn message_packet_uses_priority_apid() {
    let mut msg = message_at(MessagePriority::Emergency, 5);
    msg.payload = MessagePayload::Command { command_id: 0x0001, parameters: vec![0xAB, 0xCD] };
    let packet = create_message_packet(&msg).unwrap();
    assert_eq!(packet.header.apid, 0x001);
    assert_eq!(packet.header.packet_type, PacketType::Command);
    assert_eq!(packet.header.sequence_count, 5);
    assert_eq!(packet.data, vec![0x00, 0x00, 0x00, 0x01, 0xAB, 0xCD]);

    let low = message_at(MessagePriority::Low, 6);
    assert_eq!(create_message_packet(&low).unwrap().header.apid, 0x005);
}

#[test]
fn emergency_payload_carries_description_bytes() {
    let mut msg = message_at(MessagePriority::Critical, 9);
    msg.payload = MessagePayload::Emergency {
        alert_level: 3,
        description: "abc".to_string(),
        data: vec![0x01, 0x02],
    };
    let packet = create_message_packet(&msg).unwrap();
    assert_eq!(packet.data, vec![3, b'a', b'b', b'c', 0x01, 0x02]);
}

#[test]
fn telemetry_packet_framing() {
    let measurements = vec![
        Measurement {
            measurement_id: 0x0001,
            value: MeasurementValue::Float(25.5f64.to_bits()),
            unit: "C",
            quality: MeasurementQuality::Good,
        },
        Measurement {
            measurement_id: 0x0010,
            value: MeasurementValue::Integer(-2),
            unit: "V",
            quality: MeasurementQuality::Good,
        },
    ];
    let data = TelemetryData {
        source: ComponentId::new(0x0001),
        timestamp: 0x0102030405060708,
        measurements,
        health_status: HealthStatus::Good,
    };
    let packet = TelemetryPacket::new(7, data, BandType::SBand);
    let ccsds = create_telemetry_packet(&packet).unwrap();
    assert_eq!(ccsds.header.apid, 0x100);
    assert_eq!(ccsds.header.packet_type, PacketType::Telemetry);
    assert_eq!(ccsds.header.sequence_count, 7);
    let mut expected: Vec<u8> = vec![1, 2, 3, 4, 5, 6, 7, 8]; // timestamp
    expected.extend_from_slice(&[0, 2]); // measurement count
    expected.extend_from_slice(&[0, 1]); // id 0x0001
    expected.extend_from_slice(&25.5f64.to_bits().to_be_bytes());
    expected.extend_from_slice(&[0, 0x10]); // id 0x0010
    expected.extend_from_slice(&(-2i32).to_be_bytes());
    assert_eq!(ccsds.data, expected);
}

#[test]
fn test_telemetry_packet() {
    let mut measurements = Vec::new();

    let temp_measurement = Measurement {
        measurement_id: 0x0001,
        value: MeasurementValue::Float(25.5f64.to_bits()),
        unit: "C",
        quality: MeasurementQuality::Good,
    };

    measurements.push(temp_measurement);

    let telemetry_data = TelemetryData {
        source: ComponentId::new(0x0001),
        timestamp: 1234567890,
        measurements,
        health_status: HealthStatus::Good,
    };

    let packet = TelemetryPacket::new(42, telemetry_data, BandType::SBand);

    assert_eq!(packet.sequence, 42);
    assert_eq!(packet.band, BandType::SBand);
    assert_eq!(packet.data.measurements.len(), 1);
    assert_eq!(packet.data.health_status, HealthStatus::Good);
}

#[test]
fn test_measurement_values() {
    let float_val = MeasurementValue::Float(3.14159f64.to_bits());
    let int_val = MeasurementValue::Integer(42);
    let bool_val = MeasurementValue::Boolean(true);

    match float_val {
        MeasurementValue::Float(bits) => {
            assert!((f64::from_bits(bits) - 3.14159).abs() < f64::EPSILON)
        }
        _ => panic!("Expected float value"),
    }

    match int_val {
        MeasurementValue::Integer(val) => assert_eq!(val, 42),
        _ => panic!("Expected integer value"),
    }

    match bool_val {
        MeasurementValue::Boolean(val) => assert!(val),
        _ => panic!("Expected boolean value"),
    }
}
