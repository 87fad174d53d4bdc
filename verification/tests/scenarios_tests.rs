//! End-to-end scenarios across the command model, the queue, the codec
//! and the link selector.

use space_comms::ccsds::{PacketType, SpacePacket};
use space_comms::error::SpaceCommError;
use space_comms::messaging::Message;
use space_comms::telemetry::{
    Measurement, MeasurementQuality, MeasurementValue, TelemetryData, TelemetryPacket,
};
use space_comms::types::{HealthStatus, MessageId};
use space_comms::commands::{
    AttitudeMode, CommandBuilder, EventSeverity, EventType, ManeuverType, SpaceCommand,
    TelemetryType,
};
use space_comms::comm::create_message_packet;
use space_comms::ground::Command;
use space_comms::messaging::{MessagePayload, MessagePriority};
use space_comms::queue::PriorityQueue;
use space_comms::types::{BandType, ComponentId};

fn build(command: SpaceCommand, at: u64) -> space_comms::messaging::Message {
    CommandBuilder::new(ComponentId::new(0x10), ComponentId::new(0x20))
        .with_command(command)
        .build_at(at)
        .unwrap()
}

#[test]
fn scenario_collision_avoidance() {
    // Enqueue a low log, three criticals, a high and a medium in mixed
    // order; pops follow priority, and the criticals keep FIFO order.
    let log_event = build(
        SpaceCommand::LogEvent {
            event_type: EventType::Information,
            severity: EventSeverity::Low,
            description: b"routine".to_vec(),
            associated_data: vec![],
        },
        1,
    );
    let collision = build(
        SpaceCommand::CollisionAvoidance {
            debris_id: 12345,
            maneuver_type: ManeuverType::AvoidanceManeuver,
            delta_v: [0.5f32.to_bits(), (-0.3f32).to_bits(), 0.2f32.to_bits()],
            execution_time: 1694188900,
        },
        2,
    );
    let attitude = build(
        SpaceCommand::AttitudeControl {
            target_quaternion: [
                0.0f32.to_bits(),
                0.1f32.to_bits(),
                0.0f32.to_bits(),
                0.995f32.to_bits(),
            ],
            angular_rates: [0.02f32.to_bits(), 0.01f32.to_bits(), 0.005f32.to_bits()],
            control_mode: AttitudeMode::VelocityPointing,
            deadline_ms: 2000,
        },
        3,
    );
    let switch_backup = build(
        SpaceCommand::SwitchCommBackup {
            primary_failure: b"X-band degraded".to_vec(),
            backup_band: BandType::SBand,
            power_level_percent: 80,
        },
        4,
    );
    let update_orbit = build(
        SpaceCommand::UpdateOrbit {
            semi_major_axis: 7001.5f64.to_bits(),
            eccentricity: 0.0012f64.to_bits(),
            inclination: 98.6f64.to_bits(),
            raan: 45.1f64.to_bits(),
            arg_periapsis: 90.0f64.to_bits(),
            true_anomaly: 15.0f64.to_bits(),
        },
        5,
    );
    let request_telemetry = build(
        SpaceCommand::RequestTelemetry {
            telemetry_type: TelemetryType::Position,
            sampling_rate_hz: 10.0f32.to_bits(),
            duration_seconds: 60,
            compression: false,
        },
        6,
    );

    let mut queue: PriorityQueue<16> = PriorityQueue::new();
    queue.push(log_event).unwrap();
    queue.push(collision).unwrap();
    queue.push(attitude).unwrap();
    queue.push(switch_backup).unwrap();
    queue.push(update_orbit).unwrap();
    queue.push(request_telemetry).unwrap();

    let mut order: Vec<u32> = Vec::new();
    while let Some(m) = queue.pop() {
        match m.payload {
            MessagePayload::Command { command_id, .. } => order.push(command_id),
            _ => panic!("expected command payloads"),
        }
    }
    // CollisionAvoidance, AttitudeControl, SwitchCommBackup in FIFO
    // order inside Critical, then UpdateOrbit, RequestTelemetry, LogEvent.
    assert_eq!(order, vec![0x0012, 0x0013, 0x0014, 0x0020, 0x0030, 0x0043]);
}

#[test]
fn scenario_command_to_wire_and_back() {
    // A built command message frames into a CCSDS packet whose wire
    // image decodes back to the same header and payload.
    let msg = build(
        SpaceCommand::RequestTelemetry {
            telemetry_type: TelemetryType::Health,
            sampling_rate_hz: 1.0f32.to_bits(),
            duration_seconds: 10,
            compression: true,
        },
        77,
    );
    let packet = create_message_packet(&msg).unwrap();
    assert_eq!(packet.header.apid, 0x004); // medium priority
    let bytes = packet.to_bytes().unwrap();
    let decoded = SpacePacket::from_bytes(&bytes).unwrap();
    assert_eq!(decoded.header, packet.header);
    assert_eq!(decoded.data, packet.data);
    // The first four payload bytes carry the discriminant.
    assert_eq!(&decoded.data[0..4], &0x0030u32.to_be_bytes());
}

#[test]
fn ground_command_constructors() {
    let status = Command::system_status_request();
    assert_eq!(status.command_id, 0x1001);
    assert_eq!(status.priority, MessagePriority::Medium);
    assert!(status.parameters.is_empty());

    let telem = Command::telemetry_request();
    assert_eq!(telem.command_id, 0x1002);
    assert_eq!(telem.priority, MessagePriority::Low);

    let stop = Command::emergency_stop();
    assert_eq!(stop.command_id, 0x9999);
    assert_eq!(stop.priority, MessagePriority::Emergency);
    assert_eq!(stop.parameters, vec![0x01]);

    let band = Command::switch_band(BandType::KBand);
    assert_eq!(band.command_id, 0x2001);
    assert_eq!(band.priority, MessagePriority::High);
    assert_eq!(band.parameters, vec![3]);

    let custom = Command::new(0x4242, MessagePriority::High, vec![9, 9]);
    assert_eq!(custom.command_id, 0x4242);
    assert_eq!(custom.parameters, vec![9, 9]);
}

#[test]
fn test_system_integration() {
    // A message, a telemetry packet and two CCSDS packets work together.
    let message = Message {
        id: MessageId::new(1),
        priority: MessagePriority::Critical,
        source: ComponentId::new(1),
        destination: ComponentId::new(2),
        timestamp: 0,
        payload: MessagePayload::Emergency {
            alert_level: 3,
            description: "System test".to_string(),
            data: vec![0x01, 0x02, 0x03],
        },
        preferred_band: BandType::XBand,
        ttl_seconds: 1,
        retry_count: 0,
        max_retries: 3,
    };
    assert_eq!(message.priority, MessagePriority::Critical);

    let mut measurements = Vec::new();
    measurements.push(Measurement {
        measurement_id: 0x0001,
        value: MeasurementValue::Float(25.0f64.to_bits()),
        unit: "C",
        quality: MeasurementQuality::Good,
    });

    let telemetry_data = TelemetryData {
        source: ComponentId::new(0x0001),
        timestamp: 1234567890,
        measurements,
        health_status: HealthStatus::Good,
    };

    let telemetry_packet = TelemetryPacket::new(1, telemetry_data, BandType::SBand);
    assert_eq!(telemetry_packet.sequence, 1);

    let command_packet = SpacePacket::new(PacketType::Command, 0x001, 1, &[0x01, 0x02, 0x03], None)
        .unwrap();
    let telemetry_ccsds =
        SpacePacket::new(PacketType::Telemetry, 0x100, 1, &[0x04, 0x05, 0x06], None).unwrap();

    let command_bytes = command_packet.to_bytes().unwrap();
    let telemetry_bytes = telemetry_ccsds.to_bytes().unwrap();

    assert!(command_bytes.len() >= 6);
    assert!(telemetry_bytes.len() >= 6);

    let error = SpaceCommError::invalid_packet("Test error", Some(7));
    assert!(error.describe().contains("Invalid packet"));

    println!("System integration test completed successfully");
}
