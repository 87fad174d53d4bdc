//! Tests for the command model: the full table of priorities and
//! discriminants, the confirmation set, and the builder.

use space_comms::commands::{
    AttitudeMode, BatteryMode, CalibrationType, CommandBuilder, CommandTimeSource, DataType,
    DeployableType, EmergencyReason, EventSeverity, EventType, InstrumentId, MaintenanceType,
    ManeuverType, ModulationType, ReportFormat, ResetType, SafeModeLevel, SpaceCommand,
    StatusType, StorageLocation, SubsystemId, TelemetryType,
};
use space_comms::messaging::{MessagePayload, MessagePriority};
use space_comms::types::{BandType, ComponentId};

fn all_commands() -> Vec<SpaceCommand> {
    vec![
        SpaceCommand::EmergencyAbort {
            reason: EmergencyReason::SystemFailure,
            confirmation_code: 0x12345678,
        },
        SpaceCommand::EmergencyHalt { subsystems: vec![SubsystemId::Power], override_code: 7 },
        SpaceCommand::ActivateSafeMode {
            safe_mode_level: SafeModeLevel::Level2,
            duration_seconds: Some(600),
        },
        SpaceCommand::EmergencyPowerDown {
            systems_to_preserve: vec![SubsystemId::Communications],
            battery_threshold_percent: 20,
        },
        SpaceCommand::EmergencyAttitudeRecovery {
            target_attitude: [0, 0, 0, 1_065_353_216],
            max_angular_velocity: 1_036_831_949,
        },
        SpaceCommand::AbortMission {
            mission_id: 9,
            abort_reason: b"debris".to_vec(),
            preserve_data: true,
        },
        SpaceCommand::HaltSubsystem {
            subsystem: SubsystemId::Propulsion,
            graceful_shutdown: true,
            timeout_seconds: 30,
        },
        SpaceCommand::CollisionAvoidance {
            debris_id: 12345,
            maneuver_type: ManeuverType::AvoidanceManeuver,
            delta_v: [0, 0, 0],
            execution_time: 1_694_188_900,
        },
        SpaceCommand::AttitudeControl {
            target_quaternion: [0, 0, 0, 1_065_353_216],
            angular_rates: [0, 0, 0],
            control_mode: AttitudeMode::VelocityPointing,
            deadline_ms: 2000,
        },
        SpaceCommand::SwitchCommBackup {
            primary_failure: b"X-band outage".to_vec(),
            backup_band: BandType::SBand,
            power_level_percent: 80,
        },
        SpaceCommand::ResetSystem {
            component: ComponentId::new(3),
            reset_type: ResetType::SoftReset,
            preserve_config: true,
        },
        SpaceCommand::UpdateOrbit {
            semi_major_axis: 0,
            eccentricity: 0,
            inclination: 0,
            raan: 0,
            arg_periapsis: 0,
            true_anomaly: 0,
        },
        SpaceCommand::ReconfigureComm {
            band: BandType::XBand,
            frequency_hz: 8_400_000_000,
            power_level: 70,
            modulation: ModulationType::QPSK,
            error_correction: true,
        },
        SpaceCommand::Deploy {
            deployable: DeployableType::SolarPanel,
            deployment_angle: 0,
            deployment_rate: 0,
            force_limit: 0,
        },
        SpaceCommand::StartDataCollection {
            instrument: InstrumentId::Camera,
            collection_mode: b"survey".to_vec(),
            duration_seconds: 60,
            data_rate_mbps: 0,
        },
        SpaceCommand::ConfigurePower {
            solar_panel_orientation: [0, 0, 0],
            battery_mode: BatteryMode::Charging,
            power_budget_watts: 0,
            load_shedding_priority: vec![SubsystemId::PayloadControl],
        },
        SpaceCommand::RequestTelemetry {
            telemetry_type: TelemetryType::Position,
            sampling_rate_hz: 1_092_616_192,
            duration_seconds: 60,
            compression: false,
        },
        SpaceCommand::UpdateConfig {
            config_id: b"thermal".to_vec(),
            parameters: vec![1, 2, 3],
            apply_immediately: true,
            backup_current: true,
        },
        SpaceCommand::CalibrateInstrument {
            instrument: InstrumentId::Gyroscope,
            calibration_type: CalibrationType::Bias,
            reference_values: vec![0, 0],
            temperature_compensation: true,
        },
        SpaceCommand::ScheduleOperation {
            operation_id: 4,
            scheduled_time: 1_694_188_900,
            command: Box::new(SpaceCommand::SendStatus {
                status_type: StatusType::SystemHealth,
                include_diagnostics: false,
                format: ReportFormat::Binary,
            }),
            repeat_interval: Some(3600),
        },
        SpaceCommand::StoreData {
            data_type: DataType::Science,
            storage_location: StorageLocation::NonVolatileMemory,
            compression_level: 5,
            encryption: false,
        },
        SpaceCommand::SendStatus {
            status_type: StatusType::Full,
            include_diagnostics: true,
            format: ReportFormat::Json,
        },
        SpaceCommand::UpdateTime {
            utc_time: 1_694_188_900,
            time_source: CommandTimeSource::Gps,
            precision_microseconds: 10,
        },
        SpaceCommand::PerformMaintenance {
            maintenance_type: MaintenanceType::SystemCheck,
            automated: true,
            estimated_duration: 120,
        },
        SpaceCommand::LogEvent {
            event_type: EventType::Information,
            severity: EventSeverity::Low,
            description: b"nominal".to_vec(),
            associated_data: vec![],
        },
    ]
}

#[test]
fn test_all_command_types() {
    let commands = all_commands();
    // The priority table defines five Emergency, six Critical, five
    // High, five Medium and four Low commands.
    assert_eq!(commands.len(), 25, "Should have exactly 25 command types");

    let mut discriminants: Vec<u32> = Vec::new();
    for cmd in &commands {
        let d = cmd.discriminant();
        assert!(!discriminants.contains(&d));
        discriminants.push(d);

        // Every command's discriminant lies in the range its priority
        // tier owns.
        let (lo, hi) = match cmd.priority() {
            MessagePriority::Emergency => (0x0001, 0x000F),
            MessagePriority::Critical => (0x0010, 0x001F),
            MessagePriority::High => (0x0020, 0x002F),
            MessagePriority::Medium => (0x0030, 0x003F),
            MessagePriority::Low => (0x0040, 0x004F),
        };
        assert!(d >= lo && d <= hi);
        assert!(!cmd.description().is_empty());
    }
}

#[test]
fn discriminant_table_is_stable() {
    let expected: Vec<u32> = vec![
        0x0001, 0x0002, 0x0003, 0x0004, 0x0005, 0x0010, 0x0011, 0x0012, 0x0013, 0x0014, 0x0015,
        0x0020, 0x0021, 0x0022, 0x0023, 0x0024, 0x0030, 0x0031, 0x0032, 0x0033, 0x0034, 0x0040,
        0x0041, 0x0042, 0x0043,
    ];
    let got: Vec<u32> = all_commands().iter().map(|c| c.discriminant()).collect();
    assert_eq!(got, expected);
}

#[test]
fn priority_table_is_complete() {
    let commands = all_commands();
    let expected = [
        MessagePriority::Emergency,
        MessagePriority::Emergency,
        MessagePriority::Emergency,
        MessagePriority::Emergency,
        MessagePriority::Emergency,
        MessagePriority::Critical,
        MessagePriority::Critical,
        MessagePriority::Critical,
        MessagePriority::Critical,
        MessagePriority::Critical,
        MessagePriority::Critical,
        MessagePriority::High,
        MessagePriority::High,
        MessagePriority::High,
        MessagePriority::High,
        MessagePriority::High,
        MessagePriority::Medium,
        MessagePriority::Medium,
        MessagePriority::Medium,
        MessagePriority::Medium,
        MessagePriority::Medium,
        MessagePriority::Low,
        MessagePriority::Low,
        MessagePriority::Low,
        MessagePriority::Low,
    ];
    for (cmd, want) in commands.iter().zip(expected.iter()) {
        assert_eq!(cmd.priority(), *want);
    }
}

#[test]
fn preferred_band_follows_priority() {
    for cmd in all_commands() {
        let want = match cmd.priority() {
            MessagePriority::Emergency => BandType::KBand,
            MessagePriority::Critical => BandType::XBand,
            MessagePriority::High => BandType::SBand,
            MessagePriority::Medium => BandType::SBand,
            MessagePriority::Low => BandType::UhfBand,
        };
        assert_eq!(cmd.preferred_band(), want);
    }
}

#[test]
fn max_execution_time_follows_priority() {
    for cmd in all_commands() {
        let want = match cmd.priority() {
            MessagePriority::Emergency => 1,
            MessagePriority::Critical => 10,
            MessagePriority::High => 100,
            MessagePriority::Medium => 1000,
            MessagePriority::Low => 10000,
        };
        assert_eq!(cmd.max_execution_time_ms(), want);
    }
}

#[test]
fn confirmation_set_is_exact() {
    let confirmed: Vec<u32> = all_commands()
        .iter()
        .filter(|c| c.requires_confirmation())
        .map(|c| c.discriminant())
        .collect();
    // EmergencyAbort, EmergencyHalt, ActivateSafeMode, AbortMission,
    // CollisionAvoidance, ResetSystem, Deploy.
    assert_eq!(confirmed, vec![0x0001, 0x0002, 0x0003, 0x0010, 0x0012, 0x0015, 0x0022]);
}

#[test]
fn builder_emergency_abort_message() {
    let msg = CommandBuilder::new(ComponentId::new(1), ComponentId::new(2))
        .emergency_abort(EmergencyReason::SystemFailure, 0x12345678)
        .build_at(42)
        .unwrap();

    assert_eq!(msg.priority, MessagePriority::Emergency);
    assert_eq!(msg.preferred_band, BandType::KBand);
    assert_eq!(msg.source.value(), 1);
    assert_eq!(msg.destination.value(), 2);
    assert_eq!(msg.timestamp, 42);
    assert_eq!(msg.ttl_seconds, 1); // 1 ms latency budget over 1000, plus one
    assert_eq!(msg.max_retries, 3); // real-time priority
    assert_eq!(msg.retry_count, 0);
    match &msg.payload {
        MessagePayload::Command { command_id, parameters } => {
            assert_eq!(*command_id, 0x0001);
            // reason code, then the confirmation code big-endian
            assert_eq!(parameters.as_slice(), &[0x00, 0x12, 0x34, 0x56, 0x78]);
        }
        _ => panic!("expected a command payload"),
    }
}

#[test]
fn builder_low_priority_ttl_and_retries() {
    let msg = CommandBuilder::new(ComponentId::new(1), ComponentId::new(2))
        .with_command(SpaceCommand::SendStatus {
            status_type: StatusType::SystemHealth,
            include_diagnostics: false,
            format: ReportFormat::Binary,
        })
        .build_at(0)
        .unwrap();
    assert_eq!(msg.priority, MessagePriority::Low);
    assert_eq!(msg.ttl_seconds, 11); // 10000 ms over 1000, plus one
    assert_eq!(msg.max_retries, 1);
    assert_eq!(msg.preferred_band, BandType::UhfBand);
}

#[test]
fn builder_without_command_fails() {
    let r = CommandBuilder::new(ComponentId::new(1), ComponentId::new(2)).build_at(0);
    assert!(r.is_err());
}

#[test]
fn builder_rejects_out_of_range_field() {
    let r = CommandBuilder::new(ComponentId::new(1), ComponentId::new(2))
        .with_command(SpaceCommand::EmergencyPowerDown {
            systems_to_preserve: vec![],
            battery_threshold_percent: 150,
        })
        .build_at(0);
    assert!(r.is_err());
}

#[test]
fn builder_rejects_oversized_parameters() {
    // 512 configuration bytes cannot fit the 256-byte parameter bound.
    let r = CommandBuilder::new(ComponentId::new(1), ComponentId::new(2))
        .with_command(SpaceCommand::UpdateConfig {
            config_id: b"big".to_vec(),
            parameters: vec![0u8; 512],
            apply_immediately: false,
            backup_current: false,
        })
        .build_at(0);
    assert!(r.is_err());
}

#[test]
fn builder_collision_avoidance_parameters() {
    let dv = [0.5f32.to_bits(), (-0.3f32).to_bits(), 0.2f32.to_bits()];
    let msg = CommandBuilder::new(ComponentId::new(1), ComponentId::new(2))
        .collision_avoidance(12345, ManeuverType::AvoidanceManeuver, dv, 1_694_188_900)
        .build_at(1)
        .unwrap();
    assert_eq!(msg.priority, MessagePriority::Critical);
    match &msg.payload {
        MessagePayload::Command { command_id, parameters } => {
            assert_eq!(*command_id, 0x0012);
            // debris id, maneuver code, three delta-v words, execution time
            assert_eq!(parameters.len(), 8 + 1 + 12 + 8);
            assert_eq!(&parameters[0..8], &12345u64.to_be_bytes());
            assert_eq!(parameters[8], 5); // AvoidanceManeuver
            assert_eq!(&parameters[9..13], &0.5f32.to_bits().to_be_bytes());
        }
        _ => panic!("expected a command payload"),
    }
}
