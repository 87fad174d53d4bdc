//! The closed set of mission commands: priority mapping, band
//! preference, confirmation requirements, stable discriminants, and the
//! builder that turns a command into a queued message.

use vstd::prelude::*;
use crate::ccsds::{be2, be4, be8, push_u16_be, push_u32_be, push_u64_be};
use crate::error::SpaceCommError;
use crate::messaging::{Message, MessagePayload, MessagePriority, COMMAND_PARAMS_MAX};
use crate::types::{BandType, ComponentId, MessageId};

verus! {

/// Maximum subsystems named by one command.
pub const MAX_SUBSYSTEMS: usize = 16;
/// Maximum bytes of free text carried by a command.
pub const MAX_COMMAND_TEXT: usize = 128;
/// Maximum reference values of a calibration command.
pub const MAX_REFERENCE_VALUES: usize = 16;
/// Maximum bytes of configuration parameters carried by a command.
pub const MAX_CONFIG_BYTES: usize = 512;
/// Maximum bytes of event data carried by a log command.
pub const MAX_EVENT_BYTES: usize = 128;

/// Emergency reasons for abort and halt commands.
#[derive(Debug, Clone, Copy, PartialEq, Eq, Structural)]
pub enum EmergencyReason {
    /// General system failure.
    SystemFailure,
    /// Battery or power bus critically low.
    PowerCritical,
    /// Thermal limits exceeded.
    ThermalEmergency,
    /// Attitude determination or control lost.
    AttitudeLoss,
    /// Communication link lost.
    CommunicationLoss,
    /// Collision predicted.
    CollisionImminent,
    /// Commanded from the ground.
    GroundCommand,
    /// Raised by the onboard failsafe.
    OnboardFailsafe,
}

/// Safe mode levels for emergency operation.
#[derive(Debug, Clone, Copy, PartialEq, Eq, Structural)]
pub enum SafeModeLevel {
    /// Minimal operations, communications only.
    Level1,
    /// Basic attitude control and communications.
    Level2,
    /// Adds power management.
    Level3,
    /// Adds thermal control.
    Level4,
}

/// Satellite subsystem identifiers.
#[derive(Debug, Clone, Copy, PartialEq, Eq, Structural)]
pub enum SubsystemId {
    /// Power subsystem.
    Power,
    /// Communications subsystem.
    Communications,
    /// Attitude control subsystem.
    AttitudeControl,
    /// Propulsion subsystem.
    Propulsion,
    /// Thermal control subsystem.
    ThermalControl,
    /// Payload control subsystem.
    PayloadControl,
    /// Onboard computer.
    OnboardComputer,
    /// Navigation subsystem.
    Navigation,
    /// Solar panels.
    SolarPanels,
    /// Battery management.
    BatteryManagement,
    /// Antenna subsystem.
    Antenna,
    /// Sensor suite.
    Sensors,
    /// Data storage.
    DataStorage,
    /// Command processor.
    CommandProcessor,
    /// Telemetry subsystem.
    Telemetry,
    /// Error correction subsystem.
    ErrorCorrection,
}

/// Orbital maneuver types.
#[derive(Debug, Clone, Copy, PartialEq, Eq, Structural)]
pub enum ManeuverType {
    /// Raise the orbit.
    OrbitRaise,
    /// Lower the orbit.
    OrbitLower,
    /// Change the orbital plane.
    PlaneChange,
    /// Adjust the attitude.
    AttitudeAdjust,
    /// Hold the current station.
    StationKeeping,
    /// Avoid an object.
    AvoidanceManeuver,
    /// Leave orbit.
    Deorbit,
}

/// Attitude control modes.
#[derive(Debug, Clone, Copy, PartialEq, Eq, Structural)]
pub enum AttitudeMode {
    /// Inertial pointing.
    Inertial,
    /// Earth pointing.
    EarthPointing,
    /// Sun pointing.
    SunPointing,
    /// Velocity vector pointing.
    VelocityPointing,
    /// Target pointing.
    TargetPointing,
    /// Spin stabilized.
    SpinStabilized,
}

/// System reset types.
#[derive(Debug, Clone, Copy, PartialEq, Eq, Structural)]
pub enum ResetType {
    /// Software reset.
    SoftReset,
    /// Hardware reset.
    HardReset,
    /// Watchdog-driven reset.
    WatchdogReset,
    /// Full power cycle.
    PowerCycle,
    /// Restore factory configuration.
    FactoryReset,
}

/// Communication modulation types.
#[derive(Debug, Clone, Copy, PartialEq, Eq, Structural)]
pub enum ModulationType {
    /// Binary phase-shift keying.
    BPSK,
    /// Quadrature phase-shift keying.
    QPSK,
    /// Eight-level phase-shift keying.
    PSK8,
    /// Sixteen-level quadrature amplitude modulation.
    QAM16,
    /// Sixty-four-level quadrature amplitude modulation.
    QAM64,
    /// Orthogonal frequency-division multiplexing.
    OFDM,
}

/// Deployable component types.
#[derive(Debug, Clone, Copy, PartialEq, Eq, Structural)]
pub enum DeployableType {
    /// Solar panel.
    SolarPanel,
    /// Antenna.
    Antenna,
    /// Magnetometer boom.
    Magnetometer,
    /// Generic sensor.
    Sensor,
    /// Camera lens cover.
    CameraLens,
    /// Radiator panel.
    Radiator,
}

/// Science instrument identifiers.
#[derive(Debug, Clone, Copy, PartialEq, Eq, Structural)]
pub enum InstrumentId {
    /// Camera.
    Camera,
    /// Spectrometer.
    Spectrometer,
    /// Magnetometer.
    Magnetometer,
    /// Accelerometer.
    Accelerometer,
    /// Gyroscope.
    Gyroscope,
    /// Temperature sensor.
    TemperatureSensor,
    /// Pressure sensor.
    PressureSensor,
    /// Radiation detector.
    RadiationDetector,
    /// GPS receiver.
    GpsReceiver,
    /// Star tracker.
    StarTracker,
}

/// Battery operation modes.
#[derive(Debug, Clone, Copy, PartialEq, Eq, Structural)]
pub enum BatteryMode {
    /// Charging.
    Charging,
    /// Discharging.
    Discharging,
    /// Maintenance charge.
    Maintenance,
    /// Emergency reserve.
    Emergency,
    /// Hibernation.
    Hibernate,
}

/// Telemetry data types.
#[derive(Debug, Clone, Copy, PartialEq, Eq, Structural)]
pub enum TelemetryType {
    /// Health summary.
    Health,
    /// Position data.
    Position,
    /// Attitude data.
    Attitude,
    /// Power data.
    Power,
    /// Thermal data.
    Thermal,
    /// Communications data.
    Communications,
    /// Payload data.
    Payload,
    /// Navigation data.
    Navigation,
    /// Diagnostics data.
    Diagnostics,
    /// Science data.
    Science,
}

/// Instrument calibration types.
#[derive(Debug, Clone, Copy, PartialEq, Eq, Structural)]
pub enum CalibrationType {
    /// Bias calibration.
    Bias,
    /// Scale calibration.
    Scale,
    /// Temperature compensation calibration.
    Temperature,
    /// Linearity calibration.
    Linearity,
    /// Cross-axis calibration.
    CrossAxis,
    /// Full calibration.
    Full,
}

/// Data storage categories.
#[derive(Debug, Clone, Copy, PartialEq, Eq, Structural)]
pub enum DataType {
    /// Telemetry records.
    Telemetry,
    /// Science data.
    Science,
    /// Image data.
    Images,
    /// Log records.
    Logs,
    /// Configuration data.
    Configuration,
    /// Diagnostic data.
    Diagnostic,
}

/// Storage location options.
#[derive(Debug, Clone, Copy, PartialEq, Eq, Structural)]
pub enum StorageLocation {
    /// Volatile memory.
    VolatileMemory,
    /// Non-volatile memory.
    NonVolatileMemory,
    /// Backup storage.
    BackupStorage,
    /// External storage.
    ExternalStorage,
}

/// Status report types.
#[derive(Debug, Clone, Copy, PartialEq, Eq, Structural)]
pub enum StatusType {
    /// System health report.
    SystemHealth,
    /// Mission status report.
    MissionStatus,
    /// Component status report.
    ComponentStatus,
    /// Power status report.
    PowerStatus,
    /// Communication status report.
    CommunicationStatus,
    /// Full report.
    Full,
}

/// Report output formats.
#[derive(Debug, Clone, Copy, PartialEq, Eq, Structural)]
pub enum ReportFormat {
    /// Raw binary.
    Binary,
    /// JSON text.
    Json,
    /// Comma-separated values.
    Csv,
    /// Compressed binary.
    Compressed,
}

/// Time synchronization sources named by a time update command.
#[derive(Debug, Clone, Copy, PartialEq, Eq, Structural)]
pub enum CommandTimeSource {
    /// Ground station time signal.
    GroundStation,
    /// GPS timing signal.
    Gps,
    /// Onboard clock.
    OnboardClock,
    /// Network time.
    NetworkTime,
    /// Atomic clock reference.
    AtomicClock,
}

/// Maintenance operation types.
#[derive(Debug, Clone, Copy, PartialEq, Eq, Structural)]
pub enum MaintenanceType {
    /// General system check.
    SystemCheck,
    /// Calibration pass.
    Calibration,
    /// Software update.
    SoftwareUpdate,
    /// Hardware test.
    HardwareTest,
    /// Performance measurement.
    Performance,
    /// Preventive maintenance.
    Preventive,
}

/// System event types for logging.
#[derive(Debug, Clone, Copy, PartialEq, Eq, Structural)]
pub enum EventType {
    /// System start.
    SystemStart,
    /// System shutdown.
    SystemShutdown,
    /// Error event.
    Error,
    /// Warning event.
    Warning,
    /// Informational event.
    Information,
    /// Command received.
    CommandReceived,
    /// Command executed.
    CommandExecuted,
    /// Data transmission.
    DataTransmission,
    /// Mode change.
    ModeChange,
    /// Anomaly detected.
    Anomaly,
}

/// Event severity levels.
#[derive(Debug, Clone, Copy, PartialEq, Eq, Structural)]
pub enum EventSeverity {
    /// Critical severity.
    Critical,
    /// High severity.
    High,
    /// Medium severity.
    Medium,
    /// Low severity.
    Low,
    /// Informational.
    Info,
}

/// The closed set of mission commands, 25 variants grouped by priority.
/// Physical quantities that the stack transports but never computes with,
/// such as quaternions and delta-v components, are carried as IEEE-754
/// bit patterns: `u32` for single precision and `u64` for double
/// precision. Free text travels as UTF-8 bytes.
#[derive(Debug)]
pub enum SpaceCommand {
    /// Immediate emergency abort of all operations.
    EmergencyAbort {
        /// Why the abort was issued.
        reason: EmergencyReason,
        /// Code that a transmit-side token must match.
        confirmation_code: u32,
    },
    /// Hard stop of the named subsystems.
    EmergencyHalt {
        /// Subsystems to halt, at most `MAX_SUBSYSTEMS`.
        subsystems: Vec<SubsystemId>,
        /// Override code.
        override_code: u64,
    },
    /// Enter a safe mode level.
    ActivateSafeMode {
        /// The level to enter.
        safe_mode_level: SafeModeLevel,
        /// Optional duration in seconds.
        duration_seconds: Option<u32>,
    },
    /// Emergency power-down of non-critical systems.
    EmergencyPowerDown {
        /// Systems to keep powered, at most `MAX_SUBSYSTEMS`.
        systems_to_preserve: Vec<SubsystemId>,
        /// Battery threshold percent, at most 100.
        battery_threshold_percent: u8,
    },
    /// Immediate attitude recovery.
    EmergencyAttitudeRecovery {
        /// Target attitude quaternion, four single-precision bit patterns.
        target_attitude: [u32; 4],
        /// Maximum angular velocity, single-precision bit pattern.
        max_angular_velocity: u32,
    },
    /// Abort the current mission sequence.
    AbortMission {
        /// Mission identifier.
        mission_id: u32,
        /// Abort reason text, UTF-8, at most `MAX_COMMAND_TEXT` bytes.
        abort_reason: Vec<u8>,
        /// Whether collected data is preserved.
        preserve_data: bool,
    },
    /// Halt one subsystem.
    HaltSubsystem {
        /// The subsystem to halt.
        subsystem: SubsystemId,
        /// Whether to shut down gracefully.
        graceful_shutdown: bool,
        /// Timeout in seconds.
        timeout_seconds: u32,
    },
    /// Execute a collision avoidance maneuver.
    CollisionAvoidance {
        /// Identifier of the debris to avoid.
        debris_id: u64,
        /// Maneuver to perform.
        maneuver_type: ManeuverType,
        /// Delta-v components in m/s, single-precision bit patterns.
        delta_v: [u32; 3],
        /// Execution time, Unix timestamp.
        execution_time: u64,
    },
    /// Immediate attitude control command.
    AttitudeControl {
        /// Target quaternion, four single-precision bit patterns.
        target_quaternion: [u32; 4],
        /// Angular rates in rad/s, single-precision bit patterns.
        angular_rates: [u32; 3],
        /// Control mode.
        control_mode: AttitudeMode,
        /// Deadline in milliseconds.
        deadline_ms: u32,
    },
    /// Switch to a backup communication band.
    SwitchCommBackup {
        /// Description of the primary failure, UTF-8, at most
        /// `MAX_COMMAND_TEXT` bytes.
        primary_failure: Vec<u8>,
        /// The backup band.
        backup_band: BandType,
        /// Power level percent, at most 100.
        power_level_percent: u8,
    },
    /// Reset a system component.
    ResetSystem {
        /// The component to reset.
        component: ComponentId,
        /// Kind of reset.
        reset_type: ResetType,
        /// Whether configuration is preserved.
        preserve_config: bool,
    },
    /// Update orbital parameters, six double-precision bit patterns.
    UpdateOrbit {
        /// Semi-major axis in km.
        semi_major_axis: u64,
        /// Eccentricity.
        eccentricity: u64,
        /// Inclination in degrees.
        inclination: u64,
        /// Right ascension of the ascending node.
        raan: u64,
        /// Argument of periapsis.
        arg_periapsis: u64,
        /// True anomaly in degrees.
        true_anomaly: u64,
    },
    /// Reconfigure a communication band.
    ReconfigureComm {
        /// The band to reconfigure.
        band: BandType,
        /// Carrier frequency in Hz.
        frequency_hz: u64,
        /// Power level percent, at most 100.
        power_level: u8,
        /// Modulation scheme.
        modulation: ModulationType,
        /// Whether forward error correction is on.
        error_correction: bool,
    },
    /// Deploy a mechanism.
    Deploy {
        /// What to deploy.
        deployable: DeployableType,
        /// Deployment angle in degrees, single-precision bit pattern.
        deployment_angle: u32,
        /// Deployment rate in degrees per second, single-precision bits.
        deployment_rate: u32,
        /// Force limit in newtons, single-precision bit pattern.
        force_limit: u32,
    },
    /// Start science data collection.
    StartDataCollection {
        /// The instrument to use.
        instrument: InstrumentId,
        /// Collection mode name, UTF-8, at most 32 bytes.
        collection_mode: Vec<u8>,
        /// Duration in seconds.
        duration_seconds: u32,
        /// Data rate in Mbps, single-precision bit pattern.
        data_rate_mbps: u32,
    },
    /// Configure the power system.
    ConfigurePower {
        /// Solar panel orientation, three single-precision bit patterns.
        solar_panel_orientation: [u32; 3],
        /// Battery mode.
        battery_mode: BatteryMode,
        /// Power budget in watts, single-precision bit pattern.
        power_budget_watts: u32,
        /// Load shedding order, at most `MAX_SUBSYSTEMS` subsystems.
        load_shedding_priority: Vec<SubsystemId>,
    },
    /// Request telemetry data.
    RequestTelemetry {
        /// Kind of telemetry.
        telemetry_type: TelemetryType,
        /// Sampling rate in Hz, single-precision bit pattern.
        sampling_rate_hz: u32,
        /// Duration in seconds.
        duration_seconds: u32,
        /// Whether the stream is compressed.
        compression: bool,
    },
    /// Update software configuration.
    UpdateConfig {
        /// Configuration identifier, UTF-8, at most 32 bytes.
        config_id: Vec<u8>,
        /// Raw parameter bytes, at most `MAX_CONFIG_BYTES`.
        parameters: Vec<u8>,
        /// Whether to apply immediately.
        apply_immediately: bool,
        /// Whether to back up the current configuration first.
        backup_current: bool,
    },
    /// Calibrate an instrument.
    CalibrateInstrument {
        /// The instrument to calibrate.
        instrument: InstrumentId,
        /// Kind of calibration.
        calibration_type: CalibrationType,
        /// Reference values, single-precision bit patterns, at most
        /// `MAX_REFERENCE_VALUES`.
        reference_values: Vec<u32>,
        /// Whether temperature compensation applies.
        temperature_compensation: bool,
    },
    /// Schedule a future operation.
    ScheduleOperation {
        /// Operation identifier.
        operation_id: u64,
        /// Scheduled time, Unix timestamp.
        scheduled_time: u64,
        /// The command to run.
        command: Box<SpaceCommand>,
        /// Optional repeat interval in seconds.
        repeat_interval: Option<u32>,
    },
    /// Store data to onboard memory.
    StoreData {
        /// What kind of data.
        data_type: DataType,
        /// Where to store it.
        storage_location: StorageLocation,
        /// Compression level.
        compression_level: u8,
        /// Whether the data is encrypted.
        encryption: bool,
    },
    /// Send a status report.
    SendStatus {
        /// Kind of status report.
        status_type: StatusType,
        /// Whether diagnostics are included.
        include_diagnostics: bool,
        /// Output format.
        format: ReportFormat,
    },
    /// Update time synchronization.
    UpdateTime {
        /// UTC time, Unix timestamp.
        utc_time: u64,
        /// Source of the time signal.
        time_source: CommandTimeSource,
        /// Precision in microseconds.
        precision_microseconds: u32,
    },
    /// Perform routine maintenance.
    PerformMaintenance {
        /// Kind of maintenance.
        maintenance_type: MaintenanceType,
        /// Whether it runs unattended.
        automated: bool,
        /// Estimated duration in seconds.
        estimated_duration: u32,
    },
    /// Log a system event.
    LogEvent {
        /// Kind of event.
        event_type: EventType,
        /// Severity of the event.
        severity: EventSeverity,
        /// Description, UTF-8, at most `MAX_COMMAND_TEXT` bytes.
        description: Vec<u8>,
        /// Associated data, at most `MAX_EVENT_BYTES`.
        associated_data: Vec<u8>,
    },
}

impl SpaceCommand {
    /// The priority tier of the command, a total function given by the
    /// command table: five Emergency, six Critical, five High, five
    /// Medium and four Low commands.
    pub open spec fn spec_priority(self) -> MessagePriority {
        match self {
            SpaceCommand::EmergencyAbort { .. } => MessagePriority::Emergency,
            SpaceCommand::EmergencyHalt { .. } => MessagePriority::Emergency,
            SpaceCommand::ActivateSafeMode { .. } => MessagePriority::Emergency,
            SpaceCommand::EmergencyPowerDown { .. } => MessagePriority::Emergency,
            SpaceCommand::EmergencyAttitudeRecovery { .. } => MessagePriority::Emergency,
            SpaceCommand::AbortMission { .. } => MessagePriority::Critical,
            SpaceCommand::HaltSubsystem { .. } => MessagePriority::Critical,
            SpaceCommand::CollisionAvoidance { .. } => MessagePriority::Critical,
            SpaceCommand::AttitudeControl { .. } => MessagePriority::Critical,
            SpaceCommand::SwitchCommBackup { .. } => MessagePriority::Critical,
            SpaceCommand::ResetSystem { .. } => MessagePriority::Critical,
            SpaceCommand::UpdateOrbit { .. } => MessagePriority::High,
            SpaceCommand::ReconfigureComm { .. } => MessagePriority::High,
            SpaceCommand::Deploy { .. } => MessagePriority::High,
            SpaceCommand::StartDataCollection { .. } => MessagePriority::High,
            SpaceCommand::ConfigurePower { .. } => MessagePriority::High,
            SpaceCommand::RequestTelemetry { .. } => MessagePriority::Medium,
            SpaceCommand::UpdateConfig { .. } => MessagePriority::Medium,
            SpaceCommand::CalibrateInstrument { .. } => MessagePriority::Medium,
            SpaceCommand::ScheduleOperation { .. } => MessagePriority::Medium,
            SpaceCommand::StoreData { .. } => MessagePriority::Medium,
            SpaceCommand::SendStatus { .. } => MessagePriority::Low,
            SpaceCommand::UpdateTime { .. } => MessagePriority::Low,
            SpaceCommand::PerformMaintenance { .. } => MessagePriority::Low,
            SpaceCommand::LogEvent { .. } => MessagePriority::Low,
        }
    }

    /// The priority tier of the command.
    pub fn priority(&self) -> (r: MessagePriority)
        ensures
            r == self.spec_priority(),
    {
        match self {
            SpaceCommand::EmergencyAbort { .. } => MessagePriority::Emergency,
            SpaceCommand::EmergencyHalt { .. } => MessagePriority::Emergency,
            SpaceCommand::ActivateSafeMode { .. } => MessagePriority::Emergency,
            SpaceCommand::EmergencyPowerDown { .. } => MessagePriority::Emergency,
            SpaceCommand::EmergencyAttitudeRecovery { .. } => MessagePriority::Emergency,
            SpaceCommand::AbortMission { .. } => MessagePriority::Critical,
            SpaceCommand::HaltSubsystem { .. } => MessagePriority::Critical,
            SpaceCommand::CollisionAvoidance { .. } => MessagePriority::Critical,
            SpaceCommand::AttitudeControl { .. } => MessagePriority::Critical,
            SpaceCommand::SwitchCommBackup { .. } => MessagePriority::Critical,
            SpaceCommand::ResetSystem { .. } => MessagePriority::Critical,
            SpaceCommand::UpdateOrbit { .. } => MessagePriority::High,
            SpaceCommand::ReconfigureComm { .. } => MessagePriority::High,
            SpaceCommand::Deploy { .. } => MessagePriority::High,
            SpaceCommand::StartDataCollection { .. } => MessagePriority::High,
            SpaceCommand::ConfigurePower { .. } => MessagePriority::High,
            SpaceCommand::RequestTelemetry { .. } => MessagePriority::Medium,
            SpaceCommand::UpdateConfig { .. } => MessagePriority::Medium,
            SpaceCommand::CalibrateInstrument { .. } => MessagePriority::Medium,
            SpaceCommand::ScheduleOperation { .. } => MessagePriority::Medium,
            SpaceCommand::StoreData { .. } => MessagePriority::Medium,
            SpaceCommand::SendStatus { .. } => MessagePriority::Low,
            SpaceCommand::UpdateTime { .. } => MessagePriority::Low,
            SpaceCommand::PerformMaintenance { .. } => MessagePriority::Low,
            SpaceCommand::LogEvent { .. } => MessagePriority::Low,
        }
    }

    /// The band a priority tier prefers, before failover or emergency
    /// overrides: Emergency on K band, Critical on X band, High and
    /// Medium on S band, Low on UHF.
    pub open spec fn spec_preferred_band(self) -> BandType {
        band_for_priority(self.spec_priority())
    }

    /// The band this command prefers, a function of its priority alone.
    pub fn preferred_band(&self) -> (r: BandType)
        ensures
            r == self.spec_preferred_band(),
    {
        match self.priority() {
            MessagePriority::Emergency => BandType::KBand,
            MessagePriority::Critical => BandType::XBand,
            MessagePriority::High => BandType::SBand,
            MessagePriority::Medium => BandType::SBand,
            MessagePriority::Low => BandType::UhfBand,
        }
    }

    /// Maximum allowed execution time in milliseconds, the latency
    /// budget of the command's priority tier.
    pub fn max_execution_time_ms(&self) -> (r: u32)
        ensures
            r == self.spec_priority().spec_max_latency_ms(),
    {
        self.priority().max_latency_ms()
    }

    /// Whether the command belongs to the confirmation set, whose
    /// members the transmitter refuses to dispatch without a matching
    /// confirmation token.
    pub open spec fn spec_requires_confirmation(self) -> bool {
        match self {
            SpaceCommand::EmergencyAbort { .. } => true,
            SpaceCommand::EmergencyHalt { .. } => true,
            SpaceCommand::ActivateSafeMode { .. } => true,
            SpaceCommand::AbortMission { .. } => true,
            SpaceCommand::CollisionAvoidance { .. } => true,
            SpaceCommand::ResetSystem { .. } => true,
            SpaceCommand::Deploy { .. } => true,
            _ => false,
        }
    }

    /// Whether the command requires confirmation before transmission.
    pub fn requires_confirmation(&self) -> (r: bool)
        ensures
            r == self.spec_requires_confirmation(),
    {
        matches!(
            self,
            SpaceCommand::EmergencyAbort { .. }
                | SpaceCommand::EmergencyHalt { .. }
                | SpaceCommand::ActivateSafeMode { .. }
                | SpaceCommand::AbortMission { .. }
                | SpaceCommand::CollisionAvoidance { .. }
                | SpaceCommand::ResetSystem { .. }
                | SpaceCommand::Deploy { .. }
        )
    }

    /// The stable discriminant of the command. The table is an external
    /// interface contract: Emergency commands occupy 0x0001 to 0x000F,
    /// Critical 0x0010 to 0x001F, High 0x0020 to 0x002F, Medium 0x0030
    /// to 0x003F, and Low 0x0040 to 0x004F.
    pub open spec fn spec_discriminant(self) -> u32 {
        match self {
            SpaceCommand::EmergencyAbort { .. } => 0x0001u32,
            SpaceCommand::EmergencyHalt { .. } => 0x0002u32,
            SpaceCommand::ActivateSafeMode { .. } => 0x0003u32,
            SpaceCommand::EmergencyPowerDown { .. } => 0x0004u32,
            SpaceCommand::EmergencyAttitudeRecovery { .. } => 0x0005u32,
            SpaceCommand::AbortMission { .. } => 0x0010u32,
            SpaceCommand::HaltSubsystem { .. } => 0x0011u32,
            SpaceCommand::CollisionAvoidance { .. } => 0x0012u32,
            SpaceCommand::AttitudeControl { .. } => 0x0013u32,
            SpaceCommand::SwitchCommBackup { .. } => 0x0014u32,
            SpaceCommand::ResetSystem { .. } => 0x0015u32,
            SpaceCommand::UpdateOrbit { .. } => 0x0020u32,
            SpaceCommand::ReconfigureComm { .. } => 0x0021u32,
            SpaceCommand::Deploy { .. } => 0x0022u32,
            SpaceCommand::StartDataCollection { .. } => 0x0023u32,
            SpaceCommand::ConfigurePower { .. } => 0x0024u32,
            SpaceCommand::RequestTelemetry { .. } => 0x0030u32,
            SpaceCommand::UpdateConfig { .. } => 0x0031u32,
            SpaceCommand::CalibrateInstrument { .. } => 0x0032u32,
            SpaceCommand::ScheduleOperation { .. } => 0x0033u32,
            SpaceCommand::StoreData { .. } => 0x0034u32,
            SpaceCommand::SendStatus { .. } => 0x0040u32,
            SpaceCommand::UpdateTime { .. } => 0x0041u32,
            SpaceCommand::PerformMaintenance { .. } => 0x0042u32,
            SpaceCommand::LogEvent { .. } => 0x0043u32,
        }
    }

    /// The stable discriminant of the command.
    pub fn discriminant(&self) -> (r: u32)
        ensures
            r == self.spec_discriminant(),
    {
        match self {
            SpaceCommand::EmergencyAbort { .. } => 0x0001,
            SpaceCommand::EmergencyHalt { .. } => 0x0002,
            SpaceCommand::ActivateSafeMode { .. } => 0x0003,
            SpaceCommand::EmergencyPowerDown { .. } => 0x0004,
            SpaceCommand::EmergencyAttitudeRecovery { .. } => 0x0005,
            SpaceCommand::AbortMission { .. } => 0x0010,
            SpaceCommand::HaltSubsystem { .. } => 0x0011,
            SpaceCommand::CollisionAvoidance { .. } => 0x0012,
            SpaceCommand::AttitudeControl { .. } => 0x0013,
            SpaceCommand::SwitchCommBackup { .. } => 0x0014,
            SpaceCommand::ResetSystem { .. } => 0x0015,
            SpaceCommand::UpdateOrbit { .. } => 0x0020,
            SpaceCommand::ReconfigureComm { .. } => 0x0021,
            SpaceCommand::Deploy { .. } => 0x0022,
            SpaceCommand::StartDataCollection { .. } => 0x0023,
            SpaceCommand::ConfigurePower { .. } => 0x0024,
            SpaceCommand::RequestTelemetry { .. } => 0x0030,
            SpaceCommand::UpdateConfig { .. } => 0x0031,
            SpaceCommand::CalibrateInstrument { .. } => 0x0032,
            SpaceCommand::ScheduleOperation { .. } => 0x0033,
            SpaceCommand::StoreData { .. } => 0x0034,
            SpaceCommand::SendStatus { .. } => 0x0040,
            SpaceCommand::UpdateTime { .. } => 0x0041,
            SpaceCommand::PerformMaintenance { .. } => 0x0042,
            SpaceCommand::LogEvent { .. } => 0x0043,
        }
    }

    /// A short description of the command for logging.
    pub fn description(&self) -> (r: &'static str)
        ensures
            r@ == self.spec_description(),
    {
        match self {
            SpaceCommand::EmergencyAbort { .. } => "Emergency abort - terminate all operations",
            SpaceCommand::EmergencyHalt { .. } => "Emergency halt - stop all satellite operations",
            SpaceCommand::ActivateSafeMode { .. } => "Activate safe mode - minimal power configuration",
            SpaceCommand::EmergencyPowerDown { .. } => "Emergency power down non-critical systems",
            SpaceCommand::EmergencyAttitudeRecovery { .. } => "Emergency attitude recovery maneuver",
            SpaceCommand::AbortMission { .. } => "Abort current mission sequence",
            SpaceCommand::HaltSubsystem { .. } => "Halt specific subsystem operation",
            SpaceCommand::CollisionAvoidance { .. } => "Execute collision avoidance maneuver",
            SpaceCommand::AttitudeControl { .. } => "Attitude control command",
            SpaceCommand::SwitchCommBackup { .. } => "Switch to backup communication system",
            SpaceCommand::ResetSystem { .. } => "Reset system component",
            SpaceCommand::UpdateOrbit { .. } => "Update orbital parameters",
            SpaceCommand::ReconfigureComm { .. } => "Reconfigure communication settings",
            SpaceCommand::Deploy { .. } => "Deploy solar panel or antenna",
            SpaceCommand::StartDataCollection { .. } => "Start science data collection",
            SpaceCommand::ConfigurePower { .. } => "Configure power management",
            SpaceCommand::RequestTelemetry { .. } => "Request telemetry data",
            SpaceCommand::UpdateConfig { .. } => "Update software configuration",
            SpaceCommand::CalibrateInstrument { .. } => "Calibrate instrument or sensor",
            SpaceCommand::ScheduleOperation { .. } => "Schedule future operation",
            SpaceCommand::StoreData { .. } => "Store data to onboard memory",
            SpaceCommand::SendStatus { .. } => "Send status report",
            SpaceCommand::UpdateTime { .. } => "Update time synchronization",
            SpaceCommand::PerformMaintenance { .. } => "Perform routine maintenance",
            SpaceCommand::LogEvent { .. } => "Log system event",
        }
    }

    /// The description text of each command.
    pub open spec fn spec_description(self) -> Seq<char> {
        match self {
            SpaceCommand::EmergencyAbort { .. } => "Emergency abort - terminate all operations"@,
            SpaceCommand::EmergencyHalt { .. } => "Emergency halt - stop all satellite operations"@,
            SpaceCommand::ActivateSafeMode { .. } => "Activate safe mode - minimal power configuration"@,
            SpaceCommand::EmergencyPowerDown { .. } => "Emergency power down non-critical systems"@,
            SpaceCommand::EmergencyAttitudeRecovery { .. } => "Emergency attitude recovery maneuver"@,
            SpaceCommand::AbortMission { .. } => "Abort current mission sequence"@,
            SpaceCommand::HaltSubsystem { .. } => "Halt specific subsystem operation"@,
            SpaceCommand::CollisionAvoidance { .. } => "Execute collision avoidance maneuver"@,
            SpaceCommand::AttitudeControl { .. } => "Attitude control command"@,
            SpaceCommand::SwitchCommBackup { .. } => "Switch to backup communication system"@,
            SpaceCommand::ResetSystem { .. } => "Reset system component"@,
            SpaceCommand::UpdateOrbit { .. } => "Update orbital parameters"@,
            SpaceCommand::ReconfigureComm { .. } => "Reconfigure communication settings"@,
            SpaceCommand::Deploy { .. } => "Deploy solar panel or antenna"@,
            SpaceCommand::StartDataCollection { .. } => "Start science data collection"@,
            SpaceCommand::ConfigurePower { .. } => "Configure power management"@,
            SpaceCommand::RequestTelemetry { .. } => "Request telemetry data"@,
            SpaceCommand::UpdateConfig { .. } => "Update software configuration"@,
            SpaceCommand::CalibrateInstrument { .. } => "Calibrate instrument or sensor"@,
            SpaceCommand::ScheduleOperation { .. } => "Schedule future operation"@,
            SpaceCommand::StoreData { .. } => "Store data to onboard memory"@,
            SpaceCommand::SendStatus { .. } => "Send status report"@,
            SpaceCommand::UpdateTime { .. } => "Update time synchronization"@,
            SpaceCommand::PerformMaintenance { .. } => "Perform routine maintenance"@,
            SpaceCommand::LogEvent { .. } => "Log system event"@,
        }
    }
}

impl EmergencyReason {
    /// The wire code of this variant.
    pub open spec fn code(self) -> u8 {
        match self {
            EmergencyReason::SystemFailure => 0u8,
            EmergencyReason::PowerCritical => 1u8,
            EmergencyReason::ThermalEmergency => 2u8,
            EmergencyReason::AttitudeLoss => 3u8,
            EmergencyReason::CommunicationLoss => 4u8,
            EmergencyReason::CollisionImminent => 5u8,
            EmergencyReason::GroundCommand => 6u8,
            EmergencyReason::OnboardFailsafe => 7u8,
        }
    }

    /// The wire code of this variant.
    pub fn code_value(&self) -> (r: u8)
        ensures
            r == self.code(),
    {
        match self {
            EmergencyReason::SystemFailure => 0,
            EmergencyReason::PowerCritical => 1,
            EmergencyReason::ThermalEmergency => 2,
            EmergencyReason::AttitudeLoss => 3,
            EmergencyReason::CommunicationLoss => 4,
            EmergencyReason::CollisionImminent => 5,
            EmergencyReason::GroundCommand => 6,
            EmergencyReason::OnboardFailsafe => 7,
        }
    }
}

impl SafeModeLevel {
    /// The wire code of this variant.
    pub open spec fn code(self) -> u8 {
        match self {
            SafeModeLevel::Level1 => 0u8,
            SafeModeLevel::Level2 => 1u8,
            SafeModeLevel::Level3 => 2u8,
            SafeModeLevel::Level4 => 3u8,
        }
    }

    /// The wire code of this variant.
    pub fn code_value(&self) -> (r: u8)
        ensures
            r == self.code(),
    {
        match self {
            SafeModeLevel::Level1 => 0,
            SafeModeLevel::Level2 => 1,
            SafeModeLevel::Level3 => 2,
            SafeModeLevel::Level4 => 3,
        }
    }
}

impl SubsystemId {
    /// The wire code of this variant.
    pub open spec fn code(self) -> u8 {
        match self {
            SubsystemId::Power => 0u8,
            SubsystemId::Communications => 1u8,
            SubsystemId::AttitudeControl => 2u8,
            SubsystemId::Propulsion => 3u8,
            SubsystemId::ThermalControl => 4u8,
            SubsystemId::PayloadControl => 5u8,
            SubsystemId::OnboardComputer => 6u8,
            SubsystemId::Navigation => 7u8,
            SubsystemId::SolarPanels => 8u8,
            SubsystemId::BatteryManagement => 9u8,
            SubsystemId::Antenna => 10u8,
            SubsystemId::Sensors => 11u8,
            SubsystemId::DataStorage => 12u8,
            SubsystemId::CommandProcessor => 13u8,
            SubsystemId::Telemetry => 14u8,
            SubsystemId::ErrorCorrection => 15u8,
        }
    }

    /// The wire code of this variant.
    pub fn code_value(&self) -> (r: u8)
        ensures
            r == self.code(),
    {
        match self {
            SubsystemId::Power => 0,
            SubsystemId::Communications => 1,
            SubsystemId::AttitudeControl => 2,
            SubsystemId::Propulsion => 3,
            SubsystemId::ThermalControl => 4,
            SubsystemId::PayloadControl => 5,
            SubsystemId::OnboardComputer => 6,
            SubsystemId::Navigation => 7,
            SubsystemId::SolarPanels => 8,
            SubsystemId::BatteryManagement => 9,
            SubsystemId::Antenna => 10,
            SubsystemId::Sensors => 11,
            SubsystemId::DataStorage => 12,
            SubsystemId::CommandProcessor => 13,
            SubsystemId::Telemetry => 14,
            SubsystemId::ErrorCorrection => 15,
        }
    }
}

impl ManeuverType {
    /// The wire code of this variant.
    pub open spec fn code(self) -> u8 {
        match self {
            ManeuverType::OrbitRaise => 0u8,
            ManeuverType::OrbitLower => 1u8,
            ManeuverType::PlaneChange => 2u8,
            ManeuverType::AttitudeAdjust => 3u8,
            ManeuverType::StationKeeping => 4u8,
            ManeuverType::AvoidanceManeuver => 5u8,
            ManeuverType::Deorbit => 6u8,
        }
    }

    /// The wire code of this variant.
    pub fn code_value(&self) -> (r: u8)
        ensures
            r == self.code(),
    {
        match self {
            ManeuverType::OrbitRaise => 0,
            ManeuverType::OrbitLower => 1,
            ManeuverType::PlaneChange => 2,
            ManeuverType::AttitudeAdjust => 3,
            ManeuverType::StationKeeping => 4,
            ManeuverType::AvoidanceManeuver => 5,
            ManeuverType::Deorbit => 6,
        }
    }
}

impl AttitudeMode {
    /// The wire code of this variant.
    pub open spec fn code(self) -> u8 {
        match self {
            AttitudeMode::Inertial => 0u8,
            AttitudeMode::EarthPointing => 1u8,
            AttitudeMode::SunPointing => 2u8,
            AttitudeMode::VelocityPointing => 3u8,
            AttitudeMode::TargetPointing => 4u8,
            AttitudeMode::SpinStabilized => 5u8,
        }
    }

    /// The wire code of this variant.
    pub fn code_value(&self) -> (r: u8)
        ensures
            r == self.code(),
    {
        match self {
            AttitudeMode::Inertial => 0,
            AttitudeMode::EarthPointing => 1,
            AttitudeMode::SunPointing => 2,
            AttitudeMode::VelocityPointing => 3,
            AttitudeMode::TargetPointing => 4,
            AttitudeMode::SpinStabilized => 5,
        }
    }
}

impl ResetType {
    /// The wire code of this variant.
    pub open spec fn code(self) -> u8 {
        match self {
            ResetType::SoftReset => 0u8,
            ResetType::HardReset => 1u8,
            ResetType::WatchdogReset => 2u8,
            ResetType::PowerCycle => 3u8,
            ResetType::FactoryReset => 4u8,
        }
    }

    /// The wire code of this variant.
    pub fn code_value(&self) -> (r: u8)
        ensures
            r == self.code(),
    {
        match self {
            ResetType::SoftReset => 0,
            ResetType::HardReset => 1,
            ResetType::WatchdogReset => 2,
            ResetType::PowerCycle => 3,
            ResetType::FactoryReset => 4,
        }
    }
}

impl ModulationType {
    /// The wire code of this variant.
    pub open spec fn code(self) -> u8 {
        match self {
            ModulationType::BPSK => 0u8,
            ModulationType::QPSK => 1u8,
            ModulationType::PSK8 => 2u8,
            ModulationType::QAM16 => 3u8,
            ModulationType::QAM64 => 4u8,
            ModulationType::OFDM => 5u8,
        }
    }

    /// The wire code of this variant.
    pub fn code_value(&self) -> (r: u8)
        ensures
            r == self.code(),
    {
        match self {
            ModulationType::BPSK => 0,
            ModulationType::QPSK => 1,
            ModulationType::PSK8 => 2,
            ModulationType::QAM16 => 3,
            ModulationType::QAM64 => 4,
            ModulationType::OFDM => 5,
        }
    }
}

impl DeployableType {
    /// The wire code of this variant.
    pub open spec fn code(self) -> u8 {
        match self {
            DeployableType::SolarPanel => 0u8,
            DeployableType::Antenna => 1u8,
            DeployableType::Magnetometer => 2u8,
            DeployableType::Sensor => 3u8,
            DeployableType::CameraLens => 4u8,
            DeployableType::Radiator => 5u8,
        }
    }

    /// The wire code of this variant.
    pub fn code_value(&self) -> (r: u8)
        ensures
            r == self.code(),
    {
        match self {
            DeployableType::SolarPanel => 0,
            DeployableType::Antenna => 1,
            DeployableType::Magnetometer => 2,
            DeployableType::Sensor => 3,
            DeployableType::CameraLens => 4,
            DeployableType::Radiator => 5,
        }
    }
}

impl InstrumentId {
    /// The wire code of this variant.
    pub open spec fn code(self) -> u8 {
        match self {
            InstrumentId::Camera => 0u8,
            InstrumentId::Spectrometer => 1u8,
            InstrumentId::Magnetometer => 2u8,
            InstrumentId::Accelerometer => 3u8,
            InstrumentId::Gyroscope => 4u8,
            InstrumentId::TemperatureSensor => 5u8,
            InstrumentId::PressureSensor => 6u8,
            InstrumentId::RadiationDetector => 7u8,
            InstrumentId::GpsReceiver => 8u8,
            InstrumentId::StarTracker => 9u8,
        }
    }

    /// The wire code of this variant.
    pub fn code_value(&self) -> (r: u8)
        ensures
            r == self.code(),
    {
        match self {
            InstrumentId::Camera => 0,
            InstrumentId::Spectrometer => 1,
            InstrumentId::Magnetometer => 2,
            InstrumentId::Accelerometer => 3,
            InstrumentId::Gyroscope => 4,
            InstrumentId::TemperatureSensor => 5,
            InstrumentId::PressureSensor => 6,
            InstrumentId::RadiationDetector => 7,
            InstrumentId::GpsReceiver => 8,
            InstrumentId::StarTracker => 9,
        }
    }
}

impl BatteryMode {
    /// The wire code of this variant.
    pub open spec fn code(self) -> u8 {
        match self {
            BatteryMode::Charging => 0u8,
            BatteryMode::Discharging => 1u8,
            BatteryMode::Maintenance => 2u8,
            BatteryMode::Emergency => 3u8,
            BatteryMode::Hibernate => 4u8,
        }
    }

    /// The wire code of this variant.
    pub fn code_value(&self) -> (r: u8)
        ensures
            r == self.code(),
    {
        match self {
            BatteryMode::Charging => 0,
            BatteryMode::Discharging => 1,
            BatteryMode::Maintenance => 2,
            BatteryMode::Emergency => 3,
            BatteryMode::Hibernate => 4,
        }
    }
}

impl TelemetryType {
    /// The wire code of this variant.
    pub open spec fn code(self) -> u8 {
        match self {
            TelemetryType::Health => 0u8,
            TelemetryType::Position => 1u8,
            TelemetryType::Attitude => 2u8,
            TelemetryType::Power => 3u8,
            TelemetryType::Thermal => 4u8,
            TelemetryType::Communications => 5u8,
            TelemetryType::Payload => 6u8,
            TelemetryType::Navigation => 7u8,
            TelemetryType::Diagnostics => 8u8,
            TelemetryType::Science => 9u8,
        }
    }

    /// The wire code of this variant.
    pub fn code_value(&self) -> (r: u8)
        ensures
            r == self.code(),
    {
        match self {
            TelemetryType::Health => 0,
            TelemetryType::Position => 1,
            TelemetryType::Attitude => 2,
            TelemetryType::Power => 3,
            TelemetryType::Thermal => 4,
            TelemetryType::Communications => 5,
            TelemetryType::Payload => 6,
            TelemetryType::Navigation => 7,
            TelemetryType::Diagnostics => 8,
            TelemetryType::Science => 9,
        }
    }
}

impl CalibrationType {
    /// The wire code of this variant.
    pub open spec fn code(self) -> u8 {
        match self {
            CalibrationType::Bias => 0u8,
            CalibrationType::Scale => 1u8,
            CalibrationType::Temperature => 2u8,
            CalibrationType::Linearity => 3u8,
            CalibrationType::CrossAxis => 4u8,
            CalibrationType::Full => 5u8,
        }
    }

    /// The wire code of this variant.
    pub fn code_value(&self) -> (r: u8)
        ensures
            r == self.code(),
    {
        match self {
            CalibrationType::Bias => 0,
            CalibrationType::Scale => 1,
            CalibrationType::Temperature => 2,
            CalibrationType::Linearity => 3,
            CalibrationType::CrossAxis => 4,
            CalibrationType::Full => 5,
        }
    }
}

impl DataType {
    /// The wire code of this variant.
    pub open spec fn code(self) -> u8 {
        match self {
            DataType::Telemetry => 0u8,
            DataType::Science => 1u8,
            DataType::Images => 2u8,
            DataType::Logs => 3u8,
            DataType::Configuration => 4u8,
            DataType::Diagnostic => 5u8,
        }
    }

    /// The wire code of this variant.
    pub fn code_value(&self) -> (r: u8)
        ensures
            r == self.code(),
    {
        match self {
            DataType::Telemetry => 0,
            DataType::Science => 1,
            DataType::Images => 2,
            DataType::Logs => 3,
            DataType::Configuration => 4,
            DataType::Diagnostic => 5,
        }
    }
}

impl StorageLocation {
    /// The wire code of this variant.
    pub open spec fn code(self) -> u8 {
        match self {
            StorageLocation::VolatileMemory => 0u8,
            StorageLocation::NonVolatileMemory => 1u8,
            StorageLocation::BackupStorage => 2u8,
            StorageLocation::ExternalStorage => 3u8,
        }
    }

    /// The wire code of this variant.
    pub fn code_value(&self) -> (r: u8)
        ensures
            r == self.code(),
    {
        match self {
            StorageLocation::VolatileMemory => 0,
            StorageLocation::NonVolatileMemory => 1,
            StorageLocation::BackupStorage => 2,
            StorageLocation::ExternalStorage => 3,
        }
    }
}

impl StatusType {
    /// The wire code of this variant.
    pub open spec fn code(self) -> u8 {
        match self {
            StatusType::SystemHealth => 0u8,
            StatusType::MissionStatus => 1u8,
            StatusType::ComponentStatus => 2u8,
            StatusType::PowerStatus => 3u8,
            StatusType::CommunicationStatus => 4u8,
            StatusType::Full => 5u8,
        }
    }

    /// The wire code of this variant.
    pub fn code_value(&self) -> (r: u8)
        ensures
            r == self.code(),
    {
        match self {
            StatusType::SystemHealth => 0,
            StatusType::MissionStatus => 1,
            StatusType::ComponentStatus => 2,
            StatusType::PowerStatus => 3,
            StatusType::CommunicationStatus => 4,
            StatusType::Full => 5,
        }
    }
}

impl ReportFormat {
    /// The wire code of this variant.
    pub open spec fn code(self) -> u8 {
        match self {
            ReportFormat::Binary => 0u8,
            ReportFormat::Json => 1u8,
            ReportFormat::Csv => 2u8,
            ReportFormat::Compressed => 3u8,
        }
    }

    /// The wire code of this variant.
    pub fn code_value(&self) -> (r: u8)
        ensures
            r == self.code(),
    {
        match self {
            ReportFormat::Binary => 0,
            ReportFormat::Json => 1,
            ReportFormat::Csv => 2,
            ReportFormat::Compressed => 3,
        }
    }
}

impl CommandTimeSource {
    /// The wire code of this variant.
    pub open spec fn code(self) -> u8 {
        match self {
            CommandTimeSource::GroundStation => 0u8,
            CommandTimeSource::Gps => 1u8,
            CommandTimeSource::OnboardClock => 2u8,
            CommandTimeSource::NetworkTime => 3u8,
            CommandTimeSource::AtomicClock => 4u8,
        }
    }

    /// The wire code of this variant.
    pub fn code_value(&self) -> (r: u8)
        ensures
            r == self.code(),
    {
        match self {
            CommandTimeSource::GroundStation => 0,
            CommandTimeSource::Gps => 1,
            CommandTimeSource::OnboardClock => 2,
            CommandTimeSource::NetworkTime => 3,
            CommandTimeSource::AtomicClock => 4,
        }
    }
}

impl MaintenanceType {
    /// The wire code of this variant.
    pub open spec fn code(self) -> u8 {
        match self {
            MaintenanceType::SystemCheck => 0u8,
            MaintenanceType::Calibration => 1u8,
            MaintenanceType::SoftwareUpdate => 2u8,
            MaintenanceType::HardwareTest => 3u8,
            MaintenanceType::Performance => 4u8,
            MaintenanceType::Preventive => 5u8,
        }
    }

    /// The wire code of this variant.
    pub fn code_value(&self) -> (r: u8)
        ensures
            r == self.code(),
    {
        match self {
            MaintenanceType::SystemCheck => 0,
            MaintenanceType::Calibration => 1,
            MaintenanceType::SoftwareUpdate => 2,
            MaintenanceType::HardwareTest => 3,
            MaintenanceType::Performance => 4,
            MaintenanceType::Preventive => 5,
        }
    }
}

impl EventType {
    /// The wire code of this variant.
    pub open spec fn code(self) -> u8 {
        match self {
            EventType::SystemStart => 0u8,
            EventType::SystemShutdown => 1u8,
            EventType::Error => 2u8,
            EventType::Warning => 3u8,
            EventType::Information => 4u8,
            EventType::CommandReceived => 5u8,
            EventType::CommandExecuted => 6u8,
            EventType::DataTransmission => 7u8,
            EventType::ModeChange => 8u8,
            EventType::Anomaly => 9u8,
        }
    }

    /// The wire code of this variant.
    pub fn code_value(&self) -> (r: u8)
        ensures
            r == self.code(),
    {
        match self {
            EventType::SystemStart => 0,
            EventType::SystemShutdown => 1,
            EventType::Error => 2,
            EventType::Warning => 3,
            EventType::Information => 4,
            EventType::CommandReceived => 5,
            EventType::CommandExecuted => 6,
            EventType::DataTransmission => 7,
            EventType::ModeChange => 8,
            EventType::Anomaly => 9,
        }
    }
}

impl EventSeverity {
    /// The wire code of this variant.
    pub open spec fn code(self) -> u8 {
        match self {
            EventSeverity::Critical => 0u8,
            EventSeverity::High => 1u8,
            EventSeverity::Medium => 2u8,
            EventSeverity::Low => 3u8,
            EventSeverity::Info => 4u8,
        }
    }

    /// The wire code of this variant.
    pub fn code_value(&self) -> (r: u8)
        ensures
            r == self.code(),
    {
        match self {
            EventSeverity::Critical => 0,
            EventSeverity::High => 1,
            EventSeverity::Medium => 2,
            EventSeverity::Low => 3,
            EventSeverity::Info => 4,
        }
    }
}

/// The band preferred by each priority tier, before failover or
/// emergency overrides.
pub open spec fn band_for_priority(p: MessagePriority) -> BandType {
    match p {
        MessagePriority::Emergency => BandType::KBand,
        MessagePriority::Critical => BandType::XBand,
        MessagePriority::High => BandType::SBand,
        MessagePriority::Medium => BandType::SBand,
        MessagePriority::Low => BandType::UhfBand,
    }
}

/// Every command has a priority and a discriminant, and the discriminant
/// lies in the range its priority tier owns: 0x0001 to 0x000F for
/// Emergency, 0x0010 to 0x001F for Critical, 0x0020 to 0x002F for High,
/// 0x0030 to 0x003F for Medium, and 0x0040 to 0x004F for Low.
pub proof fn lemma_discriminant_in_priority_range(cmd: SpaceCommand)
    ensures
        cmd.spec_priority() is Emergency ==> 0x0001 <= cmd.spec_discriminant() <= 0x000F,
        cmd.spec_priority() is Critical ==> 0x0010 <= cmd.spec_discriminant() <= 0x001F,
        cmd.spec_priority() is High ==> 0x0020 <= cmd.spec_discriminant() <= 0x002F,
        cmd.spec_priority() is Medium ==> 0x0030 <= cmd.spec_discriminant() <= 0x003F,
        cmd.spec_priority() is Low ==> 0x0040 <= cmd.spec_discriminant() <= 0x004F,
{
}

/// One byte for a boolean: 1 for true, 0 for false.
pub open spec fn bool_byte(b: bool) -> Seq<u8> {
    if b {
        seq![1u8]
    } else {
        seq![0u8]
    }
}

/// An optional 32-bit value: a presence byte, then the value if present.
pub open spec fn opt4_bytes(o: Option<u32>) -> Seq<u8> {
    match o {
        Some(x) => seq![1u8] + be4(x),
        None => seq![0u8],
    }
}

/// The wire codes of a sequence of subsystems.
pub open spec fn subsystem_codes(s: Seq<SubsystemId>) -> Seq<u8> {
    s.map_values(|x: SubsystemId| x.code())
}

/// A subsystem list: a two-byte count, then one code per subsystem.
pub open spec fn subsystems_bytes(s: Seq<SubsystemId>) -> Seq<u8> {
    be2(s.len() as u16) + subsystem_codes(s)
}

/// Four-byte values laid out in order.
pub open spec fn u32s_bytes(s: Seq<u32>) -> Seq<u8>
    decreases s.len(),
{
    if s.len() == 0 {
        Seq::empty()
    } else {
        u32s_bytes(s.drop_last()) + be4(s.last())
    }
}

/// A list of 32-bit values: a two-byte count, then the values.
pub open spec fn u32_list_bytes(s: Seq<u32>) -> Seq<u8> {
    be2(s.len() as u16) + u32s_bytes(s)
}

/// A byte blob: a two-byte length, then the bytes.
pub open spec fn blob_bytes(s: Seq<u8>) -> Seq<u8> {
    be2(s.len() as u16) + s
}

/// Append one boolean byte.
fn push_bool(v: &mut Vec<u8>, b: bool)
    ensures
        final(v)@ =~= old(v)@ + bool_byte(b),
{
    v.push(if b { 1 } else { 0 });
}

/// Append an optional 32-bit value.
fn push_opt4(v: &mut Vec<u8>, o: &Option<u32>)
    ensures
        final(v)@ =~= old(v)@ + opt4_bytes(*o),
{
    match o {
        Some(x) => {
            v.push(1);
            push_u32_be(v, *x);
        },
        None => {
            v.push(0);
        },
    }
}

/// Append a subsystem list.
fn push_subsystems(v: &mut Vec<u8>, subs: &Vec<SubsystemId>)
    requires
        subs@.len() <= 0xFFFF,
    ensures
        final(v)@ =~= old(v)@ + subsystems_bytes(subs@),
{
    push_u16_be(v, subs.len() as u16);
    let ghost base = v@;
    let mut i: usize = 0;
    while i < subs.len()
        invariant
            i <= subs@.len(),
            v@ =~= base + subsystem_codes(subs@.subrange(0, i as int)),
        decreases subs@.len() - i,
    {
        v.push(subs[i].code_value());
        assert(subsystem_codes(subs@.subrange(0, i + 1)) =~= subsystem_codes(
            subs@.subrange(0, i as int)).push(subs@[i as int].code()));
        i = i + 1;
    }
    assert(subs@.subrange(0, subs@.len() as int) =~= subs@);
}

/// Append a list of 32-bit values.
fn push_u32_list(v: &mut Vec<u8>, xs: &Vec<u32>)
    requires
        xs@.len() <= 0xFFFF,
    ensures
        final(v)@ =~= old(v)@ + u32_list_bytes(xs@),
{
    push_u16_be(v, xs.len() as u16);
    let ghost base = v@;
    let mut i: usize = 0;
    while i < xs.len()
        invariant
            i <= xs@.len(),
            v@ =~= base + u32s_bytes(xs@.subrange(0, i as int)),
        decreases xs@.len() - i,
    {
        push_u32_be(v, xs[i]);
        assert(xs@.subrange(0, i + 1).drop_last() =~= xs@.subrange(0, i as int));
        i = i + 1;
    }
    assert(xs@.subrange(0, xs@.len() as int) =~= xs@);
}

/// Append a byte blob with its length prefix.
fn push_blob(v: &mut Vec<u8>, b: &Vec<u8>)
    requires
        b@.len() <= 0xFFFF,
    ensures
        final(v)@ =~= old(v)@ + blob_bytes(b@),
{
    push_u16_be(v, b.len() as u16);
    let ghost base = v@;
    let mut i: usize = 0;
    while i < b.len()
        invariant
            i <= b@.len(),
            v@ =~= base + b@.subrange(0, i as int),
        decreases b@.len() - i,
    {
        v.push(b[i]);
        assert(b@.subrange(0, i + 1).drop_last() =~= b@.subrange(0, i as int));
        i = i + 1;
    }
    assert(b@.subrange(0, b@.len() as int) =~= b@);
}

impl SpaceCommand {
    /// Whether every field of the command, and of any command it
    /// schedules, respects its bound: list lengths within their maxima
    /// and percentages at most 100.
    pub open spec fn spec_fields_in_range(self) -> bool
        decreases self,
    {
        match self {
            SpaceCommand::EmergencyHalt { subsystems, .. } => subsystems@.len()
                <= MAX_SUBSYSTEMS,
            SpaceCommand::EmergencyPowerDown { systems_to_preserve, battery_threshold_percent } =>
                systems_to_preserve@.len() <= MAX_SUBSYSTEMS && battery_threshold_percent <= 100,
            SpaceCommand::AbortMission { abort_reason, .. } => abort_reason@.len()
                <= MAX_COMMAND_TEXT,
            SpaceCommand::SwitchCommBackup { primary_failure, power_level_percent, .. } =>
                primary_failure@.len() <= MAX_COMMAND_TEXT && power_level_percent <= 100,
            SpaceCommand::ReconfigureComm { power_level, .. } => power_level <= 100,
            SpaceCommand::StartDataCollection { collection_mode, .. } => collection_mode@.len()
                <= 32,
            SpaceCommand::ConfigurePower { load_shedding_priority, .. } =>
                load_shedding_priority@.len() <= MAX_SUBSYSTEMS,
            SpaceCommand::UpdateConfig { config_id, parameters, .. } => config_id@.len() <= 32
                && parameters@.len() <= MAX_CONFIG_BYTES,
            SpaceCommand::CalibrateInstrument { reference_values, .. } => reference_values@.len()
                <= MAX_REFERENCE_VALUES,
            SpaceCommand::ScheduleOperation { command, .. } => command.spec_fields_in_range(),
            SpaceCommand::LogEvent { description, associated_data, .. } => description@.len()
                <= MAX_COMMAND_TEXT && associated_data@.len() <= MAX_EVENT_BYTES,
            _ => true,
        }
    }

    /// Whether every field of the command respects its bound.
    pub fn fields_in_range(&self) -> (r: bool)
        ensures
            r == self.spec_fields_in_range(),
        decreases *self,
    {
        match self {
            SpaceCommand::EmergencyHalt { subsystems, .. } => subsystems.len() <= MAX_SUBSYSTEMS,
            SpaceCommand::EmergencyPowerDown { systems_to_preserve, battery_threshold_percent } =>
                systems_to_preserve.len() <= MAX_SUBSYSTEMS && *battery_threshold_percent <= 100,
            SpaceCommand::AbortMission { abort_reason, .. } => abort_reason.len()
                <= MAX_COMMAND_TEXT,
            SpaceCommand::SwitchCommBackup { primary_failure, power_level_percent, .. } =>
                primary_failure.len() <= MAX_COMMAND_TEXT && *power_level_percent <= 100,
            SpaceCommand::ReconfigureComm { power_level, .. } => *power_level <= 100,
            SpaceCommand::StartDataCollection { collection_mode, .. } => collection_mode.len()
                <= 32,
            SpaceCommand::ConfigurePower { load_shedding_priority, .. } =>
                load_shedding_priority.len() <= MAX_SUBSYSTEMS,
            SpaceCommand::UpdateConfig { config_id, parameters, .. } => config_id.len() <= 32
                && parameters.len() <= MAX_CONFIG_BYTES,
            SpaceCommand::CalibrateInstrument { reference_values, .. } => reference_values.len()
                <= MAX_REFERENCE_VALUES,
            SpaceCommand::ScheduleOperation { command, .. } => command.fields_in_range(),
            SpaceCommand::LogEvent { description, associated_data, .. } => description.len()
                <= MAX_COMMAND_TEXT && associated_data.len() <= MAX_EVENT_BYTES,
            _ => true,
        }
    }

    /// The parameter bytes of the command: fixed-width fields big-endian,
    /// lists and blobs with a two-byte count, enums as one code byte, and
    /// a scheduled command as its discriminant followed by its own
    /// parameter bytes.
    pub open spec fn params_bytes(self) -> Seq<u8>
        decreases self,
    {
        match self {
            SpaceCommand::EmergencyAbort { reason, confirmation_code } => seq![reason.code()]
                + be4(confirmation_code),
            SpaceCommand::EmergencyHalt { subsystems, override_code } => subsystems_bytes(
                subsystems@) + be8(override_code),
            SpaceCommand::ActivateSafeMode { safe_mode_level, duration_seconds } => seq![
                safe_mode_level.code(),
            ] + opt4_bytes(duration_seconds),
            SpaceCommand::EmergencyPowerDown { systems_to_preserve, battery_threshold_percent } =>
                subsystems_bytes(systems_to_preserve@) + seq![battery_threshold_percent],
            SpaceCommand::EmergencyAttitudeRecovery { target_attitude, max_angular_velocity } =>
                be4(target_attitude@[0]) + be4(target_attitude@[1]) + be4(target_attitude@[2])
                + be4(target_attitude@[3]) + be4(max_angular_velocity),
            SpaceCommand::AbortMission { mission_id, abort_reason, preserve_data } => be4(
                mission_id) + blob_bytes(abort_reason@) + bool_byte(preserve_data),
            SpaceCommand::HaltSubsystem { subsystem, graceful_shutdown, timeout_seconds } => seq![
                subsystem.code(),
            ] + bool_byte(graceful_shutdown) + be4(timeout_seconds),
            SpaceCommand::CollisionAvoidance {
                debris_id,
                maneuver_type,
                delta_v,
                execution_time,
            } => be8(debris_id) + seq![maneuver_type.code()] + be4(delta_v@[0]) + be4(delta_v@[1])
                + be4(delta_v@[2]) + be8(execution_time),
            SpaceCommand::AttitudeControl {
                target_quaternion,
                angular_rates,
                control_mode,
                deadline_ms,
            } => be4(target_quaternion@[0]) + be4(target_quaternion@[1]) + be4(
                target_quaternion@[2]) + be4(target_quaternion@[3]) + be4(angular_rates@[0])
                + be4(angular_rates@[1]) + be4(angular_rates@[2]) + seq![control_mode.code()]
                + be4(deadline_ms),
            SpaceCommand::SwitchCommBackup { primary_failure, backup_band, power_level_percent } =>
                blob_bytes(primary_failure@) + seq![backup_band.code(), power_level_percent],
            SpaceCommand::ResetSystem { component, reset_type, preserve_config } => be2(
                component.0) + seq![reset_type.code()] + bool_byte(preserve_config),
            SpaceCommand::UpdateOrbit {
                semi_major_axis,
                eccentricity,
                inclination,
                raan,
                arg_periapsis,
                true_anomaly,
            } => be8(semi_major_axis) + be8(eccentricity) + be8(inclination) + be8(raan) + be8(
                arg_periapsis) + be8(true_anomaly),
            SpaceCommand::ReconfigureComm {
                band,
                frequency_hz,
                power_level,
                modulation,
                error_correction,
            } => seq![band.code()] + be8(frequency_hz) + seq![power_level, modulation.code()]
                + bool_byte(error_correction),
            SpaceCommand::Deploy { deployable, deployment_angle, deployment_rate, force_limit } =>
                seq![deployable.code()] + be4(deployment_angle) + be4(deployment_rate) + be4(
                force_limit),
            SpaceCommand::StartDataCollection {
                instrument,
                collection_mode,
                duration_seconds,
                data_rate_mbps,
            } => seq![instrument.code()] + blob_bytes(collection_mode@) + be4(duration_seconds)
                + be4(data_rate_mbps),
            SpaceCommand::ConfigurePower {
                solar_panel_orientation,
                battery_mode,
                power_budget_watts,
                load_shedding_priority,
            } => be4(solar_panel_orientation@[0]) + be4(solar_panel_orientation@[1]) + be4(
                solar_panel_orientation@[2]) + seq![battery_mode.code()] + be4(power_budget_watts)
                + subsystems_bytes(load_shedding_priority@),
            SpaceCommand::RequestTelemetry {
                telemetry_type,
                sampling_rate_hz,
                duration_seconds,
                compression,
            } => seq![telemetry_type.code()] + be4(sampling_rate_hz) + be4(duration_seconds)
                + bool_byte(compression),
            SpaceCommand::UpdateConfig {
                config_id,
                parameters,
                apply_immediately,
                backup_current,
            } => blob_bytes(config_id@) + blob_bytes(parameters@) + bool_byte(apply_immediately)
                + bool_byte(backup_current),
            SpaceCommand::CalibrateInstrument {
                instrument,
                calibration_type,
                reference_values,
                temperature_compensation,
            } => seq![instrument.code(), calibration_type.code()] + u32_list_bytes(
                reference_values@) + bool_byte(temperature_compensation),
            SpaceCommand::ScheduleOperation {
                operation_id,
                scheduled_time,
                command,
                repeat_interval,
            } => be8(operation_id) + be8(scheduled_time) + be4(command.spec_discriminant())
                + command.params_bytes() + opt4_bytes(repeat_interval),
            SpaceCommand::StoreData {
                data_type,
                storage_location,
                compression_level,
                encryption,
            } => seq![data_type.code(), storage_location.code(), compression_level] + bool_byte(
                encryption),
            SpaceCommand::SendStatus { status_type, include_diagnostics, format } => seq![
                status_type.code(),
            ] + bool_byte(include_diagnostics) + seq![format.code()],
            SpaceCommand::UpdateTime { utc_time, time_source, precision_microseconds } => be8(
                utc_time) + seq![time_source.code()] + be4(precision_microseconds),
            SpaceCommand::PerformMaintenance {
                maintenance_type,
                automated,
                estimated_duration,
            } => seq![maintenance_type.code()] + bool_byte(automated) + be4(estimated_duration),
            SpaceCommand::LogEvent { event_type, severity, description, associated_data } => seq![
                event_type.code(),
                severity.code(),
            ] + blob_bytes(description@) + blob_bytes(associated_data@),
        }
    }

    /// Serialize the command parameters into bytes, as `params_bytes`
    /// lays them out.
    pub fn encode_params(&self) -> (r: Vec<u8>)
        requires
            self.spec_fields_in_range(),
        ensures
            r@ =~= self.params_bytes(),
        decreases *self,
    {
        let mut v: Vec<u8> = Vec::new();
        match self {
            SpaceCommand::EmergencyAbort { reason, confirmation_code } => {
                v.push(reason.code_value());
                push_u32_be(&mut v, *confirmation_code);
            },
            SpaceCommand::EmergencyHalt { subsystems, override_code } => {
                push_subsystems(&mut v, subsystems);
                push_u64_be(&mut v, *override_code);
            },
            SpaceCommand::ActivateSafeMode { safe_mode_level, duration_seconds } => {
                v.push(safe_mode_level.code_value());
                push_opt4(&mut v, duration_seconds);
            },
            SpaceCommand::EmergencyPowerDown {
                systems_to_preserve,
                battery_threshold_percent,
            } => {
                push_subsystems(&mut v, systems_to_preserve);
                v.push(*battery_threshold_percent);
            },
            SpaceCommand::EmergencyAttitudeRecovery { target_attitude, max_angular_velocity } => {
                push_u32_be(&mut v, target_attitude[0]);
                push_u32_be(&mut v, target_attitude[1]);
                push_u32_be(&mut v, target_attitude[2]);
                push_u32_be(&mut v, target_attitude[3]);
                push_u32_be(&mut v, *max_angular_velocity);
            },
            SpaceCommand::AbortMission { mission_id, abort_reason, preserve_data } => {
                push_u32_be(&mut v, *mission_id);
                push_blob(&mut v, abort_reason);
                push_bool(&mut v, *preserve_data);
            },
            SpaceCommand::HaltSubsystem { subsystem, graceful_shutdown, timeout_seconds } => {
                v.push(subsystem.code_value());
                push_bool(&mut v, *graceful_shutdown);
                push_u32_be(&mut v, *timeout_seconds);
            },
            SpaceCommand::CollisionAvoidance {
                debris_id,
                maneuver_type,
                delta_v,
                execution_time,
            } => {
                push_u64_be(&mut v, *debris_id);
                v.push(maneuver_type.code_value());
                push_u32_be(&mut v, delta_v[0]);
                push_u32_be(&mut v, delta_v[1]);
                push_u32_be(&mut v, delta_v[2]);
                push_u64_be(&mut v, *execution_time);
            },
            SpaceCommand::AttitudeControl {
                target_quaternion,
                angular_rates,
                control_mode,
                deadline_ms,
            } => {
                push_u32_be(&mut v, target_quaternion[0]);
                push_u32_be(&mut v, target_quaternion[1]);
                push_u32_be(&mut v, target_quaternion[2]);
                push_u32_be(&mut v, target_quaternion[3]);
                push_u32_be(&mut v, angular_rates[0]);
                push_u32_be(&mut v, angular_rates[1]);
                push_u32_be(&mut v, angular_rates[2]);
                v.push(control_mode.code_value());
                push_u32_be(&mut v, *deadline_ms);
            },
            SpaceCommand::SwitchCommBackup {
                primary_failure,
                backup_band,
                power_level_percent,
            } => {
                push_blob(&mut v, primary_failure);
                v.push(backup_band.code_value());
                v.push(*power_level_percent);
            },
            SpaceCommand::ResetSystem { component, reset_type, preserve_config } => {
                push_u16_be(&mut v, component.value());
                v.push(reset_type.code_value());
                push_bool(&mut v, *preserve_config);
            },
            SpaceCommand::UpdateOrbit {
                semi_major_axis,
                eccentricity,
                inclination,
                raan,
                arg_periapsis,
                true_anomaly,
            } => {
                push_u64_be(&mut v, *semi_major_axis);
                push_u64_be(&mut v, *eccentricity);
                push_u64_be(&mut v, *inclination);
                push_u64_be(&mut v, *raan);
                push_u64_be(&mut v, *arg_periapsis);
                push_u64_be(&mut v, *true_anomaly);
            },
            SpaceCommand::ReconfigureComm {
                band,
                frequency_hz,
                power_level,
                modulation,
                error_correction,
            } => {
                v.push(band.code_value());
                push_u64_be(&mut v, *frequency_hz);
                v.push(*power_level);
                v.push(modulation.code_value());
                push_bool(&mut v, *error_correction);
            },
            SpaceCommand::Deploy {
                deployable,
                deployment_angle,
                deployment_rate,
                force_limit,
            } => {
                v.push(deployable.code_value());
                push_u32_be(&mut v, *deployment_angle);
                push_u32_be(&mut v, *deployment_rate);
                push_u32_be(&mut v, *force_limit);
            },
            SpaceCommand::StartDataCollection {
                instrument,
                collection_mode,
                duration_seconds,
                data_rate_mbps,
            } => {
                v.push(instrument.code_value());
                push_blob(&mut v, collection_mode);
                push_u32_be(&mut v, *duration_seconds);
                push_u32_be(&mut v, *data_rate_mbps);
            },
            SpaceCommand::ConfigurePower {
                solar_panel_orientation,
                battery_mode,
                power_budget_watts,
                load_shedding_priority,
            } => {
                push_u32_be(&mut v, solar_panel_orientation[0]);
                push_u32_be(&mut v, solar_panel_orientation[1]);
                push_u32_be(&mut v, solar_panel_orientation[2]);
                v.push(battery_mode.code_value());
                push_u32_be(&mut v, *power_budget_watts);
                push_subsystems(&mut v, load_shedding_priority);
            },
            SpaceCommand::RequestTelemetry {
                telemetry_type,
                sampling_rate_hz,
                duration_seconds,
                compression,
            } => {
                v.push(telemetry_type.code_value());
                push_u32_be(&mut v, *sampling_rate_hz);
                push_u32_be(&mut v, *duration_seconds);
                push_bool(&mut v, *compression);
            },
            SpaceCommand::UpdateConfig {
                config_id,
                parameters,
                apply_immediately,
                backup_current,
            } => {
                push_blob(&mut v, config_id);
                push_blob(&mut v, parameters);
                push_bool(&mut v, *apply_immediately);
                push_bool(&mut v, *backup_current);
            },
            SpaceCommand::CalibrateInstrument {
                instrument,
                calibration_type,
                reference_values,
                temperature_compensation,
            } => {
                v.push(instrument.code_value());
                v.push(calibration_type.code_value());
                push_u32_list(&mut v, reference_values);
                push_bool(&mut v, *temperature_compensation);
            },
            SpaceCommand::ScheduleOperation {
                operation_id,
                scheduled_time,
                command,
                repeat_interval,
            } => {
                push_u64_be(&mut v, *operation_id);
                push_u64_be(&mut v, *scheduled_time);
                push_u32_be(&mut v, command.discriminant());
                let mut inner = command.encode_params();
                v.append(&mut inner);
                push_opt4(&mut v, repeat_interval);
            },
            SpaceCommand::StoreData {
                data_type,
                storage_location,
                compression_level,
                encryption,
            } => {
                v.push(data_type.code_value());
                v.push(storage_location.code_value());
                v.push(*compression_level);
                push_bool(&mut v, *encryption);
            },
            SpaceCommand::SendStatus { status_type, include_diagnostics, format } => {
                v.push(status_type.code_value());
                push_bool(&mut v, *include_diagnostics);
                v.push(format.code_value());
            },
            SpaceCommand::UpdateTime { utc_time, time_source, precision_microseconds } => {
                push_u64_be(&mut v, *utc_time);
                v.push(time_source.code_value());
                push_u32_be(&mut v, *precision_microseconds);
            },
            SpaceCommand::PerformMaintenance {
                maintenance_type,
                automated,
                estimated_duration,
            } => {
                v.push(maintenance_type.code_value());
                push_bool(&mut v, *automated);
                push_u32_be(&mut v, *estimated_duration);
            },
            SpaceCommand::LogEvent { event_type, severity, description, associated_data } => {
                v.push(event_type.code_value());
                v.push(severity.code_value());
                push_blob(&mut v, description);
                push_blob(&mut v, associated_data);
            },
        }
        v
    }
}

/// Builds a command message with validated routing and formatting.
pub struct CommandBuilder {
    /// The command to send, once one is chosen.
    command: Option<SpaceCommand>,
    /// Originator of the command.
    source: ComponentId,
    /// Target of the command.
    destination: ComponentId,
}

impl CommandBuilder {
    /// The command held by the builder.
    pub closed spec fn spec_command(self) -> Option<SpaceCommand> {
        self.command
    }

    /// The source held by the builder.
    pub closed spec fn spec_source(self) -> ComponentId {
        self.source
    }

    /// The destination held by the builder.
    pub closed spec fn spec_destination(self) -> ComponentId {
        self.destination
    }

    /// Create a builder that routes from `source` to `destination`.
    pub fn new(source: ComponentId, destination: ComponentId) -> (r: Self)
        ensures
            r.spec_command() is None,
            r.spec_source() == source,
            r.spec_destination() == destination,
    {
        Self { command: None, source, destination }
    }

    /// Choose an emergency abort command.
    pub fn emergency_abort(self, reason: EmergencyReason, confirmation_code: u32) -> (r: Self)
        ensures
            r.spec_command() == Some(SpaceCommand::EmergencyAbort { reason, confirmation_code }),
            r.spec_source() == self.spec_source(),
            r.spec_destination() == self.spec_destination(),
    {
        Self {
            command: Some(SpaceCommand::EmergencyAbort { reason, confirmation_code }),
            source: self.source,
            destination: self.destination,
        }
    }

    /// Choose a collision avoidance command. Delta-v components are
    /// single-precision bit patterns.
    pub fn collision_avoidance(
        self,
        debris_id: u64,
        maneuver_type: ManeuverType,
        delta_v: [u32; 3],
        execution_time: u64,
    ) -> (r: Self)
        ensures
            r.spec_command() == Some(SpaceCommand::CollisionAvoidance {
                debris_id,
                maneuver_type,
                delta_v,
                execution_time,
            }),
            r.spec_source() == self.spec_source(),
            r.spec_destination() == self.spec_destination(),
    {
        Self {
            command: Some(SpaceCommand::CollisionAvoidance {
                debris_id,
                maneuver_type,
                delta_v,
                execution_time,
            }),
            source: self.source,
            destination: self.destination,
        }
    }

    /// Choose an attitude control command. Quaternion components and
    /// angular rates are single-precision bit patterns.
    pub fn attitude_control(
        self,
        target_quaternion: [u32; 4],
        angular_rates: [u32; 3],
        control_mode: AttitudeMode,
        deadline_ms: u32,
    ) -> (r: Self)
        ensures
            r.spec_command() == Some(SpaceCommand::AttitudeControl {
                target_quaternion,
                angular_rates,
                control_mode,
                deadline_ms,
            }),
            r.spec_source() == self.spec_source(),
            r.spec_destination() == self.spec_destination(),
    {
        Self {
            command: Some(SpaceCommand::AttitudeControl {
                target_quaternion,
                angular_rates,
                control_mode,
                deadline_ms,
            }),
            source: self.source,
            destination: self.destination,
        }
    }

    /// Choose any command.
    pub fn with_command(self, command: SpaceCommand) -> (r: Self)
        ensures
            r.spec_command() == Some(command),
            r.spec_source() == self.spec_source(),
            r.spec_destination() == self.spec_destination(),
    {
        Self { command: Some(command), source: self.source, destination: self.destination }
    }

    /// Whether a message can be built: a command was chosen, its fields
    /// are in range, and its serialized parameters fit the payload bound.
    pub open spec fn spec_buildable(self) -> bool {
        &&& self.spec_command() is Some
        &&& self.spec_command()->0.spec_fields_in_range()
        &&& self.spec_command()->0.params_bytes().len() <= COMMAND_PARAMS_MAX
    }

    /// Build the message at clock reading `now_ns`: priority, preferred
    /// band, TTL and retry budget follow the command tables; the payload
    /// carries the discriminant and the serialized parameters; the
    /// message id and timestamp are taken from the reading. Fails
    /// exactly when no command was chosen, a field violates its range,
    /// or the serialized parameters overflow the payload bound.
    pub fn build_at(self, now_ns: u64) -> (r: Result<Message, SpaceCommError>)
        ensures
            r is Ok <==> self.spec_buildable(),
            r matches Ok(m) ==> {
                let cmd = self.spec_command()->0;
                let priority = cmd.spec_priority();
                &&& m.id == MessageId(now_ns)
                &&& m.priority == priority
                &&& m.source == self.spec_source()
                &&& m.destination == self.spec_destination()
                &&& m.timestamp == now_ns
                &&& m.payload matches MessagePayload::Command { command_id, parameters }
                    && command_id == cmd.spec_discriminant() && parameters@
                    == cmd.params_bytes()
                &&& m.preferred_band == band_for_priority(priority)
                &&& m.ttl_seconds == priority.spec_max_latency_ms() / 1000 + 1
                &&& m.retry_count == 0
                &&& m.max_retries == if priority.spec_is_real_time() { 3u8 } else { 1u8 }
                &&& m.well_formed()
            },
            self.spec_command() is None ==> r == Err::<Message, SpaceCommError>(
                SpaceCommError::ConfigurationError {
                    parameter: "command",
                    value: "none",
                    reason: "No command specified in builder",
                },
            ),
    {
        let cmd = match self.command {
            Some(c) => c,
            None => {
                return Err(SpaceCommError::configuration_error(
                    "command",
                    "none",
                    "No command specified in builder",
                ));
            },
        };
        if !cmd.fields_in_range() {
            return Err(SpaceCommError::configuration_error(
                "command",
                "parameters",
                "A command field violates its range",
            ));
        }
        let parameters = cmd.encode_params();
        if parameters.len() > COMMAND_PARAMS_MAX {
            return Err(SpaceCommError::configuration_error(
                "command",
                "parameters",
                "Serialized command exceeds parameter bound",
            ));
        }
        let priority = cmd.priority();
        let preferred_band = cmd.preferred_band();
        let ttl_seconds: u32 = priority.max_latency_ms() / 1000 + 1;
        let max_retries: u8 = if priority.is_real_time() { 3 } else { 1 };
        Ok(Message {
            id: MessageId::new(now_ns),
            priority,
            source: self.source,
            destination: self.destination,
            timestamp: now_ns,
            payload: MessagePayload::Command {
                command_id: cmd.discriminant(),
                parameters,
            },
            preferred_band,
            ttl_seconds,
            retry_count: 0,
            max_retries,
        })
    }

    /// Build the message against the current wall clock. Only the
    /// message id and timestamp depend on the clock reading; every
    /// other field is pinned as in `build_at`.
    pub fn build(self) -> (r: Result<Message, SpaceCommError>)
        ensures
            r is Ok <==> self.spec_buildable(),
            r matches Ok(m) ==> {
                let cmd = self.spec_command()->0;
                let priority = cmd.spec_priority();
                &&& m.well_formed()
                &&& m.priority == priority
                &&& m.source == self.spec_source()
                &&& m.destination == self.spec_destination()
                &&& m.payload matches MessagePayload::Command { command_id, parameters }
                    && command_id == cmd.spec_discriminant() && parameters@
                    == cmd.params_bytes()
                &&& m.preferred_band == band_for_priority(priority)
                &&& m.ttl_seconds == priority.spec_max_latency_ms() / 1000 + 1
                &&& m.retry_count == 0
                &&& m.max_retries == if priority.spec_is_real_time() { 3u8 } else { 1u8 }
            },
            self.spec_command() is None ==> r == Err::<Message, SpaceCommError>(
                SpaceCommError::ConfigurationError {
                    parameter: "command",
                    value: "none",
                    reason: "No command specified in builder",
                },
            ),
    {
        let now: u64 = crate::time::current_time_nanos();
        self.build_at(now)
    }
}

} // verus!
