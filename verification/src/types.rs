//! Common identifier and status types shared by every layer of the stack.

use vstd::prelude::*;

verus! {

/// Type-safe wrapper around a packet identifier.
#[derive(Debug, Clone, Copy, PartialEq, Eq, Hash, Structural)]
pub struct PacketId(pub u32);

impl PacketId {
    /// Create a new packet ID.
    pub fn new(id: u32) -> (r: Self)
        ensures
            r.0 == id,
    {
        Self(id)
    }

    /// Get the raw ID value.
    pub fn value(&self) -> (r: u32)
        ensures
            r == self.0,
    {
        self.0
    }
}

/// Type-safe wrapper around a message identifier.
#[derive(Debug, Clone, Copy, PartialEq, Eq, Hash, Structural)]
pub struct MessageId(pub u64);

impl MessageId {
    /// Create a new message ID.
    pub fn new(id: u64) -> (r: Self)
        ensures
            r.0 == id,
    {
        Self(id)
    }

    /// Get the raw ID value.
    pub fn value(&self) -> (r: u64)
        ensures
            r == self.0,
    {
        self.0
    }
}

/// Type-safe wrapper around a system component identifier.
#[derive(Debug, Clone, Copy, PartialEq, Eq, Hash, Structural)]
pub struct ComponentId(pub u16);

impl ComponentId {
    /// Create a new component ID.
    pub fn new(id: u16) -> (r: Self)
        ensures
            r.0 == id,
    {
        Self(id)
    }

    /// Get the raw ID value.
    pub fn value(&self) -> (r: u16)
        ensures
            r == self.0,
    {
        self.0
    }
}

/// Communication frequency bands used in satellite links.
#[derive(Debug, Clone, Copy, PartialEq, Eq, Hash, Structural)]
pub enum BandType {
    /// UHF band: emergency communication and backup systems.
    UhfBand,
    /// S band: telemetry, tracking, and command.
    SBand,
    /// X band: medium-speed data transmission.
    XBand,
    /// K band: high-speed data transmission.
    KBand,
    /// Ka band: ultra-high bandwidth Earth and relay links.
    KaBand,
}

impl BandType {
    /// The frequency range of this band in Hz.
    pub fn frequency_range(&self) -> (r: (u64, u64))
        ensures
            r == self.spec_frequency_range(),
    {
        match self {
            BandType::UhfBand => (300_000_000, 3_000_000_000),
            BandType::SBand => (2_000_000_000, 4_000_000_000),
            BandType::XBand => (8_000_000_000, 12_000_000_000),
            BandType::KBand => (20_000_000_000, 30_000_000_000),
            BandType::KaBand => (26_500_000_000, 40_000_000_000),
        }
    }

    /// The frequency range of this band in Hz.
    pub open spec fn spec_frequency_range(self) -> (u64, u64) {
        match self {
            BandType::UhfBand => (300_000_000, 3_000_000_000),
            BandType::SBand => (2_000_000_000, 4_000_000_000),
            BandType::XBand => (8_000_000_000, 12_000_000_000),
            BandType::KBand => (20_000_000_000, 30_000_000_000),
            BandType::KaBand => (26_500_000_000, 40_000_000_000),
        }
    }

    /// Typical data rate range of this band in bits per second.
    pub fn typical_data_rate_range(&self) -> (r: (u64, u64))
        ensures
            r == self.spec_typical_data_rate_range(),
    {
        match self {
            BandType::UhfBand => (1_000, 10_000_000),
            BandType::SBand => (1_000_000, 100_000_000),
            BandType::XBand => (100_000_000, 1_000_000_000),
            BandType::KBand => (1_000_000_000, 10_000_000_000),
            BandType::KaBand => (10_000_000_000, 100_000_000_000),
        }
    }

    /// Typical data rate range of this band in bits per second.
    pub open spec fn spec_typical_data_rate_range(self) -> (u64, u64) {
        match self {
            BandType::UhfBand => (1_000, 10_000_000),
            BandType::SBand => (1_000_000, 100_000_000),
            BandType::XBand => (100_000_000, 1_000_000_000),
            BandType::KBand => (1_000_000_000, 10_000_000_000),
            BandType::KaBand => (10_000_000_000, 100_000_000_000),
        }
    }

    /// The primary use case of this band.
    pub fn primary_use_case(&self) -> (r: &'static str)
        ensures
            self is SBand ==> r@ == "Telemetry, tracking, and command (TT&C)"@,
    {
        match self {
            BandType::UhfBand => "Emergency communication and backup",
            BandType::SBand => "Telemetry, tracking, and command (TT&C)",
            BandType::XBand => "Medium-speed data transmission",
            BandType::KBand => "High-speed data transmission",
            BandType::KaBand => "Ultra-high bandwidth Earth and relay links",
        }
    }

    /// Weather sensitivity of this band as a percentage:
    /// 0 means not sensitive, 100 means very sensitive.
    pub fn weather_sensitivity_percent(&self) -> (r: u8)
        ensures
            r == self.spec_weather_sensitivity_percent(),
            r <= 100,
    {
        match self {
            BandType::UhfBand => 10,
            BandType::SBand => 20,
            BandType::XBand => 40,
            BandType::KBand => 80,
            BandType::KaBand => 90,
        }
    }

    /// The wire code of this band.
    pub open spec fn code(self) -> u8 {
        match self {
            BandType::UhfBand => 0u8,
            BandType::SBand => 1u8,
            BandType::XBand => 2u8,
            BandType::KBand => 3u8,
            BandType::KaBand => 4u8,
        }
    }

    /// The wire code of this band.
    pub fn code_value(&self) -> (r: u8)
        ensures
            r == self.code(),
    {
        match self {
            BandType::UhfBand => 0,
            BandType::SBand => 1,
            BandType::XBand => 2,
            BandType::KBand => 3,
            BandType::KaBand => 4,
        }
    }

    /// Weather sensitivity of this band as a percentage.
    pub open spec fn spec_weather_sensitivity_percent(self) -> u8 {
        match self {
            BandType::UhfBand => 10,
            BandType::SBand => 20,
            BandType::XBand => 40,
            BandType::KBand => 80,
            BandType::KaBand => 90,
        }
    }
}

/// System operational modes.
#[derive(Debug, Clone, Copy, PartialEq, Eq, Structural)]
pub enum OperationalMode {
    /// Normal operational mode.
    Normal,
    /// Reduced functionality mode.
    Degraded,
    /// Emergency mode with minimal functionality.
    Emergency,
    /// Maintenance mode with limited operations.
    Maintenance,
    /// Protective safe mode.
    Safe,
}

/// Power consumption levels.
#[derive(Debug, Clone, Copy, PartialEq, Eq, PartialOrd, Ord, Structural)]
pub enum PowerLevel {
    /// Very low power consumption.
    VeryLow,
    /// Low power consumption.
    Low,
    /// Medium power consumption.
    Medium,
    /// High power consumption.
    High,
    /// Very high power consumption.
    VeryHigh,
}

impl PowerLevel {
    /// Typical power consumption in milliwatts.
    pub fn typical_milliwatts(&self) -> (r: u64)
        ensures
            r == match self {
                PowerLevel::VeryLow => 100u64,
                PowerLevel::Low => 1_000u64,
                PowerLevel::Medium => 10_000u64,
                PowerLevel::High => 100_000u64,
                PowerLevel::VeryHigh => 1_000_000u64,
            },
    {
        match self {
            PowerLevel::VeryLow => 100,
            PowerLevel::Low => 1_000,
            PowerLevel::Medium => 10_000,
            PowerLevel::High => 100_000,
            PowerLevel::VeryHigh => 1_000_000,
        }
    }
}

/// System health status. The order of two statuses follows their numeric
/// score, so a healthier status compares greater.
#[derive(Debug, Clone, Copy, PartialEq, Eq, Hash, Structural)]
pub enum HealthStatus {
    /// System is operating optimally.
    Excellent,
    /// System is operating well.
    Good,
    /// System is operating with minor issues.
    Fair,
    /// System is operating with significant issues.
    Poor,
    /// System is critically compromised.
    Critical,
    /// System status is unknown.
    Unknown,
}

impl HealthStatus {
    /// Numeric health score in 0..=100.
    pub fn score(&self) -> (r: u8)
        ensures
            r == self.spec_score(),
    {
        match self {
            HealthStatus::Excellent => 100,
            HealthStatus::Good => 80,
            HealthStatus::Fair => 60,
            HealthStatus::Poor => 40,
            HealthStatus::Critical => 20,
            HealthStatus::Unknown => 0,
        }
    }

    /// Numeric health score in 0..=100.
    pub open spec fn spec_score(self) -> u8 {
        match self {
            HealthStatus::Excellent => 100u8,
            HealthStatus::Good => 80u8,
            HealthStatus::Fair => 60u8,
            HealthStatus::Poor => 40u8,
            HealthStatus::Critical => 20u8,
            HealthStatus::Unknown => 0u8,
        }
    }

    /// Whether the status requires immediate attention.
    pub fn requires_attention(&self) -> (r: bool)
        ensures
            r == (self is Poor || self is Critical),
    {
        matches!(self, HealthStatus::Poor | HealthStatus::Critical)
    }
}

impl PartialOrd for HealthStatus {
    fn partial_cmp(&self, other: &HealthStatus) -> (r: Option<core::cmp::Ordering>) {
        let a = self.score();
        let b = other.score();
        if a < b {
            Some(core::cmp::Ordering::Less)
        } else if a == b {
            Some(core::cmp::Ordering::Equal)
        } else {
            Some(core::cmp::Ordering::Greater)
        }
    }
}

impl vstd::std_specs::cmp::PartialOrdSpecImpl for HealthStatus {
    open spec fn obeys_partial_cmp_spec() -> bool {
        true
    }

    open spec fn partial_cmp_spec(&self, other: &HealthStatus) -> Option<core::cmp::Ordering> {
        if self.spec_score() < other.spec_score() {
            Some(core::cmp::Ordering::Less)
        } else if self.spec_score() == other.spec_score() {
            Some(core::cmp::Ordering::Equal)
        } else {
            Some(core::cmp::Ordering::Greater)
        }
    }
}

} // verus!
