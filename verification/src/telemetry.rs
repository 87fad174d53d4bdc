//! Telemetry data structures carried from the satellite to the ground.

use vstd::prelude::*;
use crate::types::{BandType, ComponentId, HealthStatus};

verus! {

/// Maximum measurements of one telemetry packet.
pub const MAX_MEASUREMENTS: usize = 32;
/// Maximum characters of a text measurement.
pub const MAX_TEXT_MEASUREMENT: usize = 64;
/// Maximum bytes of a raw measurement.
pub const MAX_BYTES_MEASUREMENT: usize = 128;

/// Measurement quality indicators.
#[derive(Debug, Clone, Copy, PartialEq, Eq, Structural)]
pub enum MeasurementQuality {
    /// Good quality measurement.
    Good,
    /// Questionable quality.
    Questionable,
    /// Bad quality measurement.
    Bad,
    /// Measurement not available.
    NotAvailable,
}

/// Measurement value variants. A floating-point reading is carried as
/// the IEEE-754 double-precision bit pattern of its value; the stack
/// transports it and never computes with it.
#[derive(Debug, Clone, PartialEq, Eq)]
pub enum MeasurementValue {
    /// Integer value.
    Integer(i64),
    /// Floating-point value as its double-precision bit pattern.
    Float(u64),
    /// Boolean value.
    Boolean(bool),
    /// Text value, at most `MAX_TEXT_MEASUREMENT` characters.
    Text(String),
    /// Raw bytes, at most `MAX_BYTES_MEASUREMENT`.
    Bytes(Vec<u8>),
}

/// One telemetry measurement.
#[derive(Debug, Clone, PartialEq, Eq)]
pub struct Measurement {
    /// Measurement type identifier.
    pub measurement_id: u16,
    /// Measurement value.
    pub value: MeasurementValue,
    /// Measurement unit.
    pub unit: &'static str,
    /// Quality indicator.
    pub quality: MeasurementQuality,
}

/// A telemetry data point gathered by one component.
#[derive(Debug, Clone, PartialEq, Eq)]
pub struct TelemetryData {
    /// Component that generated this telemetry.
    pub source: ComponentId,
    /// Timestamp in nanoseconds since the Unix epoch.
    pub timestamp: u64,
    /// The measurements, at most `MAX_MEASUREMENTS`.
    pub measurements: Vec<Measurement>,
    /// Overall system health status.
    pub health_status: HealthStatus,
}

impl TelemetryData {
    /// The telemetry invariant: the measurement list fits its bound.
    pub open spec fn well_formed(self) -> bool {
        self.measurements@.len() <= MAX_MEASUREMENTS
    }
}

/// A complete telemetry packet ready for transmission.
#[derive(Debug, Clone, PartialEq, Eq)]
pub struct TelemetryPacket {
    /// Packet sequence number.
    pub sequence: u32,
    /// The telemetry data.
    pub data: TelemetryData,
    /// Communication band used.
    pub band: BandType,
    /// Estimated packet size in bytes.
    pub size_bytes: u32,
}

impl TelemetryPacket {
    /// Create a telemetry packet; the size estimate counts a fixed
    /// 64-byte overhead plus 32 bytes per measurement.
    pub fn new(sequence: u32, data: TelemetryData, band: BandType) -> (r: Self)
        requires
            data.well_formed(),
        ensures
            r.sequence == sequence,
            r.data == data,
            r.band == band,
            r.size_bytes == 64 + data.measurements@.len() * 32,
    {
        let size_bytes: u32 = 64 + (data.measurements.len() * 32) as u32;
        Self { sequence, data, band, size_bytes }
    }
}

} // verus!
