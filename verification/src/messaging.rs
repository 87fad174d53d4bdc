//! Priority levels, messages and payloads of the messaging core.

use vstd::prelude::*;
use crate::types::{BandType, ComponentId, MessageId};

verus! {

/// Maximum bytes of a telemetry payload.
pub const TELEMETRY_PAYLOAD_MAX: usize = 1024;
/// Maximum bytes of command parameters inside a message.
pub const COMMAND_PARAMS_MAX: usize = 256;
/// Maximum characters of a status message.
pub const STATUS_TEXT_MAX: usize = 128;
/// Maximum bytes of a raw payload.
pub const RAW_PAYLOAD_MAX: usize = 2048;
/// Maximum characters of an emergency description.
pub const EMERGENCY_TEXT_MAX: usize = 256;
/// Maximum bytes of emergency data.
pub const EMERGENCY_DATA_MAX: usize = 512;

/// Message priority levels, five tiers strictly ordered
/// `Low < Medium < High < Critical < Emergency`.
#[derive(Debug, Clone, Copy, PartialEq, Eq, PartialOrd, Ord, Hash, Structural)]
pub enum MessagePriority {
    /// Lowest priority: routine housekeeping data.
    Low,
    /// Normal telemetry and data.
    Medium,
    /// Important system status.
    High,
    /// Emergency commands and alerts.
    Critical,
    /// Life-safety and mission-critical traffic.
    Emergency,
}

impl MessagePriority {
    /// Numeric rank of the priority; a higher rank is more urgent.
    pub open spec fn rank(self) -> u64 {
        match self {
            MessagePriority::Low => 1u64,
            MessagePriority::Medium => 2u64,
            MessagePriority::High => 3u64,
            MessagePriority::Critical => 4u64,
            MessagePriority::Emergency => 5u64,
        }
    }

    /// Numeric rank of the priority; a higher rank is more urgent.
    pub fn rank_value(&self) -> (r: u64)
        ensures
            r == self.rank(),
            1 <= r <= 5,
    {
        match self {
            MessagePriority::Low => 1,
            MessagePriority::Medium => 2,
            MessagePriority::High => 3,
            MessagePriority::Critical => 4,
            MessagePriority::Emergency => 5,
        }
    }

    /// Maximum processing frequency for this priority level in Hz.
    pub fn max_frequency_hz(&self) -> (r: u32)
        ensures
            r == self.spec_max_frequency_hz(),
    {
        match self {
            MessagePriority::Low => 10,
            MessagePriority::Medium => 100,
            MessagePriority::High => 500,
            MessagePriority::Critical => 1000,
            MessagePriority::Emergency => 2000,
        }
    }

    /// Maximum processing frequency for this priority level in Hz.
    pub open spec fn spec_max_frequency_hz(self) -> u32 {
        match self {
            MessagePriority::Low => 10u32,
            MessagePriority::Medium => 100u32,
            MessagePriority::High => 500u32,
            MessagePriority::Critical => 1000u32,
            MessagePriority::Emergency => 2000u32,
        }
    }

    /// Maximum acceptable latency for this priority level in milliseconds.
    pub fn max_latency_ms(&self) -> (r: u32)
        ensures
            r == self.spec_max_latency_ms(),
    {
        match self {
            MessagePriority::Low => 10000,
            MessagePriority::Medium => 1000,
            MessagePriority::High => 100,
            MessagePriority::Critical => 10,
            MessagePriority::Emergency => 1,
        }
    }

    /// Maximum acceptable latency for this priority level in milliseconds.
    pub open spec fn spec_max_latency_ms(self) -> u32 {
        match self {
            MessagePriority::Low => 10000u32,
            MessagePriority::Medium => 1000u32,
            MessagePriority::High => 100u32,
            MessagePriority::Critical => 10u32,
            MessagePriority::Emergency => 1u32,
        }
    }

    /// Whether this priority requires real-time processing, true exactly
    /// for `Critical` and `Emergency`.
    pub fn is_real_time(&self) -> (r: bool)
        ensures
            r == self.spec_is_real_time(),
    {
        matches!(self, MessagePriority::Critical | MessagePriority::Emergency)
    }

    /// Whether this priority requires real-time processing.
    pub open spec fn spec_is_real_time(self) -> bool {
        self is Critical || self is Emergency
    }
}

/// Message payload variants. Each variant bounds the bytes it carries.
#[derive(Debug, Clone, PartialEq, Eq)]
pub enum MessagePayload {
    /// Telemetry data payload.
    Telemetry {
        /// Telemetry bytes, at most `TELEMETRY_PAYLOAD_MAX`.
        data: Vec<u8>,
        /// Data format identifier.
        format: u16,
    },
    /// Command payload.
    Command {
        /// Command identifier.
        command_id: u32,
        /// Encoded command parameters, at most `COMMAND_PARAMS_MAX` bytes.
        parameters: Vec<u8>,
    },
    /// Status update payload.
    Status {
        /// Status code.
        status_code: u16,
        /// Status text, at most `STATUS_TEXT_MAX` characters.
        message: String,
    },
    /// Raw binary data.
    Raw {
        /// Binary data, at most `RAW_PAYLOAD_MAX` bytes.
        data: Vec<u8>,
    },
    /// Emergency alert payload.
    Emergency {
        /// Alert level; higher is more critical.
        alert_level: u8,
        /// Alert description, at most `EMERGENCY_TEXT_MAX` characters.
        description: String,
        /// Associated data, at most `EMERGENCY_DATA_MAX` bytes.
        data: Vec<u8>,
    },
}

impl MessagePayload {
    /// Whether each variant respects its size bound.
    pub open spec fn well_formed(self) -> bool {
        match self {
            MessagePayload::Telemetry { data, .. } => data@.len() <= TELEMETRY_PAYLOAD_MAX,
            MessagePayload::Command { parameters, .. } => parameters@.len() <= COMMAND_PARAMS_MAX,
            MessagePayload::Status { message, .. } => message@.len() <= STATUS_TEXT_MAX,
            MessagePayload::Raw { data } => data@.len() <= RAW_PAYLOAD_MAX,
            MessagePayload::Emergency { description, data, .. } =>
                description@.len() <= EMERGENCY_TEXT_MAX && data@.len() <= EMERGENCY_DATA_MAX,
        }
    }

    /// The payload size in items: bytes for binary payloads, characters
    /// for the status text, and their sum for an emergency alert.
    pub open spec fn spec_size(self) -> nat {
        match self {
            MessagePayload::Telemetry { data, .. } => data@.len(),
            MessagePayload::Command { parameters, .. } => parameters@.len(),
            MessagePayload::Status { message, .. } => message@.len(),
            MessagePayload::Raw { data } => data@.len(),
            MessagePayload::Emergency { description, data, .. } =>
                description@.len() + data@.len(),
        }
    }

    /// The payload size, as `spec_size` counts it.
    pub fn size(&self) -> (r: usize)
        requires
            self.well_formed(),
        ensures
            r == self.spec_size(),
    {
        match self {
            MessagePayload::Telemetry { data, .. } => data.len(),
            MessagePayload::Command { parameters, .. } => parameters.len(),
            MessagePayload::Status { message, .. } => string_char_len(message),
            MessagePayload::Raw { data } => data.len(),
            MessagePayload::Emergency { description, data, .. } => {
                string_char_len(description) + data.len()
            },
        }
    }

    /// Whether the payload is empty.
    pub fn is_empty(&self) -> (r: bool)
        requires
            self.well_formed(),
        ensures
            r == (self.spec_size() == 0),
    {
        self.size() == 0
    }
}

/// Relies on str::chars().count(): the number of characters of a string,
/// which is the length of its view.
#[verifier::external_body]
pub(crate) fn string_char_len(s: &String) -> (r: usize)
    ensures
        r == s@.len(),
{
    s.chars().count()
}

/// The unit that the queue and dispatcher move around.
#[derive(Debug, Clone, PartialEq, Eq)]
pub struct Message {
    /// Unique message identifier.
    pub id: MessageId,
    /// Message priority level.
    pub priority: MessagePriority,
    /// Component that generated the message.
    pub source: ComponentId,
    /// Component the message is addressed to.
    pub destination: ComponentId,
    /// Creation time in nanoseconds since the Unix epoch.
    pub timestamp: u64,
    /// Message payload.
    pub payload: MessagePayload,
    /// Preferred communication band.
    pub preferred_band: BandType,
    /// Time-to-live in seconds; 0 means no expiration.
    pub ttl_seconds: u32,
    /// Retry count for failed transmissions.
    pub retry_count: u8,
    /// Maximum number of retry attempts.
    pub max_retries: u8,
}

impl Message {
    /// The message invariant: the payload respects its bounds and the
    /// retry count never exceeds the retry budget.
    pub open spec fn well_formed(self) -> bool {
        &&& self.payload.well_formed()
        &&& self.retry_count <= self.max_retries
    }

    /// Whether the message has expired at `now_seconds`: it carries a
    /// positive time-to-live and its age in whole seconds has reached it.
    /// A clock reading before the creation time counts as age zero.
    pub open spec fn spec_expired(self, now_seconds: u64) -> bool {
        let created_s = self.timestamp / 1_000_000_000;
        let age = if now_seconds >= created_s {
            now_seconds - created_s
        } else {
            0int
        };
        self.ttl_seconds > 0 && age >= self.ttl_seconds
    }

    /// Whether the message has expired at `now_seconds`.
    pub fn is_expired_at(&self, now_seconds: u64) -> (r: bool)
        ensures
            r == self.spec_expired(now_seconds),
    {
        if self.ttl_seconds == 0 {
            return false;
        }
        let created_s: u64 = self.timestamp / 1_000_000_000;
        let age: u64 = if now_seconds >= created_s {
            now_seconds - created_s
        } else {
            0
        };
        age >= self.ttl_seconds as u64
    }
}

/// A message paired with its insertion sequence number. Two of these are
/// ordered by priority first, higher priority ahead; within one priority
/// the lower sequence, that is the earlier insertion, comes ahead.
#[derive(Debug, Clone)]
pub struct PriorityMessage {
    /// The message itself.
    pub message: Message,
    /// Insertion sequence number assigned by the queue.
    pub sequence: u64,
}

impl PriorityMessage {
    /// Whether `self` is scheduled strictly ahead of `other`.
    pub open spec fn ahead_of(self, other: PriorityMessage) -> bool {
        ||| self.message.priority.rank() > other.message.priority.rank()
        ||| (self.message.priority.rank() == other.message.priority.rank()
            && self.sequence < other.sequence)
    }
}

/// Counts of queued messages by priority.
#[derive(Debug, Clone, PartialEq, Eq, Default)]
pub struct QueueStatistics {
    /// Total number of messages.
    pub total: usize,
    /// Queue capacity.
    pub capacity: usize,
    /// Number of low priority messages.
    pub low_priority: usize,
    /// Number of medium priority messages.
    pub medium_priority: usize,
    /// Number of high priority messages.
    pub high_priority: usize,
    /// Number of critical priority messages.
    pub critical_priority: usize,
    /// Number of emergency priority messages.
    pub emergency_priority: usize,
}

impl QueueStatistics {
    /// Queue utilization as a whole-number percentage, rounded down;
    /// zero when the capacity is zero.
    pub fn utilization_percent(&self) -> (r: u64)
        ensures
            r == self.spec_utilization_percent(),
    {
        if self.capacity == 0 {
            0
        } else {
            let pct: u128 = (self.total as u128) * 100 / (self.capacity as u128);
            pct as u64
        }
    }

    /// Queue utilization as a whole-number percentage.
    pub open spec fn spec_utilization_percent(self) -> u64 {
        if self.capacity == 0 {
            0u64
        } else {
            ((self.total * 100) / self.capacity as int) as u64
        }
    }

    /// Whether utilization has reached `threshold_percent`.
    pub fn is_near_capacity(&self, threshold_percent: u64) -> (r: bool)
        ensures
            r == (self.spec_utilization_percent() >= threshold_percent),
    {
        self.utilization_percent() >= threshold_percent
    }
}

} // verus!
