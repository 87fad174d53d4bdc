//! Scheduler and dispatcher decisions: the fixed task set and its
//! periods, the queue admission rule, the deadline check, and the
//! per-message dispatch decision.

use vstd::prelude::*;
use crate::comm::CommunicationManager;
use crate::commands::band_for_priority;
use crate::messaging::{Message, MessagePriority};
use crate::types::{BandType, HealthStatus};

verus! {

/// The fixed task set cooperating on one logical timeline.
#[derive(Debug, Clone, Copy, PartialEq, Eq, Structural)]
pub enum TaskId {
    /// Pops and dispatches urgent messages every millisecond.
    CriticalProcessor,
    /// Assembles a telemetry packet every ten milliseconds.
    TelemetryCollector,
    /// Drains telemetry egress and polls ingress every ten milliseconds.
    CommsManager,
    /// Recomputes system health every five seconds.
    HealthMonitor,
    /// Removes expired messages and updates statistics every minute.
    Housekeeping,
}

impl TaskId {
    /// The period of the task in milliseconds.
    pub fn period_ms(&self) -> (r: u64)
        ensures
            r == match self {
                TaskId::CriticalProcessor => 1u64,
                TaskId::TelemetryCollector => 10u64,
                TaskId::CommsManager => 10u64,
                TaskId::HealthMonitor => 5_000u64,
                TaskId::Housekeeping => 60_000u64,
            },
    {
        match self {
            TaskId::CriticalProcessor => 1,
            TaskId::TelemetryCollector => 10,
            TaskId::CommsManager => 10,
            TaskId::HealthMonitor => 5_000,
            TaskId::Housekeeping => 60_000,
        }
    }
}

/// Whether a push of the given priority is accepted when `len` of
/// `capacity` slots are taken: nothing is accepted at capacity, Low
/// priority is refused once the queue is 90 percent full, Medium once
/// it is 95 percent full, and High and above are accepted until
/// capacity.
pub open spec fn spec_admission_allows(priority: MessagePriority, len: nat, capacity: nat) -> bool {
    if len >= capacity {
        false
    } else if priority is Low {
        len * 100 < capacity * 90
    } else if priority is Medium {
        len * 100 < capacity * 95
    } else {
        true
    }
}

/// The queue admission rule, the sole queue-side back-pressure.
pub fn admission_allows(priority: MessagePriority, len: usize, capacity: usize) -> (r: bool)
    ensures
        r == spec_admission_allows(priority, len as nat, capacity as nat),
{
    if len >= capacity {
        return false;
    }
    match priority {
        MessagePriority::Low => (len as u128) * 100 < (capacity as u128) * 90,
        MessagePriority::Medium => (len as u128) * 100 < (capacity as u128) * 95,
        _ => true,
    }
}

/// The outcome of the dispatcher's deadline bookkeeping for one popped
/// message.
#[derive(Debug, Clone, Copy, PartialEq, Eq)]
pub struct DeadlineCheck {
    /// Observed queueing latency in whole milliseconds.
    pub observed_ms: u64,
    /// The priority's latency budget in milliseconds.
    pub budget_ms: u32,
    /// Whether the observed latency exceeded the budget.
    pub missed: bool,
}

/// The observed latency of a message at a clock reading, in whole
/// milliseconds; a reading before the creation time counts as zero.
pub open spec fn spec_observed_ms(message: Message, now_ns: u64) -> int {
    if now_ns >= message.timestamp {
        (now_ns - message.timestamp) / 1_000_000
    } else {
        0int
    }
}

/// Record the latency of a popped message against its priority's
/// budget: the check reports a miss exactly when the observed whole
/// milliseconds exceed the budget.
pub fn check_deadline(message: &Message, now_ns: u64) -> (r: DeadlineCheck)
    ensures
        r.observed_ms == spec_observed_ms(*message, now_ns),
        r.budget_ms == message.priority.spec_max_latency_ms(),
        r.missed == (spec_observed_ms(*message, now_ns)
            > message.priority.spec_max_latency_ms()),
{
    let observed_ms: u64 = if now_ns >= message.timestamp {
        (now_ns - message.timestamp) / 1_000_000
    } else {
        0
    };
    let budget_ms: u32 = message.priority.max_latency_ms();
    DeadlineCheck { observed_ms, budget_ms, missed: observed_ms > budget_ms as u64 }
}

/// A message dispatched within its priority's latency budget is never
/// reported as a deadline miss: whenever the dispatcher runs within
/// the budget of the message's priority, the check passes.
pub proof fn lemma_deadline_envelope(message: Message, now_ns: u64)
    requires
        now_ns >= message.timestamp,
        now_ns - message.timestamp <= message.priority.spec_max_latency_ms() * 1_000_000,
    ensures
        !check_deadline_spec(message, now_ns).missed,
{
}

/// The deadline check as a value, for stating laws about dispatch.
pub open spec fn check_deadline_spec(message: Message, now_ns: u64) -> DeadlineCheck {
    DeadlineCheck {
        observed_ms: spec_observed_ms(message, now_ns) as u64,
        budget_ms: message.priority.spec_max_latency_ms(),
        missed: spec_observed_ms(message, now_ns) > message.priority.spec_max_latency_ms(),
    }
}

/// What the dispatcher decides to do with one popped message.
#[derive(Debug, Clone, Copy, PartialEq, Eq)]
pub enum DispatchDecision {
    /// The message's time-to-live has run out; it is dropped untransmitted.
    Expired,
    /// Every candidate band has failed; the message cannot be sent.
    NoBand,
    /// Transmit on the band, after recording the deadline check.
    Transmit {
        /// The band selected for the transmission.
        band: BandType,
        /// The recorded deadline bookkeeping; a miss is reported but
        /// does not stop the transmission.
        deadline: DeadlineCheck,
    },
}

/// Decide the fate of one popped message at a clock reading: an expired
/// message is dropped; otherwise the deadline check is recorded and the
/// message goes out on the band that selection with failover yields,
/// even when the deadline was missed.
pub fn dispatch_decision(manager: &CommunicationManager, message: &Message, now_ns: u64) -> (r:
    DispatchDecision)
    requires
        manager.well_formed(),
    ensures
        message.spec_expired(now_ns / 1_000_000_000) ==> r is Expired,
        !message.spec_expired(now_ns / 1_000_000_000) ==> {
            if manager.spec_emergency_mode() {
                r == (DispatchDecision::Transmit {
                    band: BandType::UhfBand,
                    deadline: check_deadline_spec(*message, now_ns),
                })
            } else {
                match manager.spec_failover(band_for_priority(message.priority)) {
                    Some(b) => r == (DispatchDecision::Transmit {
                        band: b,
                        deadline: check_deadline_spec(*message, now_ns),
                    }),
                    None => r is NoBand,
                }
            }
        },
{
    let now_s: u64 = now_ns / 1_000_000_000;
    if message.is_expired_at(now_s) {
        return DispatchDecision::Expired;
    }
    let deadline = check_deadline(message, now_ns);
    match manager.select_band_with_failover(message.priority) {
        Ok(band) => DispatchDecision::Transmit { band, deadline },
        Err(_) => DispatchDecision::NoBand,
    }
}

/// What the system does in response to an emergency alert, by level:
/// 200 and above activates safe mode, 100 to 199 reduces functionality,
/// 50 to 99 increases monitoring, and anything below is only logged.
#[derive(Debug, Clone, Copy, PartialEq, Eq, Structural)]
pub enum AlertResponse {
    /// Activate safe mode.
    ActivateSafeMode,
    /// Reduce functionality and switch to a backup band.
    ReduceFunctionality,
    /// Increase monitoring frequency.
    IncreaseMonitoring,
    /// Log the alert and continue.
    LogOnly,
}

/// Decide the response to an emergency alert level.
pub fn alert_response(alert_level: u8) -> (r: AlertResponse)
    ensures
        alert_level >= 200 ==> r is ActivateSafeMode,
        100 <= alert_level < 200 ==> r is ReduceFunctionality,
        50 <= alert_level < 100 ==> r is IncreaseMonitoring,
        alert_level < 50 ==> r is LogOnly,
{
    if alert_level >= 200 {
        AlertResponse::ActivateSafeMode
    } else if alert_level >= 100 {
        AlertResponse::ReduceFunctionality
    } else if alert_level >= 50 {
        AlertResponse::IncreaseMonitoring
    } else {
        AlertResponse::LogOnly
    }
}

/// The health score of the system given its readings: from a full score
/// of 100, a temperature above 80 degrees costs 30 points and one above
/// 60 costs 10; a battery below 10 volts costs 40 points and one below
/// 12 costs 20; an unhealthy communication system costs 25.
pub open spec fn spec_health_score(temperature_c: i32, battery_millivolts: u32, comm_healthy: bool) -> int {
    let after_temp: int = if temperature_c > 80 {
        70
    } else if temperature_c > 60 {
        90
    } else {
        100
    };
    let after_battery: int = if battery_millivolts < 10_000 {
        after_temp - 40
    } else if battery_millivolts < 12_000 {
        after_temp - 20
    } else {
        after_temp
    };
    let after_comm: int = if comm_healthy {
        after_battery
    } else {
        after_battery - 25
    };
    if after_comm >= 0 {
        after_comm
    } else {
        0
    }
}

/// Assess overall system health from the latest readings, temperature
/// in whole degrees Celsius and battery voltage in millivolts. The
/// score maps to a status: excellent from 90, good from 70, fair from
/// 50, poor from 30, and critical below, at which point the health
/// monitor raises an event to the fault manager.
pub fn assess_system_health(temperature_c: i32, battery_millivolts: u32, comm_healthy: bool) -> (r:
    HealthStatus)
    ensures
        r == ({
            let score = spec_health_score(temperature_c, battery_millivolts, comm_healthy);
            if score >= 90 {
                HealthStatus::Excellent
            } else if score >= 70 {
                HealthStatus::Good
            } else if score >= 50 {
                HealthStatus::Fair
            } else if score >= 30 {
                HealthStatus::Poor
            } else {
                HealthStatus::Critical
            }
        }),
{
    let mut score: i32 = 100;
    if temperature_c > 80 {
        score = score - 30;
    } else if temperature_c > 60 {
        score = score - 10;
    }
    if battery_millivolts < 10_000 {
        score = score - 40;
    } else if battery_millivolts < 12_000 {
        score = score - 20;
    }
    if !comm_healthy {
        score = score - 25;
    }
    if score < 0 {
        score = 0;
    }
    if score >= 90 {
        HealthStatus::Excellent
    } else if score >= 70 {
        HealthStatus::Good
    } else if score >= 50 {
        HealthStatus::Fair
    } else if score >= 30 {
        HealthStatus::Poor
    } else {
        HealthStatus::Critical
    }
}

} // verus!
