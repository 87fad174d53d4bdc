//! Fault manager: fault classification, recovery action decisions, the
//! running health gauge, and the log ring.

use vstd::prelude::*;
use vstd::slice::slice_subrange;
use crate::error::{new_string, ErrorSeverity, SpaceCommError};
use crate::types::{BandType, HealthStatus};

verus! {

/// Maximum entries the log ring holds.
pub const LOG_BUFFER_MAX: usize = 256;
/// Maximum faults tracked at once.
pub const ACTIVE_FAULTS_MAX: usize = 32;

/// Log levels.
#[derive(Debug, Clone, Copy, PartialEq, Eq, Structural)]
pub enum LogLevel {
    /// Critical errors requiring immediate attention.
    Critical,
    /// Error conditions.
    Error,
    /// Warning conditions.
    Warning,
    /// Informational messages.
    Info,
    /// Debug information.
    Debug,
}

/// One log entry.
#[derive(Debug, Clone)]
pub struct LogEntry {
    /// Timestamp in milliseconds.
    pub timestamp: u64,
    /// Log level.
    pub level: LogLevel,
    /// Message content.
    pub message: String,
    /// Error code if applicable.
    pub error_code: Option<u32>,
    /// Component that generated the log.
    pub component: String,
}

/// System fault classification.
#[derive(Debug, Clone)]
pub enum FaultType {
    /// Hardware failure.
    Hardware {
        /// Name of the failed component.
        component: String,
        /// Hardware error code.
        error_code: u32,
    },
    /// Software fault.
    Software {
        /// Name of the faulting module.
        module: String,
        /// Software error code.
        error_code: u32,
    },
    /// Communication failure on a band.
    Communication {
        /// The band at fault.
        band: BandType,
        /// Communication error code.
        error_code: u32,
    },
    /// Power system fault.
    Power {
        /// The affected subsystem.
        subsystem: String,
        /// Power error code.
        error_code: u32,
    },
    /// Thermal fault.
    Thermal {
        /// The reporting sensor.
        sensor_id: u16,
        /// Measured temperature in whole degrees Celsius.
        temperature_c: i32,
    },
    /// Memory fault.
    Memory {
        /// Faulting address, if known.
        address: Option<u32>,
        /// Memory error code.
        error_code: u32,
    },
}

/// The kind of a fault, used to deduplicate the active fault set.
#[derive(Debug, Clone, Copy, PartialEq, Eq, Structural)]
pub enum FaultKind {
    /// A hardware fault.
    Hardware,
    /// A software fault.
    Software,
    /// A communication fault.
    Communication,
    /// A power fault.
    Power,
    /// A thermal fault.
    Thermal,
    /// A memory fault.
    Memory,
}

impl FaultType {
    /// The kind of this fault.
    pub open spec fn spec_kind(self) -> FaultKind {
        match self {
            FaultType::Hardware { .. } => FaultKind::Hardware,
            FaultType::Software { .. } => FaultKind::Software,
            FaultType::Communication { .. } => FaultKind::Communication,
            FaultType::Power { .. } => FaultKind::Power,
            FaultType::Thermal { .. } => FaultKind::Thermal,
            FaultType::Memory { .. } => FaultKind::Memory,
        }
    }

    /// The kind of this fault.
    pub fn kind(&self) -> (r: FaultKind)
        ensures
            r == self.spec_kind(),
    {
        match self {
            FaultType::Hardware { .. } => FaultKind::Hardware,
            FaultType::Software { .. } => FaultKind::Software,
            FaultType::Communication { .. } => FaultKind::Communication,
            FaultType::Power { .. } => FaultKind::Power,
            FaultType::Thermal { .. } => FaultKind::Thermal,
            FaultType::Memory { .. } => FaultKind::Memory,
        }
    }
}

/// A recovery action chosen for a fault.
#[derive(Debug, Clone)]
pub enum RecoveryAction {
    /// No action required.
    NoAction,
    /// Restart the named component.
    RestartComponent(String),
    /// Switch the band to its backup.
    SwitchToBackup(BandType),
    /// Power cycle the named component.
    PowerCycle(String),
    /// Enter safe mode.
    SafeMode,
    /// Emergency shutdown.
    EmergencyShutdown,
}

/// The display name of a band in log and recovery messages.
pub open spec fn spec_band_name(b: BandType) -> Seq<char> {
    match b {
        BandType::UhfBand => "UHF"@,
        BandType::SBand => "S"@,
        BandType::XBand => "X"@,
        BandType::KBand => "K"@,
        BandType::KaBand => "Ka"@,
    }
}

/// The display name of a band.
pub fn band_name(b: BandType) -> (r: &'static str)
    ensures
        r@ == spec_band_name(b),
{
    match b {
        BandType::UhfBand => "UHF",
        BandType::SBand => "S",
        BandType::XBand => "X",
        BandType::KBand => "K",
        BandType::KaBand => "Ka",
    }
}

/// Whether a recovery action is the one the decision table of the
/// fault manager assigns to a fault: hardware faults shut down at code
/// 1000, power cycle at 500, else restart; software faults enter safe
/// mode at code 900, else restart; communication faults switch to
/// backup at code 800, else restart the band; power faults shut down
/// at code 700, else power cycle; thermal faults shut down beyond 80
/// or below -50 degrees, enter safe mode beyond 70 or below -40, else
/// need nothing; memory faults enter safe mode at code 600, else need
/// nothing.
pub open spec fn action_follows_table(fault: FaultType, r: RecoveryAction) -> bool {
    match fault {
        FaultType::Hardware { component, error_code } => if error_code >= 1000 {
            r is EmergencyShutdown
        } else if error_code >= 500 {
            r matches RecoveryAction::PowerCycle(c) && c@ == component@
        } else {
            r matches RecoveryAction::RestartComponent(c) && c@ == component@
        },
        FaultType::Software { module, error_code } => if error_code >= 900 {
            r is SafeMode
        } else {
            r matches RecoveryAction::RestartComponent(c) && c@ == module@
        },
        FaultType::Communication { band, error_code } => if error_code >= 800 {
            r == RecoveryAction::SwitchToBackup(band)
        } else {
            r matches RecoveryAction::RestartComponent(c) && c@ == spec_band_name(band)
        },
        FaultType::Power { subsystem, error_code } => if error_code >= 700 {
            r is EmergencyShutdown
        } else {
            r matches RecoveryAction::PowerCycle(c) && c@ == subsystem@
        },
        FaultType::Thermal { temperature_c, .. } => if temperature_c > 80
            || temperature_c < -50 {
            r is EmergencyShutdown
        } else if temperature_c > 70 || temperature_c < -40 {
            r is SafeMode
        } else {
            r is NoAction
        },
        FaultType::Memory { error_code, .. } => if error_code >= 600 {
            r is SafeMode
        } else {
            r is NoAction
        },
    }
}

/// Decide the recovery action for a fault, by the decision table that
/// `action_follows_table` states.
pub fn determine_recovery_action(fault: &FaultType) -> (r: RecoveryAction)
    ensures
        action_follows_table(*fault, r),
{
    match fault {
        FaultType::Hardware { component, error_code } => {
            if *error_code >= 1000 {
                RecoveryAction::EmergencyShutdown
            } else if *error_code >= 500 {
                RecoveryAction::PowerCycle(clone_string(component))
            } else {
                RecoveryAction::RestartComponent(clone_string(component))
            }
        },
        FaultType::Software { module, error_code } => {
            if *error_code >= 900 {
                RecoveryAction::SafeMode
            } else {
                RecoveryAction::RestartComponent(clone_string(module))
            }
        },
        FaultType::Communication { band, error_code } => {
            if *error_code >= 800 {
                RecoveryAction::SwitchToBackup(*band)
            } else {
                RecoveryAction::RestartComponent(new_string(band_name(*band)))
            }
        },
        FaultType::Power { subsystem, error_code } => {
            if *error_code >= 700 {
                RecoveryAction::EmergencyShutdown
            } else {
                RecoveryAction::PowerCycle(clone_string(subsystem))
            }
        },
        FaultType::Thermal { temperature_c, .. } => {
            if *temperature_c > 80 || *temperature_c < -50 {
                RecoveryAction::EmergencyShutdown
            } else if *temperature_c > 70 || *temperature_c < -40 {
                RecoveryAction::SafeMode
            } else {
                RecoveryAction::NoAction
            }
        },
        FaultType::Memory { error_code, .. } => {
            if *error_code >= 600 {
                RecoveryAction::SafeMode
            } else {
                RecoveryAction::NoAction
            }
        },
    }
}

/// Relies on String::clone: the copy holds the same characters.
#[verifier::external_body]
pub(crate) fn clone_string(s: &String) -> (r: String)
    ensures
        r@ == s@,
{
    s.clone()
}

/// Running health summary of the system.
#[derive(Debug, Clone, Copy, PartialEq, Eq)]
pub struct SystemHealth {
    /// Overall health gauge, 0 to 100.
    pub overall_health: u8,
    /// Count of critical faults seen.
    pub critical_faults: u8,
    /// Count of warnings seen.
    pub warnings: u8,
    /// Ticks since the last critical event.
    pub time_since_critical: u64,
    /// Whether the system is in safe mode.
    pub is_safe_mode: bool,
}

impl SystemHealth {
    /// The health invariant: the gauge never exceeds 100.
    pub open spec fn well_formed(self) -> bool {
        self.overall_health <= 100
    }

    /// The health status the gauge maps to: excellent from 90, good
    /// from 70, fair from 50, poor from 30, and critical at 29 or less.
    pub fn status(&self) -> (r: HealthStatus)
        ensures
            r == self.spec_status(),
    {
        if self.overall_health >= 90 {
            HealthStatus::Excellent
        } else if self.overall_health >= 70 {
            HealthStatus::Good
        } else if self.overall_health >= 50 {
            HealthStatus::Fair
        } else if self.overall_health >= 30 {
            HealthStatus::Poor
        } else {
            HealthStatus::Critical
        }
    }

    /// The health status the gauge maps to.
    pub open spec fn spec_status(self) -> HealthStatus {
        if self.overall_health >= 90 {
            HealthStatus::Excellent
        } else if self.overall_health >= 70 {
            HealthStatus::Good
        } else if self.overall_health >= 50 {
            HealthStatus::Fair
        } else if self.overall_health >= 30 {
            HealthStatus::Poor
        } else {
            HealthStatus::Critical
        }
    }
}

/// The health gauge decrement of a log level: 20 for critical, 10 for
/// error, 2 for warning, none otherwise.
pub open spec fn level_decrement(level: LogLevel) -> u8 {
    match level {
        LogLevel::Critical => 20u8,
        LogLevel::Error => 10u8,
        LogLevel::Warning => 2u8,
        _ => 0u8,
    }
}

/// Saturating subtraction on the health gauge.
pub open spec fn sat_sub(a: u8, b: u8) -> u8 {
    if a >= b {
        (a - b) as u8
    } else {
        0u8
    }
}

/// Collects logs and active faults and maintains the health gauge.
pub struct ErrorHandler {
    /// Recent log entries, oldest first, at most `LOG_BUFFER_MAX`.
    log_buffer: Vec<LogEntry>,
    /// Active faults, at most `ACTIVE_FAULTS_MAX`, one per kind.
    active_faults: Vec<FaultType>,
    /// System health summary.
    system_health: SystemHealth,
}

impl ErrorHandler {
    /// The handler invariant: buffers within bounds and a valid gauge.
    pub closed spec fn well_formed(self) -> bool {
        &&& self.log_buffer@.len() <= LOG_BUFFER_MAX
        &&& self.active_faults@.len() <= ACTIVE_FAULTS_MAX
        &&& self.system_health.well_formed()
    }

    /// The log entries, oldest first.
    pub closed spec fn spec_logs(self) -> Seq<LogEntry> {
        self.log_buffer@
    }

    /// The active faults.
    pub closed spec fn spec_faults(self) -> Seq<FaultType> {
        self.active_faults@
    }

    /// The health summary.
    pub closed spec fn spec_health(self) -> SystemHealth {
        self.system_health
    }

    /// Create a handler with full health and no faults.
    pub fn new() -> (r: Self)
        ensures
            r.well_formed(),
            r.spec_logs().len() == 0,
            r.spec_faults().len() == 0,
            r.spec_health() == (SystemHealth {
                overall_health: 100u8,
                critical_faults: 0u8,
                warnings: 0u8,
                time_since_critical: 0u64,
                is_safe_mode: false,
            }),
    {
        Self {
            log_buffer: Vec::new(),
            active_faults: Vec::new(),
            system_health: SystemHealth {
                overall_health: 100,
                critical_faults: 0,
                warnings: 0,
                time_since_critical: 0,
                is_safe_mode: false,
            },
        }
    }

    /// Append a log entry at the given time, dropping the oldest entry
    /// when the ring is full, and apply the level's health decrement: a
    /// critical entry costs 20 health points and resets the critical
    /// timer, an error costs 10, a warning costs 2.
    pub fn add_log_at(
        &mut self,
        now_ms: u64,
        level: LogLevel,
        message: String,
        component: String,
        error_code: Option<u32>,
    )
        requires
            old(self).well_formed(),
        ensures
            final(self).well_formed(),
            ({
                let entry = LogEntry { timestamp: now_ms, level, message, error_code, component };
                let kept = if old(self).spec_logs().len() < LOG_BUFFER_MAX {
                    old(self).spec_logs()
                } else {
                    old(self).spec_logs().drop_first()
                };
                final(self).spec_logs() == kept.push(entry)
            }),
            final(self).spec_faults() == old(self).spec_faults(),
            final(self).spec_health().overall_health == sat_sub(
                old(self).spec_health().overall_health, level_decrement(level)),
            final(self).spec_health().critical_faults == if level is Critical {
                if old(self).spec_health().critical_faults < 255 {
                    (old(self).spec_health().critical_faults + 1) as u8
                } else {
                    255u8
                }
            } else {
                old(self).spec_health().critical_faults
            },
            final(self).spec_health().warnings == if level is Warning {
                if old(self).spec_health().warnings < 255 {
                    (old(self).spec_health().warnings + 1) as u8
                } else {
                    255u8
                }
            } else {
                old(self).spec_health().warnings
            },
            final(self).spec_health().time_since_critical == if level is Critical {
                0u64
            } else {
                old(self).spec_health().time_since_critical
            },
            final(self).spec_health().is_safe_mode == old(self).spec_health().is_safe_mode,
    {
        let entry = LogEntry { timestamp: now_ms, level, message, error_code, component };
        if self.log_buffer.len() >= LOG_BUFFER_MAX {
            self.log_buffer.remove(0);
        }
        self.log_buffer.push(entry);
        match level {
            LogLevel::Critical => {
                self.system_health.critical_faults = if self.system_health.critical_faults < 255 {
                    self.system_health.critical_faults + 1
                } else {
                    255
                };
                self.system_health.overall_health = if self.system_health.overall_health >= 20 {
                    self.system_health.overall_health - 20
                } else {
                    0
                };
                self.system_health.time_since_critical = 0;
            },
            LogLevel::Error => {
                self.system_health.overall_health = if self.system_health.overall_health >= 10 {
                    self.system_health.overall_health - 10
                } else {
                    0
                };
            },
            LogLevel::Warning => {
                self.system_health.warnings = if self.system_health.warnings < 255 {
                    self.system_health.warnings + 1
                } else {
                    255
                };
                self.system_health.overall_health = if self.system_health.overall_health >= 2 {
                    self.system_health.overall_health - 2
                } else {
                    0
                };
            },
            _ => {},
        }
    }

    /// Log a critical error against the system component now.
    pub fn log_critical(&mut self, message: &str)
        requires
            old(self).well_formed(),
        ensures
            final(self).well_formed(),
            Self::spec_logged(*old(self), *final(self), LogLevel::Critical, message@, "SYSTEM"@,
                None),
    {
        let now_ms: u64 = crate::time::current_time_nanos() / 1_000_000;
        self.add_log_at(now_ms, LogLevel::Critical, new_string(message), new_string("SYSTEM"),
            None);
        proof {
            assert(self.spec_logs().drop_last() =~= (if old(self).spec_logs().len()
                < LOG_BUFFER_MAX {
                old(self).spec_logs()
            } else {
                old(self).spec_logs().drop_first()
            }));
        }
    }

    /// Log an error against the system component now.
    pub fn log_error(&mut self, message: &str)
        requires
            old(self).well_formed(),
        ensures
            final(self).well_formed(),
            Self::spec_logged(*old(self), *final(self), LogLevel::Error, message@, "SYSTEM"@,
                None),
    {
        let now_ms: u64 = crate::time::current_time_nanos() / 1_000_000;
        self.add_log_at(now_ms, LogLevel::Error, new_string(message), new_string("SYSTEM"), None);
        proof {
            assert(self.spec_logs().drop_last() =~= (if old(self).spec_logs().len()
                < LOG_BUFFER_MAX {
                old(self).spec_logs()
            } else {
                old(self).spec_logs().drop_first()
            }));
        }
    }

    /// Log a warning against the system component now.
    pub fn log_warning(&mut self, message: &str)
        requires
            old(self).well_formed(),
        ensures
            final(self).well_formed(),
            Self::spec_logged(*old(self), *final(self), LogLevel::Warning, message@, "SYSTEM"@,
                None),
    {
        let now_ms: u64 = crate::time::current_time_nanos() / 1_000_000;
        self.add_log_at(now_ms, LogLevel::Warning, new_string(message), new_string("SYSTEM"),
            None);
        proof {
            assert(self.spec_logs().drop_last() =~= (if old(self).spec_logs().len()
                < LOG_BUFFER_MAX {
                old(self).spec_logs()
            } else {
                old(self).spec_logs().drop_first()
            }));
        }
    }

    /// Log an informational message against the system component now.
    pub fn log_info(&mut self, message: &str)
        requires
            old(self).well_formed(),
        ensures
            final(self).well_formed(),
            Self::spec_logged(*old(self), *final(self), LogLevel::Info, message@, "SYSTEM"@,
                None),
    {
        let now_ms: u64 = crate::time::current_time_nanos() / 1_000_000;
        self.add_log_at(now_ms, LogLevel::Info, new_string(message), new_string("SYSTEM"), None);
        proof {
            assert(self.spec_logs().drop_last() =~= (if old(self).spec_logs().len()
                < LOG_BUFFER_MAX {
                old(self).spec_logs()
            } else {
                old(self).spec_logs().drop_first()
            }));
        }
    }

    /// Log a debug message against the system component now.
    pub fn log_debug(&mut self, message: &str)
        requires
            old(self).well_formed(),
        ensures
            final(self).well_formed(),
            Self::spec_logged(*old(self), *final(self), LogLevel::Debug, message@, "SYSTEM"@,
                None),
    {
        let now_ms: u64 = crate::time::current_time_nanos() / 1_000_000;
        self.add_log_at(now_ms, LogLevel::Debug, new_string(message), new_string("SYSTEM"), None);
        proof {
            assert(self.spec_logs().drop_last() =~= (if old(self).spec_logs().len()
                < LOG_BUFFER_MAX {
                old(self).spec_logs()
            } else {
                old(self).spec_logs().drop_first()
            }));
        }
    }

    /// Whether a fault of the given kind is active.
    pub fn has_fault_kind(&self, kind: FaultKind) -> (r: bool)
        ensures
            r == exists|i: int|
                0 <= i < self.spec_faults().len() && self.spec_faults()[i].spec_kind() == kind,
    {
        let mut i: usize = 0;
        while i < self.active_faults.len()
            invariant
                i <= self.active_faults@.len(),
                forall|j: int| 0 <= j < i ==> self.active_faults@[j].spec_kind() != kind,
            decreases self.active_faults@.len() - i,
        {
            if self.active_faults[i].kind() == kind {
                return true;
            }
            i = i + 1;
        }
        false
    }

    /// Register a fault and decide its recovery action. A fault whose
    /// kind is already active, or arriving when the fault set is full,
    /// is not stored again; the decision table still answers.
    pub fn add_fault(&mut self, fault: FaultType) -> (r: RecoveryAction)
        requires
            old(self).well_formed(),
        ensures
            final(self).well_formed(),
            ({
                let dup = exists|i: int|
                    0 <= i < old(self).spec_faults().len() && old(self).spec_faults()[
                        i].spec_kind() == fault.spec_kind();
                if !dup && old(self).spec_faults().len() < ACTIVE_FAULTS_MAX {
                    final(self).spec_faults() == old(self).spec_faults().push(fault)
                } else {
                    final(self).spec_faults() == old(self).spec_faults()
                }
            }),
            final(self).spec_logs() == old(self).spec_logs(),
            final(self).spec_health() == old(self).spec_health(),
            action_follows_table(fault, r),
    {
        let dup = self.has_fault_kind(fault.kind());
        let action = determine_recovery_action(&fault);
        if !dup && self.active_faults.len() < ACTIVE_FAULTS_MAX {
            self.active_faults.push(fault);
        }
        action
    }

    /// The log level a fault is reported at: hardware and power faults
    /// are critical, software and memory faults are errors, and
    /// communication and thermal faults are warnings.
    pub open spec fn spec_fault_log_level(kind: FaultKind) -> LogLevel {
        match kind {
            FaultKind::Hardware => LogLevel::Critical,
            FaultKind::Software => LogLevel::Error,
            FaultKind::Communication => LogLevel::Warning,
            FaultKind::Power => LogLevel::Critical,
            FaultKind::Thermal => LogLevel::Warning,
            FaultKind::Memory => LogLevel::Error,
        }
    }

    /// The log message a fault is reported with.
    pub open spec fn spec_fault_log_message(kind: FaultKind) -> Seq<char> {
        match kind {
            FaultKind::Hardware => "Hardware fault"@,
            FaultKind::Software => "Software fault"@,
            FaultKind::Communication => "Communication fault"@,
            FaultKind::Power => "Power fault"@,
            FaultKind::Thermal => "Thermal fault"@,
            FaultKind::Memory => "Memory fault"@,
        }
    }

    /// The code a fault's log entry carries: its error code, or the
    /// sensor number of a thermal fault.
    pub open spec fn spec_fault_code(fault: FaultType) -> Option<u32> {
        match fault {
            FaultType::Hardware { error_code, .. } => Some(error_code),
            FaultType::Software { error_code, .. } => Some(error_code),
            FaultType::Communication { error_code, .. } => Some(error_code),
            FaultType::Power { error_code, .. } => Some(error_code),
            FaultType::Thermal { sensor_id, .. } => Some(sensor_id as u32),
            FaultType::Memory { error_code, .. } => Some(error_code),
        }
    }

    /// Whether `post` is `pre` with exactly one log entry of the given
    /// level and text appended against the system component: the ring
    /// keeps its newest entries, the gauge drops by the level's
    /// decrement, the critical and warning counters advance, a critical
    /// entry resets the quiet timer, and nothing else changes. The
    /// entry's timestamp is the one thing the clock decides.
    pub open spec fn spec_logged(
        pre: ErrorHandler,
        post: ErrorHandler,
        level: LogLevel,
        message: Seq<char>,
        component: Seq<char>,
        code: Option<u32>,
    ) -> bool {
        &&& post.spec_faults() == pre.spec_faults()
        &&& post.spec_logs().len() > 0
        &&& post.spec_logs().drop_last() == (if pre.spec_logs().len() < LOG_BUFFER_MAX {
            pre.spec_logs()
        } else {
            pre.spec_logs().drop_first()
        })
        &&& post.spec_logs().last().level == level
        &&& post.spec_logs().last().message@ == message
        &&& post.spec_logs().last().component@ == component
        &&& post.spec_logs().last().error_code == code
        &&& post.spec_health().overall_health == sat_sub(
            pre.spec_health().overall_health,
            level_decrement(level),
        )
        &&& post.spec_health().critical_faults == (if level is Critical {
            if pre.spec_health().critical_faults < 255 {
                (pre.spec_health().critical_faults + 1) as u8
            } else {
                255u8
            }
        } else {
            pre.spec_health().critical_faults
        })
        &&& post.spec_health().warnings == (if level is Warning {
            if pre.spec_health().warnings < 255 {
                (pre.spec_health().warnings + 1) as u8
            } else {
                255u8
            }
        } else {
            pre.spec_health().warnings
        })
        &&& post.spec_health().time_since_critical == (if level is Critical {
            0u64
        } else {
            pre.spec_health().time_since_critical
        })
        &&& post.spec_health().is_safe_mode == pre.spec_health().is_safe_mode
    }

    /// Whether a fault of `fault`'s kind is active in `h`.
    pub open spec fn spec_has_kind(h: ErrorHandler, kind: FaultKind) -> bool {
        exists|i: int| 0 <= i < h.spec_faults().len() && h.spec_faults()[i].spec_kind() == kind
    }

    /// Whether handling `fault` turned `pre` into `post` and answered
    /// `r`: the action follows the decision table, the fault joins the
    /// active set unless its kind is already present or the set is
    /// full, and a log entry of the fault's level, message and code is
    /// appended against the fault component.
    pub open spec fn spec_fault_handled(
        pre: ErrorHandler,
        post: ErrorHandler,
        fault: FaultType,
        r: RecoveryAction,
    ) -> bool {
        &&& action_follows_table(fault, r)
        &&& (if !Self::spec_has_kind(pre, fault.spec_kind()) && pre.spec_faults().len()
            < ACTIVE_FAULTS_MAX {
            post.spec_faults() == pre.spec_faults().push(fault)
        } else {
            post.spec_faults() == pre.spec_faults()
        })
        &&& post.spec_logs().len() > 0
        &&& post.spec_logs().drop_last() == (if pre.spec_logs().len() < LOG_BUFFER_MAX {
            pre.spec_logs()
        } else {
            pre.spec_logs().drop_first()
        })
        &&& post.spec_logs().last().level == Self::spec_fault_log_level(fault.spec_kind())
        &&& post.spec_logs().last().message@ == Self::spec_fault_log_message(fault.spec_kind())
        &&& post.spec_logs().last().component@ == "FAULT"@
        &&& post.spec_logs().last().error_code == Self::spec_fault_code(fault)
        &&& post.spec_health().overall_health == sat_sub(
            pre.spec_health().overall_health,
            level_decrement(Self::spec_fault_log_level(fault.spec_kind())),
        )
        &&& post.spec_health().is_safe_mode == pre.spec_health().is_safe_mode
    }

    /// Handle a system fault at the given time: log it at the level its
    /// kind warrants, register it in the active set, and answer with
    /// the recovery action of the decision table.
    pub fn handle_fault_at(&mut self, now_ms: u64, fault: FaultType) -> (r: RecoveryAction)
        requires
            old(self).well_formed(),
        ensures
            final(self).well_formed(),
            Self::spec_fault_handled(*old(self), *final(self), fault, r),
            final(self).spec_logs().last().timestamp == now_ms,
    {
        let level = match fault.kind() {
            FaultKind::Hardware => LogLevel::Critical,
            FaultKind::Software => LogLevel::Error,
            FaultKind::Communication => LogLevel::Warning,
            FaultKind::Power => LogLevel::Critical,
            FaultKind::Thermal => LogLevel::Warning,
            FaultKind::Memory => LogLevel::Error,
        };
        let message = match &fault {
            FaultType::Hardware { .. } => "Hardware fault",
            FaultType::Software { .. } => "Software fault",
            FaultType::Communication { .. } => "Communication fault",
            FaultType::Power { .. } => "Power fault",
            FaultType::Thermal { .. } => "Thermal fault",
            FaultType::Memory { .. } => "Memory fault",
        };
        let code: Option<u32> = match &fault {
            FaultType::Hardware { error_code, .. } => Some(*error_code),
            FaultType::Software { error_code, .. } => Some(*error_code),
            FaultType::Communication { error_code, .. } => Some(*error_code),
            FaultType::Power { error_code, .. } => Some(*error_code),
            FaultType::Thermal { sensor_id, .. } => Some(*sensor_id as u32),
            FaultType::Memory { error_code, .. } => Some(*error_code),
        };
        self.add_log_at(now_ms, level, new_string(message), new_string("FAULT"), code);
        proof {
            assert(self.spec_logs().drop_last() =~= (if old(self).spec_logs().len()
                < LOG_BUFFER_MAX {
                old(self).spec_logs()
            } else {
                old(self).spec_logs().drop_first()
            }));
        }
        self.add_fault(fault)
    }

    /// Handle a system fault against the current wall clock. Only the
    /// log entry's timestamp depends on the clock; everything else is
    /// pinned by `spec_fault_handled`.
    pub fn handle_fault(&mut self, fault: FaultType) -> (r: RecoveryAction)
        requires
            old(self).well_formed(),
        ensures
            final(self).well_formed(),
            Self::spec_fault_handled(*old(self), *final(self), fault, r),
    {
        let now_ms: u64 = crate::time::current_time_nanos() / 1_000_000;
        self.handle_fault_at(now_ms, fault)
    }

    /// Resolve a fault: remove every active fault of its kind and note
    /// the resolution in the log.
    pub fn resolve_fault(&mut self, fault: &FaultType)
        requires
            old(self).well_formed(),
        ensures
            final(self).well_formed(),
            final(self).spec_faults() == old(self).spec_faults().filter(keeps_kind(
                fault.spec_kind())),
            final(self).spec_logs().len() > 0 && final(self).spec_logs().last().level
                == LogLevel::Info && final(self).spec_logs().last().message@
                == "Fault resolved"@ && final(self).spec_logs().last().component@ == "FAULT"@,
    {
        self.remove_fault(fault);
        let now_ms: u64 = crate::time::current_time_nanos() / 1_000_000;
        self.add_log_at(now_ms, LogLevel::Info, new_string("Fault resolved"), new_string(
            "FAULT"), None);
    }

    /// Remove every active fault of the given fault's kind. When the
    /// last active fault clears, the health gauge recovers ten points,
    /// capped at 100.
    pub fn remove_fault(&mut self, fault: &FaultType)
        requires
            old(self).well_formed(),
        ensures
            final(self).well_formed(),
            final(self).spec_faults() == old(self).spec_faults().filter(keeps_kind(
                fault.spec_kind())),
            final(self).spec_logs() == old(self).spec_logs(),
            final(self).spec_health().overall_health == if final(self).spec_faults().len() == 0 {
                if old(self).spec_health().overall_health + 10 <= 100 {
                    (old(self).spec_health().overall_health + 10) as u8
                } else {
                    100u8
                }
            } else {
                old(self).spec_health().overall_health
            },
            final(self).spec_health().critical_faults == old(self).spec_health().critical_faults,
            final(self).spec_health().warnings == old(self).spec_health().warnings,
            final(self).spec_health().time_since_critical == old(
                self).spec_health().time_since_critical,
            final(self).spec_health().is_safe_mode == old(self).spec_health().is_safe_mode,
    {
        let kind = fault.kind();
        let ghost pred = keeps_kind(fault.spec_kind());
        let mut kept: Vec<FaultType> = Vec::new();
        let mut i: usize = 0;
        proof {
            reveal(Seq::filter);
            assert(self.active_faults@.subrange(0, 0).filter(pred) =~= kept@);
        }
        while i < self.active_faults.len()
            invariant
                i <= self.active_faults@.len(),
                kept@ =~= self.active_faults@.subrange(0, i as int).filter(pred),
                kept@.len() <= i,
                pred == keeps_kind(fault.spec_kind()),
                kind == fault.spec_kind(),
            decreases self.active_faults@.len() - i,
        {
            let f = &self.active_faults[i];
            let keep = !(f.kind() == kind);
            proof {
                reveal(Seq::filter);
                let pre = self.active_faults@.subrange(0, i as int);
                let cur = self.active_faults@.subrange(0, i + 1);
                assert(cur.drop_last() =~= pre);
                assert(cur.last() == self.active_faults@[i as int]);
                assert(cur.filter(pred) =~= if pred(cur.last()) {
                    pre.filter(pred).push(cur.last())
                } else {
                    pre.filter(pred)
                });
            }
            if keep {
                kept.push(clone_fault(f));
            }
            i = i + 1;
        }
        proof {
            assert(self.active_faults@.subrange(0, self.active_faults@.len() as int)
                =~= self.active_faults@);
            self.active_faults@.lemma_filter_len(pred);
        }
        self.active_faults = kept;
        if self.active_faults.len() == 0 {
            self.system_health.overall_health = if self.system_health.overall_health + 10 <= 100 {
                self.system_health.overall_health + 10
            } else {
                100
            };
        }
    }

    /// The health summary.
    pub fn get_health(&self) -> (r: &SystemHealth)
        ensures
            *r == self.spec_health(),
    {
        &self.system_health
    }

    /// The most recent `count` log entries, oldest first.
    pub fn get_recent_logs(&self, count: usize) -> (r: &[LogEntry])
        ensures
            r@ == if count >= self.spec_logs().len() {
                self.spec_logs()
            } else {
                self.spec_logs().subrange(
                    self.spec_logs().len() - count,
                    self.spec_logs().len() as int,
                )
            },
    {
        let len = self.log_buffer.len();
        let start = if len >= count {
            len - count
        } else {
            0
        };
        slice_subrange(self.log_buffer.as_slice(), start, len)
    }

    /// The active faults.
    pub fn get_active_faults(&self) -> (r: &[FaultType])
        ensures
            r@ == self.spec_faults(),
    {
        self.active_faults.as_slice()
    }

    /// One housekeeping tick: the critical timer advances, health
    /// recovers one point per tick after 3600 quiet ticks, and the
    /// critical and warning counters reset after 86400 quiet ticks.
    pub fn update_health(&mut self)
        requires
            old(self).well_formed(),
        ensures
            final(self).well_formed(),
            final(self).spec_logs() == old(self).spec_logs(),
            final(self).spec_faults() == old(self).spec_faults(),
            ({
                let t = if old(self).spec_health().time_since_critical < u64::MAX {
                    (old(self).spec_health().time_since_critical + 1) as u64
                } else {
                    u64::MAX
                };
                &&& final(self).spec_health().time_since_critical == t
                &&& final(self).spec_health().overall_health == if t > 3600 && old(
                    self).spec_health().overall_health < 100 {
                    (old(self).spec_health().overall_health + 1) as u8
                } else {
                    old(self).spec_health().overall_health
                }
                &&& final(self).spec_health().critical_faults == if t > 86400 {
                    0u8
                } else {
                    old(self).spec_health().critical_faults
                }
                &&& final(self).spec_health().warnings == if t > 86400 {
                    0u8
                } else {
                    old(self).spec_health().warnings
                }
            }),
            final(self).spec_health().is_safe_mode == old(self).spec_health().is_safe_mode,
    {
        self.system_health.time_since_critical = if self.system_health.time_since_critical
            < u64::MAX {
            self.system_health.time_since_critical + 1
        } else {
            u64::MAX
        };
        if self.system_health.time_since_critical > 3600
            && self.system_health.overall_health < 100 {
            self.system_health.overall_health = self.system_health.overall_health + 1;
        }
        if self.system_health.time_since_critical > 86400 {
            self.system_health.critical_faults = 0;
            self.system_health.warnings = 0;
        }
    }

    /// Mark the system as in or out of safe mode.
    pub fn set_safe_mode(&mut self, on: bool)
        requires
            old(self).well_formed(),
        ensures
            final(self).well_formed(),
            final(self).spec_health() == (SystemHealth {
                is_safe_mode: on,
                ..old(self).spec_health()
            }),
            final(self).spec_logs() == old(self).spec_logs(),
            final(self).spec_faults() == old(self).spec_faults(),
    {
        self.system_health.is_safe_mode = on;
    }

    /// Apply the state change a recovery action demands of the fault
    /// manager: entering safe mode raises the safe-mode flag, and an
    /// emergency shutdown is reported as an error for the caller to
    /// carry out. Restarts, backup switches and power cycles change
    /// nothing here; performing them is the caller's work.
    pub fn apply_recovery_action(&mut self, action: &RecoveryAction) -> (r: Result<
        (),
        &'static str,
    >)
        requires
            old(self).well_formed(),
        ensures
            final(self).well_formed(),
            r is Ok <==> !(action is EmergencyShutdown),
            action is EmergencyShutdown ==> r == Err::<(), &'static str>(
                "Emergency shutdown initiated"),
            final(self).spec_health() == (SystemHealth {
                is_safe_mode: old(self).spec_health().is_safe_mode || action is SafeMode,
                ..old(self).spec_health()
            }),
            final(self).spec_logs() == old(self).spec_logs(),
            final(self).spec_faults() == old(self).spec_faults(),
    {
        match action {
            RecoveryAction::SafeMode => {
                self.system_health.is_safe_mode = true;
                Ok(())
            },
            RecoveryAction::EmergencyShutdown => Err("Emergency shutdown initiated"),
            _ => Ok(()),
        }
    }

    /// Choose the recovery for a stack error by its severity: a critical
    /// error sends the system to safe mode, a high-severity error
    /// restarts the communication component, and anything milder needs
    /// no action.
    pub fn handle_space_comm_error(&mut self, error: &SpaceCommError) -> (r: RecoveryAction)
        requires
            old(self).well_formed(),
        ensures
            final(self).well_formed(),
            error.spec_severity() is Critical ==> r is SafeMode,
            error.spec_severity() is High ==> (r matches RecoveryAction::RestartComponent(c) && c@
                == "COMM"@),
            error.spec_severity() is Medium || error.spec_severity() is Low ==> r is NoAction,
            final(self).spec_faults() == old(self).spec_faults(),
    {
        let severity = error.severity();
        match severity {
            ErrorSeverity::Critical => {
                self.log_critical("Critical communication stack error");
                RecoveryAction::SafeMode
            },
            ErrorSeverity::High => {
                self.log_error("High severity communication stack error");
                RecoveryAction::RestartComponent(new_string("COMM"))
            },
            ErrorSeverity::Medium => {
                self.log_warning("Medium severity communication stack error");
                RecoveryAction::NoAction
            },
            ErrorSeverity::Low => {
                self.log_info("Low severity communication stack error");
                RecoveryAction::NoAction
            },
        }
    }

    /// A one-line status summary: excellent from 90 health, good from
    /// 70, degraded from 50, critical below.
    pub fn get_system_status(&self) -> (r: String)
        ensures
            r@ =~= "System Status: "@ + (if self.spec_health().overall_health >= 90 {
                "EXCELLENT"@
            } else if self.spec_health().overall_health >= 70 {
                "GOOD"@
            } else if self.spec_health().overall_health >= 50 {
                "DEGRADED"@
            } else {
                "CRITICAL"@
            }),
    {
        let mut s = new_string("System Status: ");
        if self.system_health.overall_health >= 90 {
            crate::error::append_str(&mut s, "EXCELLENT");
        } else if self.system_health.overall_health >= 70 {
            crate::error::append_str(&mut s, "GOOD");
        } else if self.system_health.overall_health >= 50 {
            crate::error::append_str(&mut s, "DEGRADED");
        } else {
            crate::error::append_str(&mut s, "CRITICAL");
        }
        s
    }
}

/// The predicate that keeps every fault whose kind differs from `k`.
pub open spec fn keeps_kind(k: FaultKind) -> spec_fn(FaultType) -> bool {
    |f: FaultType| f.spec_kind() != k
}

/// Relies on the derived FaultType::clone: the copy holds the same
/// fields.
#[verifier::external_body]
pub(crate) fn clone_fault(f: &FaultType) -> (r: FaultType)
    ensures
        r == *f,
{
    f.clone()
}

} // verus!
