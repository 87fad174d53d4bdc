//! Tests for the fault manager: the recovery decision table, the health
//! gauge, and the log ring.

use space_comms::error::{MemoryErrorType, SpaceCommError};
use space_comms::fault::{
    determine_recovery_action, ErrorHandler, FaultType, LogLevel, RecoveryAction,
};
use space_comms::types::{BandType, HealthStatus};

#[test]
fn hardware_fault_table() {
    let shutdown = FaultType::Hardware { component: "radio".to_string(), error_code: 1000 };
    assert!(matches!(determine_recovery_action(&shutdown), RecoveryAction::EmergencyShutdown));

    let cycle = FaultType::Hardware { component: "radio".to_string(), error_code: 500 };
    match determine_recovery_action(&cycle) {
        RecoveryAction::PowerCycle(c) => assert_eq!(c, "radio"),
        _ => panic!("expected a power cycle"),
    }

    let restart = FaultType::Hardware { component: "radio".to_string(), error_code: 499 };
    assert!(matches!(determine_recovery_action(&restart), RecoveryAction::RestartComponent(_)));
}

#[test]
fn software_fault_table() {
    let safe = FaultType::Software { module: "nav".to_string(), error_code: 900 };
    assert!(matches!(determine_recovery_action(&safe), RecoveryAction::SafeMode));
    let restart = FaultType::Software { module: "nav".to_string(), error_code: 899 };
    match determine_recovery_action(&restart) {
        RecoveryAction::RestartComponent(c) => assert_eq!(c, "nav"),
        _ => panic!("expected a restart"),
    }
}

#[test]
fn communication_fault_table() {
    let backup = FaultType::Communication { band: BandType::KBand, error_code: 800 };
    assert!(matches!(
        determine_recovery_action(&backup),
        RecoveryAction::SwitchToBackup(BandType::KBand)
    ));
    let restart = FaultType::Communication { band: BandType::KBand, error_code: 799 };
    match determine_recovery_action(&restart) {
        RecoveryAction::RestartComponent(c) => assert_eq!(c, "K"),
        _ => panic!("expected a restart"),
    }
}

#[test]
fn power_fault_table() {
    let shutdown = FaultType::Power { subsystem: "bus".to_string(), error_code: 700 };
    assert!(matches!(determine_recovery_action(&shutdown), RecoveryAction::EmergencyShutdown));
    let cycle = FaultType::Power { subsystem: "bus".to_string(), error_code: 699 };
    assert!(matches!(determine_recovery_action(&cycle), RecoveryAction::PowerCycle(_)));
}

#[test]
fn thermal_fault_table() {
    let hot = FaultType::Thermal { sensor_id: 1, temperature_c: 81 };
    assert!(matches!(determine_recovery_action(&hot), RecoveryAction::EmergencyShutdown));
    let cold = FaultType::Thermal { sensor_id: 1, temperature_c: -51 };
    assert!(matches!(determine_recovery_action(&cold), RecoveryAction::EmergencyShutdown));
    let warm = FaultType::Thermal { sensor_id: 1, temperature_c: 71 };
    assert!(matches!(determine_recovery_action(&warm), RecoveryAction::SafeMode));
    let chilly = FaultType::Thermal { sensor_id: 1, temperature_c: -41 };
    assert!(matches!(determine_recovery_action(&chilly), RecoveryAction::SafeMode));
    let fine = FaultType::Thermal { sensor_id: 1, temperature_c: 20 };
    assert!(matches!(determine_recovery_action(&fine), RecoveryAction::NoAction));
}

#[test]
fn memory_fault_table() {
    let safe = FaultType::Memory { address: Some(0x1000), error_code: 600 };
    assert!(matches!(determine_recovery_action(&safe), RecoveryAction::SafeMode));
    let benign = FaultType::Memory { address: None, error_code: 599 };
    assert!(matches!(determine_recovery_action(&benign), RecoveryAction::NoAction));
}

#[test]
fn health_gauge_decrements() {
    let mut handler = ErrorHandler::new();
    assert_eq!(handler.get_health().overall_health, 100);

    handler.add_log_at(0, LogLevel::Critical, "c".to_string(), "T".to_string(), None);
    assert_eq!(handler.get_health().overall_health, 80);
    assert_eq!(handler.get_health().critical_faults, 1);
    assert_eq!(handler.get_health().time_since_critical, 0);

    handler.add_log_at(1, LogLevel::Error, "e".to_string(), "T".to_string(), None);
    assert_eq!(handler.get_health().overall_health, 70);

    handler.add_log_at(2, LogLevel::Warning, "w".to_string(), "T".to_string(), None);
    assert_eq!(handler.get_health().overall_health, 68);
    assert_eq!(handler.get_health().warnings, 1);

    handler.add_log_at(3, LogLevel::Info, "i".to_string(), "T".to_string(), None);
    handler.add_log_at(4, LogLevel::Debug, "d".to_string(), "T".to_string(), None);
    assert_eq!(handler.get_health().overall_health, 68);
    assert_eq!(handler.get_recent_logs(10).len(), 5);
}

#[test]
fn health_gauge_saturates_at_zero() {
    let mut handler = ErrorHandler::new();
    for i in 0..10 {
        handler.add_log_at(i, LogLevel::Critical, "c".to_string(), "T".to_string(), None);
    }
    assert_eq!(handler.get_health().overall_health, 0);
    assert_eq!(handler.get_health().status(), HealthStatus::Critical);
}

#[test]
fn health_status_thresholds() {
    let mut handler = ErrorHandler::new();
    assert_eq!(handler.get_health().status(), HealthStatus::Excellent);
    handler.add_log_at(0, LogLevel::Critical, "c".to_string(), "T".to_string(), None);
    assert_eq!(handler.get_health().status(), HealthStatus::Good); // 80
    handler.add_log_at(1, LogLevel::Error, "e".to_string(), "T".to_string(), None);
    assert_eq!(handler.get_health().status(), HealthStatus::Good); // 70
    handler.add_log_at(2, LogLevel::Critical, "c".to_string(), "T".to_string(), None);
    assert_eq!(handler.get_health().status(), HealthStatus::Fair); // 50
    handler.add_log_at(3, LogLevel::Critical, "c".to_string(), "T".to_string(), None);
    assert_eq!(handler.get_health().status(), HealthStatus::Poor); // 30
    handler.add_log_at(4, LogLevel::Error, "e".to_string(), "T".to_string(), None);
    assert_eq!(handler.get_health().status(), HealthStatus::Critical); // 20
}

#[test]
fn fault_set_deduplicates_by_kind() {
    let mut handler = ErrorHandler::new();
    handler.add_fault(FaultType::Thermal { sensor_id: 1, temperature_c: 75 });
    handler.add_fault(FaultType::Thermal { sensor_id: 2, temperature_c: 76 });
    assert_eq!(handler.get_active_faults().len(), 1);
    handler.add_fault(FaultType::Memory { address: None, error_code: 10 });
    assert_eq!(handler.get_active_faults().len(), 2);
}

#[test]
fn clearing_last_fault_recovers_health() {
    let mut handler = ErrorHandler::new();
    handler.add_log_at(0, LogLevel::Critical, "c".to_string(), "T".to_string(), None);
    assert_eq!(handler.get_health().overall_health, 80);
    handler.add_fault(FaultType::Thermal { sensor_id: 1, temperature_c: 75 });
    handler.remove_fault(&FaultType::Thermal { sensor_id: 1, temperature_c: 75 });
    assert_eq!(handler.get_active_faults().len(), 0);
    assert_eq!(handler.get_health().overall_health, 90);
}

#[test]
fn quiet_hours_recover_health() {
    let mut handler = ErrorHandler::new();
    handler.add_log_at(0, LogLevel::Error, "e".to_string(), "T".to_string(), None);
    assert_eq!(handler.get_health().overall_health, 90);
    for _ in 0..3601 {
        handler.update_health();
    }
    assert_eq!(handler.get_health().overall_health, 91);
}

#[test]
fn log_ring_drops_oldest() {
    let mut handler = ErrorHandler::new();
    for i in 0..300u64 {
        handler.add_log_at(i, LogLevel::Info, format!("entry {}", i), "T".to_string(), None);
    }
    let logs = handler.get_recent_logs(1000);
    assert_eq!(logs.len(), 256);
    assert_eq!(logs[0].timestamp, 44); // the first 44 entries were dropped
    assert_eq!(logs[255].timestamp, 299);
    let tail = handler.get_recent_logs(3);
    assert_eq!(tail.len(), 3);
    assert_eq!(tail[0].timestamp, 297);
}

#[test]
fn stack_error_recovery_by_severity() {
    let mut handler = ErrorHandler::new();
    let critical = SpaceCommError::memory_error(MemoryErrorType::OutOfMemory, None);
    assert!(matches!(handler.handle_space_comm_error(&critical), RecoveryAction::SafeMode));
    let low = SpaceCommError::communication_timeout(10, "op");
    assert!(matches!(handler.handle_space_comm_error(&low), RecoveryAction::NoAction));
}

#[test]
fn system_status_text() {
    let mut handler = ErrorHandler::new();
    assert_eq!(handler.get_system_status(), "System Status: EXCELLENT");
    handler.add_log_at(0, LogLevel::Critical, "c".to_string(), "T".to_string(), None);
    assert_eq!(handler.get_system_status(), "System Status: GOOD");
    handler.add_log_at(1, LogLevel::Critical, "c".to_string(), "T".to_string(), None);
    assert_eq!(handler.get_system_status(), "System Status: DEGRADED");
    handler.add_log_at(2, LogLevel::Critical, "c".to_string(), "T".to_string(), None);
    assert_eq!(handler.get_system_status(), "System Status: CRITICAL");
}

#[test]
fn handle_fault_logs_and_registers() {
    let mut handler = ErrorHandler::new();
    let action =
        handler.handle_fault_at(5, FaultType::Hardware { component: "radio".to_string(), error_code: 1200 });
    assert!(matches!(action, RecoveryAction::EmergencyShutdown));
    assert_eq!(handler.get_active_faults().len(), 1);
    let logs = handler.get_recent_logs(1);
    assert_eq!(logs[0].timestamp, 5);
    assert_eq!(logs[0].level, LogLevel::Critical);
    assert_eq!(logs[0].error_code, Some(1200));
    // A critical log entry costs 20 health points.
    assert_eq!(handler.get_health().overall_health, 80);
}

#[test]
fn resolve_fault_clears_and_logs() {
    let mut handler = ErrorHandler::new();
    handler.handle_fault_at(0, FaultType::Memory { address: None, error_code: 650 });
    assert_eq!(handler.get_active_faults().len(), 1);
    handler.resolve_fault(&FaultType::Memory { address: None, error_code: 650 });
    assert_eq!(handler.get_active_faults().len(), 0);
    let logs = handler.get_recent_logs(1);
    assert_eq!(logs[0].level, LogLevel::Info);
}

#[test]
fn add_fault_returns_table_action() {
    let mut handler = ErrorHandler::new();
    let a1 = handler.add_fault(FaultType::Power { subsystem: "bus".to_string(), error_code: 750 });
    assert!(matches!(a1, RecoveryAction::EmergencyShutdown));
    let a2 = handler.add_fault(FaultType::Software { module: "nav".to_string(), error_code: 100 });
    match a2 {
        RecoveryAction::RestartComponent(c) => assert_eq!(c, "nav"),
        _ => panic!("expected a restart"),
    }
}

#[test]
fn apply_recovery_action_outcomes() {
    let mut handler = ErrorHandler::new();
    assert!(!handler.get_health().is_safe_mode);
    assert!(handler.apply_recovery_action(&RecoveryAction::NoAction).is_ok());
    assert!(handler
        .apply_recovery_action(&RecoveryAction::RestartComponent("nav".to_string()))
        .is_ok());
    assert!(handler
        .apply_recovery_action(&RecoveryAction::SwitchToBackup(BandType::XBand))
        .is_ok());
    assert!(handler.apply_recovery_action(&RecoveryAction::PowerCycle("bus".to_string())).is_ok());
    assert!(!handler.get_health().is_safe_mode);

    assert!(handler.apply_recovery_action(&RecoveryAction::SafeMode).is_ok());
    assert!(handler.get_health().is_safe_mode);

    let r = handler.apply_recovery_action(&RecoveryAction::EmergencyShutdown);
    assert_eq!(r, Err("Emergency shutdown initiated"));
    // Safe mode stays on; nothing else changed.
    assert!(handler.get_health().is_safe_mode);
    assert_eq!(handler.get_health().overall_health, 100);
}

#[test]
fn log_methods_pin_entry_and_gauge() {
    let mut handler = ErrorHandler::new();
    handler.log_critical("thermal runaway");
    let logs = handler.get_recent_logs(1);
    assert_eq!(logs[0].level, LogLevel::Critical);
    assert_eq!(logs[0].message, "thermal runaway");
    assert_eq!(logs[0].component, "SYSTEM");
    assert_eq!(logs[0].error_code, None);
    assert_eq!(handler.get_health().overall_health, 80);
    assert_eq!(handler.get_health().time_since_critical, 0);

    handler.log_warning("link flapping");
    assert_eq!(handler.get_health().overall_health, 78);
    assert_eq!(handler.get_health().warnings, 1);

    handler.log_debug("tick");
    assert_eq!(handler.get_health().overall_health, 78);
    assert_eq!(handler.get_recent_logs(10).len(), 3);
}

#[test]
fn handle_fault_pins_log_entry() {
    let mut handler = ErrorHandler::new();
    let action =
        handler.handle_fault(FaultType::Thermal { sensor_id: 9, temperature_c: 75 });
    assert!(matches!(action, RecoveryAction::SafeMode));
    let logs = handler.get_recent_logs(1);
    assert_eq!(logs[0].level, LogLevel::Warning);
    assert_eq!(logs[0].message, "Thermal fault");
    assert_eq!(logs[0].component, "FAULT");
    assert_eq!(logs[0].error_code, Some(9));
    assert_eq!(handler.get_active_faults().len(), 1);
}
