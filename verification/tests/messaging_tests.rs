//! Tests for priorities, messages and payloads.

use space_comms::messaging::{Message, MessagePayload, MessagePriority, QueueStatistics};
use space_comms::types::{BandType, ComponentId, MessageId};

#[test]
fn messaging_test_priority_ordering() {
    assert!(MessagePriority::Emergency > MessagePriority::Critical);
    assert!(MessagePriority::Critical > MessagePriority::High);
    assert!(MessagePriority::High > MessagePriority::Medium);
    assert!(MessagePriority::Medium > MessagePriority::Low);
}

#[test]
fn test_message_creation() {
    let message = Message {
        id: MessageId::new(1),
        priority: MessagePriority::High,
        source: ComponentId::new(1),
        destination: ComponentId::new(2),
        timestamp: 0,
        payload: MessagePayload::Command {
            command_id: 0x1001,
            parameters: vec![0x01, 0x02, 0x03],
        },
        preferred_band: BandType::SBand,
        ttl_seconds: 0,
        retry_count: 0,
        max_retries: 3,
    };

    assert_eq!(message.id.value(), 1);
    assert_eq!(message.priority, MessagePriority::High);

    if let MessagePayload::Command { command_id, parameters } = &message.payload {
        assert_eq!(*command_id, 0x1001);
        assert_eq!(parameters.len(), 3);
    } else {
        panic!("Expected Command payload");
    }
}

#[test]
fn latency_budgets() {
    assert_eq!(MessagePriority::Low.max_latency_ms(), 10000);
    assert_eq!(MessagePriority::Medium.max_latency_ms(), 1000);
    assert_eq!(MessagePriority::High.max_latency_ms(), 100);
    assert_eq!(MessagePriority::Critical.max_latency_ms(), 10);
    assert_eq!(MessagePriority::Emergency.max_latency_ms(), 1);
}

#[test]
fn frequency_envelopes() {
    assert_eq!(MessagePriority::Low.max_frequency_hz(), 10);
    assert_eq!(MessagePriority::Medium.max_frequency_hz(), 100);
    assert_eq!(MessagePriority::High.max_frequency_hz(), 500);
    assert_eq!(MessagePriority::Critical.max_frequency_hz(), 1000);
    assert_eq!(MessagePriority::Emergency.max_frequency_hz(), 2000);
}

#[test]
fn real_time_priorities() {
    assert!(!MessagePriority::Low.is_real_time());
    assert!(!MessagePriority::Medium.is_real_time());
    assert!(!MessagePriority::High.is_real_time());
    assert!(MessagePriority::Critical.is_real_time());
    assert!(MessagePriority::Emergency.is_real_time());
}

#[test]
fn payload_sizes() {
    let raw = MessagePayload::Raw { data: vec![1, 2, 3, 4] };
    assert_eq!(raw.size(), 4);
    assert!(!raw.is_empty());

    let empty = MessagePayload::Raw { data: vec![] };
    assert!(empty.is_empty());

    let status = MessagePayload::Status { status_code: 7, message: "ok now".to_string() };
    assert_eq!(status.size(), 6);

    let emergency = MessagePayload::Emergency {
        alert_level: 9,
        description: "abc".to_string(),
        data: vec![0; 10],
    };
    assert_eq!(emergency.size(), 13);

    let telemetry = MessagePayload::Telemetry { data: vec![0; 20], format: 1 };
    assert_eq!(telemetry.size(), 20);

    let command = MessagePayload::Command { command_id: 1, parameters: vec![0; 5] };
    assert_eq!(command.size(), 5);
}

#[test]
fn message_expiry_threshold() {
    let mut m = Message {
        id: MessageId::new(1),
        priority: MessagePriority::Medium,
        source: ComponentId::new(1),
        destination: ComponentId::new(2),
        timestamp: 10_000_000_000, // created at t = 10 s
        payload: MessagePayload::Raw { data: vec![] },
        preferred_band: BandType::SBand,
        ttl_seconds: 5,
        retry_count: 0,
        max_retries: 1,
    };
    assert!(!m.is_expired_at(14)); // age 4 < 5
    assert!(m.is_expired_at(15)); // age 5 >= 5
    assert!(m.is_expired_at(100));
    m.ttl_seconds = 0;
    assert!(!m.is_expired_at(100)); // zero TTL never expires
}

#[test]
fn utilization_handles_zero_capacity() {
    let stats = QueueStatistics::default();
    assert_eq!(stats.utilization_percent(), 0);
    let stats2 = QueueStatistics { total: 19, capacity: 20, ..QueueStatistics::default() };
    assert_eq!(stats2.utilization_percent(), 95);
    assert!(stats2.is_near_capacity(90));
    assert!(!stats2.is_near_capacity(96));
}

#[test]
fn test_message_processing_performance() {
    let start = std::time::Instant::now();

    for i in 0..1000u64 {
        let message = Message {
            id: MessageId::new(i),
            priority: MessagePriority::Medium,
            source: ComponentId::new(1),
            destination: ComponentId::new(2),
            timestamp: 0,
            payload: MessagePayload::Command {
                command_id: i as u32,
                parameters: vec![0x01, 0x02, 0x03, 0x04],
            },
            preferred_band: BandType::SBand,
            ttl_seconds: 0,
            retry_count: 0,
            max_retries: 1,
        };
        assert_eq!(message.id.value(), i);
    }

    let duration = start.elapsed();
    println!("Message processing time for 1000 messages: {:?}", duration);
    assert!(duration.as_millis() < 10);
}
