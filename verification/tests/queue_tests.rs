//! Tests for the priority queue: ordering, FIFO within a priority,
//! capacity, statistics, and TTL expiry.

use space_comms::messaging::{Message, MessagePayload, MessagePriority};
use space_comms::queue::PriorityQueue;
use space_comms::types::{BandType, ComponentId, MessageId};

fn create_test_message(priority: MessagePriority, id: u64) -> Message {
    Message {
        id: MessageId::new(id),
        priority,
        source: ComponentId::new(1),
        destination: ComponentId::new(2),
        timestamp: 0,
        payload: MessagePayload::Raw { data: Vec::new() },
        preferred_band: BandType::SBand,
        ttl_seconds: 0,
        retry_count: 0,
        max_retries: 3,
    }
}

#[test]
fn test_priority_queue() {
    let mut queue: PriorityQueue<10> = PriorityQueue::new();

    // Add messages in random order
    queue.push(create_test_message(MessagePriority::Low, 1)).unwrap();
    queue.push(create_test_message(MessagePriority::Emergency, 2)).unwrap();
    queue.push(create_test_message(MessagePriority::Medium, 3)).unwrap();

    // Should pop in priority order
    assert_eq!(queue.pop().unwrap().priority, MessagePriority::Emergency);
    assert_eq!(queue.pop().unwrap().priority, MessagePriority::Medium);
    assert_eq!(queue.pop().unwrap().priority, MessagePriority::Low);
}

#[test]
fn test_fifo_within_priority() {
    let mut queue: PriorityQueue<10> = PriorityQueue::new();

    // Add multiple messages with same priority
    queue.push(create_test_message(MessagePriority::High, 1)).unwrap();
    queue.push(create_test_message(MessagePriority::High, 2)).unwrap();
    queue.push(create_test_message(MessagePriority::High, 3)).unwrap();

    // Should pop in FIFO order (first added, first out)
    assert_eq!(queue.pop().unwrap().id.value(), 1);
    assert_eq!(queue.pop().unwrap().id.value(), 2);
    assert_eq!(queue.pop().unwrap().id.value(), 3);
}

#[test]
fn test_queue_capacity() {
    let mut queue: PriorityQueue<2> = PriorityQueue::new();

    assert!(queue.push(create_test_message(MessagePriority::Low, 1)).is_ok());
    assert!(queue.push(create_test_message(MessagePriority::Low, 2)).is_ok());

    // Third message should fail
    assert!(queue.push(create_test_message(MessagePriority::Low, 3)).is_err());
}

#[test]
fn test_queue_statistics() {
    let mut queue: PriorityQueue<10> = PriorityQueue::new();

    queue.push(create_test_message(MessagePriority::Low, 1)).unwrap();
    queue.push(create_test_message(MessagePriority::High, 2)).unwrap();
    queue.push(create_test_message(MessagePriority::Emergency, 3)).unwrap();

    let stats = queue.statistics();
    assert_eq!(stats.total, 3);
    assert_eq!(stats.low_priority, 1);
    assert_eq!(stats.high_priority, 1);
    assert_eq!(stats.emergency_priority, 1);
    assert_eq!(stats.utilization_percent(), 30);
}

#[test]
fn priority_order_over_interleavings() {
    // Whatever the push interleaving, successive pops never rise in
    // priority, and within one priority they follow push order.
    let pushes = [
        (MessagePriority::Medium, 1u64),
        (MessagePriority::Low, 2),
        (MessagePriority::Emergency, 3),
        (MessagePriority::Medium, 4),
        (MessagePriority::Critical, 5),
        (MessagePriority::Low, 6),
        (MessagePriority::Emergency, 7),
        (MessagePriority::High, 8),
    ];
    let mut queue: PriorityQueue<16> = PriorityQueue::new();
    for (p, id) in pushes {
        queue.push(create_test_message(p, id)).unwrap();
    }
    let mut popped: Vec<Message> = Vec::new();
    while let Some(m) = queue.pop() {
        popped.push(m);
    }
    assert_eq!(popped.len(), pushes.len());
    for w in popped.windows(2) {
        assert!(w[0].priority >= w[1].priority);
        if w[0].priority == w[1].priority {
            // Ids mark push order here.
            assert!(w[0].id.value() < w[1].id.value());
        }
    }
    let ids: Vec<u64> = popped.iter().map(|m| m.id.value()).collect();
    assert_eq!(ids, vec![3, 7, 5, 8, 1, 4, 2, 6]);
}

#[test]
fn scenario_queue_full_emergency() {
    // Fill the queue with 100 Low messages at capacity 100; a further
    // push is refused explicitly, nothing is evicted silently.
    let mut queue: PriorityQueue<100> = PriorityQueue::new();
    for i in 0..100 {
        queue.push(create_test_message(MessagePriority::Low, i)).unwrap();
    }
    let r = queue.push(create_test_message(MessagePriority::Emergency, 1000));
    assert!(r.is_err());
    assert_eq!(queue.len(), 100);

    // A higher layer admits the emergency by dropping one message first.
    let _ = queue.pop();
    assert!(queue.push(create_test_message(MessagePriority::Emergency, 1000)).is_ok());
    assert_eq!(queue.pop().unwrap().priority, MessagePriority::Emergency);
}

fn message_with_ttl(id: u64, timestamp_s: u64, ttl_seconds: u32) -> Message {
    let mut m = create_test_message(MessagePriority::Medium, id);
    m.timestamp = timestamp_s * 1_000_000_000;
    m.ttl_seconds = ttl_seconds;
    m
}

#[test]
fn ttl_expiry_removes_only_expired() {
    let mut queue: PriorityQueue<10> = PriorityQueue::new();
    queue.push(message_with_ttl(1, 0, 5)).unwrap(); // expires at t=5
    queue.push(message_with_ttl(2, 0, 100)).unwrap(); // expires at t=100
    queue.push(message_with_ttl(3, 0, 0)).unwrap(); // never expires
    queue.push(message_with_ttl(4, 8, 5)).unwrap(); // expires at t=13

    queue.remove_expired(10);

    let mut remaining: Vec<u64> = Vec::new();
    while let Some(m) = queue.pop() {
        // No survivor with a positive TTL has outlived it.
        if m.ttl_seconds > 0 {
            assert!(10 - m.timestamp / 1_000_000_000 < m.ttl_seconds as u64);
        }
        remaining.push(m.id.value());
    }
    remaining.sort();
    assert_eq!(remaining, vec![2, 3, 4]);
}

#[test]
fn ttl_expiry_preserves_order_of_survivors() {
    let mut queue: PriorityQueue<10> = PriorityQueue::new();
    queue.push(message_with_ttl(1, 0, 1)).unwrap(); // expired
    queue.push(message_with_ttl(2, 0, 0)).unwrap();
    queue.push(message_with_ttl(3, 0, 1)).unwrap(); // expired
    queue.push(message_with_ttl(4, 0, 0)).unwrap();

    queue.remove_expired(100);

    assert_eq!(queue.len(), 2);
    assert_eq!(queue.pop().unwrap().id.value(), 2);
    assert_eq!(queue.pop().unwrap().id.value(), 4);
}

#[test]
fn peek_leaves_queue_unchanged() {
    let mut queue: PriorityQueue<4> = PriorityQueue::new();
    assert!(queue.peek().is_none());
    queue.push(create_test_message(MessagePriority::Low, 1)).unwrap();
    queue.push(create_test_message(MessagePriority::Critical, 2)).unwrap();
    assert_eq!(queue.peek().unwrap().id.value(), 2);
    assert_eq!(queue.len(), 2);
    assert_eq!(queue.pop().unwrap().id.value(), 2);
}

#[test]
fn queue_len_and_flags() {
    let mut queue: PriorityQueue<2> = PriorityQueue::new();
    assert!(queue.is_empty());
    assert!(!queue.is_full());
    assert_eq!(queue.capacity(), 2);
    queue.push(create_test_message(MessagePriority::Low, 1)).unwrap();
    queue.push(create_test_message(MessagePriority::Low, 2)).unwrap();
    assert!(queue.is_full());
    assert_eq!(queue.len(), 2);
}
