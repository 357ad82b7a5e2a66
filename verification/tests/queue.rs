use unipager::clock::Timestamp;
use unipager::message::{Message, ProtocolMessage};
use unipager::pocsag::message::{Message as Call, MessageType};
use unipager::queue::{Queue, NUM_PRIORITIES};
use unipager::telemetry::Messages;

fn message(priority: usize, id: &str) -> Message {
    Message {
        id: id.to_owned(),
        priority,
        origin: "tests".to_owned(),
        expires_on: None,
        message: ProtocolMessage::Pocsag(Call {
            mtype: MessageType::AlphaNum,
            speed: 1200,
            ric: 8,
            func: 3,
            data: id.to_owned(),
        }),
    }
}

fn expiring(priority: usize, id: &str, secs: i64, nanos: u32) -> Message {
    Message { expires_on: Some(Timestamp { secs, nanos }), ..message(priority, id) }
}

fn ids(queue: &mut Queue, now: Timestamp) -> Vec<String> {
    let mut out = Vec::new();
    while let Some(message) = queue.dequeue_at(now) {
        out.push(message.id);
    }
    out
}

#[test]
fn priority_ordering() {
    let mut queue = Queue::new();
    queue.enqueue(message(0, "low"));
    queue.enqueue(message(3, "hi1"));
    queue.enqueue(message(3, "hi2"));
    queue.enqueue(message(1, "mid"));
    assert_eq!(queue.len(), 4);
    let mut out = Vec::new();
    while let Some(message) = queue.dequeue() {
        out.push(message.id);
    }
    assert_eq!(out, vec!["hi1", "hi2", "mid", "low"]);
    assert!(queue.is_empty());
    assert_eq!(queue.len(), 0);
}

#[test]
fn empty_queue() {
    let mut queue = Queue::new();
    assert!(queue.is_empty());
    assert_eq!(queue.len(), 0);
    assert!(queue.dequeue().is_none());
    assert!(queue.dequeue_at(Timestamp { secs: 0, nanos: 0 }).is_none());
}

#[test]
fn every_priority_has_its_line() {
    assert_eq!(NUM_PRIORITIES, 5);
    let mut queue = Queue::new();
    for priority in 0..NUM_PRIORITIES {
        queue.enqueue(message(priority, &format!("p{}a", priority)));
        queue.enqueue(message(priority, &format!("p{}b", priority)));
    }
    let now = Timestamp { secs: 0, nanos: 0 };
    assert_eq!(
        ids(&mut queue, now),
        vec!["p4a", "p4b", "p3a", "p3b", "p2a", "p2b", "p1a", "p1b", "p0a", "p0b"]
    );
}

#[test]
fn out_of_range_priority_is_dropped() {
    let mut queue = Queue::new();
    queue.enqueue(message(NUM_PRIORITIES, "too high"));
    queue.enqueue(message(usize::MAX, "far too high"));
    assert!(queue.is_empty());
    queue.enqueue(message(NUM_PRIORITIES - 1, "highest"));
    assert_eq!(queue.len(), 1);
    assert_eq!(queue.dequeue().unwrap().id, "highest");
}

#[test]
fn later_arrivals_of_higher_priority_go_first() {
    let mut queue = Queue::new();
    let now = Timestamp { secs: 0, nanos: 0 };
    queue.enqueue(message(1, "a"));
    queue.enqueue(message(1, "b"));
    assert_eq!(queue.dequeue_at(now).unwrap().id, "a");
    queue.enqueue(message(2, "c"));
    queue.enqueue(message(1, "d"));
    assert_eq!(ids(&mut queue, now), vec!["c", "b", "d"]);
}

#[test]
fn expired_messages_are_dropped() {
    let now = Timestamp { secs: 1_000, nanos: 500 };
    let mut queue = Queue::new();
    queue.enqueue(expiring(4, "gone long ago", 10, 0));
    queue.enqueue(expiring(4, "gone just now", 1_000, 499));
    queue.enqueue(expiring(4, "gone this instant", 1_000, 500));
    queue.enqueue(expiring(2, "still good", 1_000, 501));
    queue.enqueue(expiring(2, "gone", -5, 0));
    queue.enqueue(expiring(2, "good for long", 2_000, 0));
    queue.enqueue(message(0, "never expires"));
    assert_eq!(queue.len(), 7);
    assert_eq!(queue.dequeue_at(now).unwrap().id, "still good");
    // the expired messages in front of it went with it
    assert_eq!(queue.len(), 3);
    assert_eq!(ids(&mut queue, now), vec!["good for long", "never expires"]);
    assert!(queue.is_empty());
}

#[test]
fn queue_of_expired_messages_gives_nothing() {
    let now = Timestamp { secs: 1_000, nanos: 0 };
    let mut queue = Queue::new();
    queue.enqueue(expiring(0, "a", 1, 0));
    queue.enqueue(expiring(3, "b", 999, 999_999_999));
    assert!(!queue.is_empty());
    assert!(queue.dequeue_at(now).is_none());
    assert!(queue.is_empty());
}

#[test]
fn expiry_by_the_clock() {
    let mut queue = Queue::new();
    queue.enqueue(expiring(1, "past", 1_000_000_000, 0));
    queue.enqueue(expiring(1, "future", 32_000_000_000, 0));
    assert_eq!(queue.dequeue().unwrap().id, "future");
    assert!(queue.dequeue().is_none());
    assert!(expiring(1, "past", 1_000_000_000, 0).is_expired());
    assert!(!expiring(1, "future", 32_000_000_000, 0).is_expired());
    assert!(!message(1, "none").is_expired());
}

#[test]
fn expiry_at_a_time() {
    let message = expiring(1, "m", 100, 7);
    assert!(!message.is_expired_at(Timestamp { secs: 99, nanos: 999_999_999 }));
    assert!(!message.is_expired_at(Timestamp { secs: 100, nanos: 6 }));
    assert!(message.is_expired_at(Timestamp { secs: 100, nanos: 7 }));
    assert!(message.is_expired_at(Timestamp { secs: 100, nanos: 8 }));
    assert!(message.is_expired_at(Timestamp { secs: 101, nanos: 0 }));
    assert!(!expiring(1, "m", -1, 0).is_expired_at(Timestamp { secs: -2, nanos: 5 }));
    assert!(Timestamp { secs: 1, nanos: 0 }.at_or_after(&Timestamp { secs: 0, nanos: 5 }));
}

#[test]
fn telemetry_counts_waiting_and_sent() {
    let now = Timestamp { secs: 50, nanos: 0 };
    let mut queue = Queue::new();
    queue.enqueue(message(0, "a"));
    queue.enqueue(message(3, "b"));
    queue.enqueue(message(3, "c"));
    queue.enqueue(expiring(4, "d", 1, 0));
    let mut messages = Messages::default();
    queue.telemetry_update(&mut messages);
    assert_eq!(messages.queued, [1, 0, 0, 2, 1]);
    assert_eq!(messages.sent, [0; 5]);
    assert_eq!(queue.dequeue_at(now).unwrap().id, "b");
    queue.telemetry_update(&mut messages);
    // the expired message was dropped, not sent
    assert_eq!(messages.queued, [1, 0, 0, 1, 0]);
    assert_eq!(messages.sent, [0, 0, 0, 1, 0]);
    ids(&mut queue, now);
    queue.telemetry_update(&mut messages);
    assert_eq!(messages.queued, [0; 5]);
    assert_eq!(messages.sent, [1, 0, 0, 2, 0]);
}
