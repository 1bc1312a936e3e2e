use hoshinova::msgbus::Bus;
use hoshinova::task::{Message, Task};

fn candidate(id: &str) -> Message {
    Message::ToRecord(Task {
        title: format!("stream {}", id),
        video_id: id.to_string(),
        video_picture: String::new(),
        channel_name: String::new(),
        channel_id: String::new(),
        channel_picture: None,
        output_directory: String::new(),
    })
}

fn recv_id(bus: &mut Bus, sub: usize) -> Option<String> {
    match bus.recv(sub) {
        Some(Message::ToRecord(t)) => Some(t.video_id),
        Some(Message::ToNotify(_)) => panic!("unexpected notification"),
        None => None,
    }
}

#[test]
fn test_subscribers_see_publish_order() {
    let mut bus = Bus::new(8);
    let s1 = bus.subscribe();
    let s2 = bus.subscribe();
    bus.publish(candidate("a"));
    bus.publish(candidate("b"));

    assert_eq!(recv_id(&mut bus, s1).as_deref(), Some("a"));
    assert_eq!(recv_id(&mut bus, s1).as_deref(), Some("b"));
    assert_eq!(recv_id(&mut bus, s1), None);

    // Each subscriber has an independent stream in the same order.
    assert_eq!(recv_id(&mut bus, s2).as_deref(), Some("a"));
    assert_eq!(recv_id(&mut bus, s2).as_deref(), Some("b"));
}

#[test]
fn test_subscriber_sees_only_later_messages() {
    let mut bus = Bus::new(8);
    bus.publish(candidate("early"));
    let s = bus.subscribe();
    bus.publish(candidate("late"));
    assert_eq!(recv_id(&mut bus, s).as_deref(), Some("late"));
    assert_eq!(recv_id(&mut bus, s), None);
}

#[test]
fn test_full_queue_drops_oldest() {
    let mut bus = Bus::new(2);
    let s = bus.subscribe();
    bus.publish(candidate("a"));
    bus.publish(candidate("b"));
    bus.publish(candidate("c"));
    assert_eq!(recv_id(&mut bus, s).as_deref(), Some("b"));
    assert_eq!(recv_id(&mut bus, s).as_deref(), Some("c"));
    assert_eq!(recv_id(&mut bus, s), None);
}

#[test]
fn test_dropped_subscriber_is_skipped_silently() {
    let mut bus = Bus::new(8);
    let s1 = bus.subscribe();
    let s2 = bus.subscribe();
    bus.unsubscribe(s1);
    bus.publish(candidate("a"));
    assert_eq!(recv_id(&mut bus, s1), None);
    assert_eq!(recv_id(&mut bus, s2).as_deref(), Some("a"));
}
