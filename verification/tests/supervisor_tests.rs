use hoshinova::msgbus::Bus;
use hoshinova::registry::TaskRegistry;
use hoshinova::supervisor::{step, CaptureEvent, Supervisor};
use hoshinova::task::{Message, Task, TaskStatus};

fn task(id: &str) -> Task {
    Task {
        title: format!("stream {}", id),
        video_id: id.to_string(),
        video_picture: "http://example.com/thumb.jpg".to_string(),
        channel_name: "Test Channel".to_string(),
        channel_id: "UC123".to_string(),
        channel_picture: None,
        output_directory: "./downloads".to_string(),
    }
}

fn recv_status(bus: &mut Bus, sub: usize) -> Option<(String, TaskStatus)> {
    match bus.recv(sub) {
        Some(Message::ToNotify(n)) => Some((n.task.video_id, n.status)),
        Some(Message::ToRecord(_)) => panic!("unexpected candidate message"),
        None => None,
    }
}

#[test]
fn test_double_submission_admits_one() {
    // Two near-simultaneous submissions for one identity: exactly one is
    // admitted to Waiting, the other is dropped with no notification.
    let mut bus = Bus::new(16);
    let sub = bus.subscribe();
    let mut sup = Supervisor::new();

    assert!(sup.submit(&mut bus, task("abc123")));
    assert!(!sup.submit(&mut bus, task("abc123")));

    assert_eq!(recv_status(&mut bus, sub), Some(("abc123".to_string(), TaskStatus::Waiting)));
    assert_eq!(recv_status(&mut bus, sub), None);
}

#[test]
fn test_successful_capture_lifecycle() {
    // The capture process reports recording, then exits with status zero:
    // the task goes Waiting, Recording, Done, one notification each.
    let mut bus = Bus::new(16);
    let sub = bus.subscribe();
    let mut sup = Supervisor::new();
    let id = "vid1".to_string();

    assert!(sup.submit(&mut bus, task("vid1")));
    assert!(sup.handle_event(&mut bus, &id, CaptureEvent::RecordingMarker));
    assert!(sup.handle_event(&mut bus, &id, CaptureEvent::Exited { success: true }));

    assert_eq!(recv_status(&mut bus, sub), Some(("vid1".to_string(), TaskStatus::Waiting)));
    assert_eq!(recv_status(&mut bus, sub), Some(("vid1".to_string(), TaskStatus::Recording)));
    assert_eq!(recv_status(&mut bus, sub), Some(("vid1".to_string(), TaskStatus::Done)));
    assert_eq!(recv_status(&mut bus, sub), None);

    // Terminal states are never left.
    assert!(!sup.handle_event(&mut bus, &id, CaptureEvent::RecordingMarker));
    assert_eq!(recv_status(&mut bus, sub), None);
}

#[test]
fn test_spawn_failure_goes_straight_to_failed() {
    // The capture process fails to spawn: Waiting, then Failed, never
    // visiting Recording.
    let mut bus = Bus::new(16);
    let sub = bus.subscribe();
    let mut sup = Supervisor::new();
    let id = "vid2".to_string();

    assert!(sup.submit(&mut bus, task("vid2")));
    assert!(sup.handle_event(&mut bus, &id, CaptureEvent::SpawnFailed));

    assert_eq!(recv_status(&mut bus, sub), Some(("vid2".to_string(), TaskStatus::Waiting)));
    assert_eq!(recv_status(&mut bus, sub), Some(("vid2".to_string(), TaskStatus::Failed)));
    assert_eq!(recv_status(&mut bus, sub), None);
}

#[test]
fn test_failed_exit_while_recording() {
    let mut bus = Bus::new(16);
    let sub = bus.subscribe();
    let mut sup = Supervisor::new();
    let id = "vid3".to_string();

    assert!(sup.submit(&mut bus, task("vid3")));
    assert!(sup.handle_event(&mut bus, &id, CaptureEvent::RecordingMarker));
    assert!(sup.handle_event(&mut bus, &id, CaptureEvent::Exited { success: false }));

    assert_eq!(recv_status(&mut bus, sub), Some(("vid3".to_string(), TaskStatus::Waiting)));
    assert_eq!(recv_status(&mut bus, sub), Some(("vid3".to_string(), TaskStatus::Recording)));
    assert_eq!(recv_status(&mut bus, sub), Some(("vid3".to_string(), TaskStatus::Failed)));
}

#[test]
fn test_terminal_identity_can_be_resubmitted() {
    // No automatic retry: a fresh submission is required, and it is
    // admitted once the old task is terminal.
    let mut bus = Bus::new(16);
    let sub = bus.subscribe();
    let mut sup = Supervisor::new();
    let id = "vid4".to_string();

    assert!(sup.submit(&mut bus, task("vid4")));
    assert!(sup.handle_event(&mut bus, &id, CaptureEvent::SpawnFailed));
    assert!(sup.submit(&mut bus, task("vid4")));

    assert_eq!(recv_status(&mut bus, sub), Some(("vid4".to_string(), TaskStatus::Waiting)));
    assert_eq!(recv_status(&mut bus, sub), Some(("vid4".to_string(), TaskStatus::Failed)));
    assert_eq!(recv_status(&mut bus, sub), Some(("vid4".to_string(), TaskStatus::Waiting)));
}

#[test]
fn test_event_for_unknown_identity_changes_nothing() {
    let mut bus = Bus::new(16);
    let sub = bus.subscribe();
    let mut sup = Supervisor::new();
    let id = "ghost".to_string();
    assert!(!sup.handle_event(&mut bus, &id, CaptureEvent::RecordingMarker));
    assert_eq!(recv_status(&mut bus, sub), None);
    assert!(sup.registry.list().is_empty());
}

#[test]
fn test_repeated_marker_does_not_repeat_recording() {
    let mut bus = Bus::new(16);
    let sub = bus.subscribe();
    let mut sup = Supervisor::new();
    let id = "vid5".to_string();

    assert!(sup.submit(&mut bus, task("vid5")));
    assert!(sup.handle_event(&mut bus, &id, CaptureEvent::RecordingMarker));
    assert!(!sup.handle_event(&mut bus, &id, CaptureEvent::RecordingMarker));

    assert_eq!(recv_status(&mut bus, sub), Some(("vid5".to_string(), TaskStatus::Waiting)));
    assert_eq!(recv_status(&mut bus, sub), Some(("vid5".to_string(), TaskStatus::Recording)));
    assert_eq!(recv_status(&mut bus, sub), None);
}

#[test]
fn test_exit_before_marker_fails_task() {
    // A process that ends while the task is still Waiting never yields
    // Done: Recording was never observed, so the task fails.
    let mut sup = Supervisor::new();
    let mut bus = Bus::new(16);
    let id = "vid6".to_string();
    assert!(sup.submit(&mut bus, task("vid6")));
    assert!(sup.handle_event(&mut bus, &id, CaptureEvent::Exited { success: true }));
    let entries = sup.registry.list();
    assert_eq!(entries.len(), 1);
    assert_eq!(entries[0].status, TaskStatus::Failed);
}

#[test]
fn test_step_table() {
    assert_eq!(step(TaskStatus::Waiting, CaptureEvent::RecordingMarker), Some(TaskStatus::Recording));
    assert_eq!(step(TaskStatus::Waiting, CaptureEvent::SpawnFailed), Some(TaskStatus::Failed));
    assert_eq!(step(TaskStatus::Recording, CaptureEvent::Exited { success: true }), Some(TaskStatus::Done));
    assert_eq!(step(TaskStatus::Recording, CaptureEvent::Exited { success: false }), Some(TaskStatus::Failed));
    assert_eq!(step(TaskStatus::Done, CaptureEvent::Exited { success: false }), None);
    assert_eq!(step(TaskStatus::Failed, CaptureEvent::RecordingMarker), None);
}

#[test]
fn test_registry_upsert_and_list() {
    let mut reg = TaskRegistry::new();
    reg.upsert(task("a"), TaskStatus::Waiting);
    reg.upsert(task("b"), TaskStatus::Waiting);
    reg.upsert(task("a"), TaskStatus::Recording);

    let entries = reg.list();
    assert_eq!(entries.len(), 2);
    assert_eq!(entries[0].task.video_id, "a");
    assert_eq!(entries[0].status, TaskStatus::Recording);
    assert_eq!(entries[1].task.video_id, "b");
    assert_eq!(entries[1].status, TaskStatus::Waiting);

    let a = "a".to_string();
    let missing = "missing".to_string();
    assert_eq!(reg.status_of(&a), Some(TaskStatus::Recording));
    assert_eq!(reg.status_of(&missing), None);
    assert!(reg.has_inflight(&a));
    assert!(!reg.has_inflight(&missing));
}
