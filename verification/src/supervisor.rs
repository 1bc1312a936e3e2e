//! The capture supervisor: admits candidates, tracks each task's lifecycle,
//! and turns capture-process events into status transitions, emitting a
//! notification on every transition (the initial one included).

use vstd::prelude::*;
use crate::msgbus::{publish_effect, Bus};
use crate::registry::{has_id, idx_of, inflight, upsert_effect, TaskEntry, TaskRegistry};
use crate::task::{can_step, is_terminal, valid_history, Message, Notification, Task, TaskStatus};

verus! {

/// What the supervised capture process reports: a recognized marker in its
/// output (recording has begun), a failure to spawn at all, or its exit.
#[derive(Clone, Copy, PartialEq, Eq, Structural, Debug)]
pub enum CaptureEvent {
    RecordingMarker,
    SpawnFailed,
    Exited { success: bool },
}

/// The per-task state machine: the status an event moves a task to, or
/// nothing when the event changes nothing. The output marker drives
/// Waiting to Recording; process exit drives the terminal transition, Done
/// only out of Recording; a process that ends while the task is still
/// Waiting, or never spawns, fails the task directly. Terminal states are
/// never left.
pub open spec fn step_spec(s: TaskStatus, e: CaptureEvent) -> Option<TaskStatus> {
    match s {
        TaskStatus::Waiting => match e {
            CaptureEvent::RecordingMarker => Some(TaskStatus::Recording),
            CaptureEvent::SpawnFailed => Some(TaskStatus::Failed),
            CaptureEvent::Exited { success } => Some(TaskStatus::Failed),
        },
        TaskStatus::Recording => match e {
            CaptureEvent::RecordingMarker => None,
            CaptureEvent::SpawnFailed => None,
            CaptureEvent::Exited { success } => Some(
                if success {
                    TaskStatus::Done
                } else {
                    TaskStatus::Failed
                },
            ),
        },
        TaskStatus::Done => None,
        TaskStatus::Failed => None,
    }
}

/// Every transition the state machine takes is a legal lifecycle step, and a
/// terminal state is never left: statuses are observed strictly as Waiting,
/// possibly Recording, then at most one terminal state.
pub proof fn lemma_step_lawful(s: TaskStatus, e: CaptureEvent)
    ensures
        step_spec(s, e) matches Some(s2) ==> can_step(s, s2),
        is_terminal(s) ==> step_spec(s, e) is None,
{
}

/// A task's observed status history, extended by whatever the state machine
/// does on an event, is still a legal history.
pub proof fn lemma_step_extends_history(h: Seq<TaskStatus>, e: CaptureEvent)
    requires
        valid_history(h),
        step_spec(h.last(), e) is Some,
    ensures
        valid_history(h.push(step_spec(h.last(), e).unwrap())),
{
    let s2 = step_spec(h.last(), e).unwrap();
    lemma_step_lawful(h.last(), e);
    let h2 = h.push(s2);
    assert(h2[0] == h[0]);
    assert forall|i: int| 0 <= i < h2.len() - 1 implies can_step(#[trigger] h2[i], h2[i + 1]) by {
        if i < h.len() - 1 {
            assert(can_step(h[i], h[i + 1]));
            assert(h2[i] == h[i] && h2[i + 1] == h[i + 1]);
        } else {
            assert(h2[i] == h.last() && h2[i + 1] == s2);
        }
    }
}

/// The state machine as executable code.
pub fn step(s: TaskStatus, e: CaptureEvent) -> (r: Option<TaskStatus>)
    ensures
        r == step_spec(s, e),
{
    match s {
        TaskStatus::Waiting => match e {
            CaptureEvent::RecordingMarker => Some(TaskStatus::Recording),
            CaptureEvent::SpawnFailed => Some(TaskStatus::Failed),
            CaptureEvent::Exited { success: _ } => Some(TaskStatus::Failed),
        },
        TaskStatus::Recording => match e {
            CaptureEvent::RecordingMarker => None,
            CaptureEvent::SpawnFailed => None,
            CaptureEvent::Exited { success } => Some(
                if success {
                    TaskStatus::Done
                } else {
                    TaskStatus::Failed
                },
            ),
        },
        TaskStatus::Done => None,
        TaskStatus::Failed => None,
    }
}

/// The supervisor: the registry of every task it has admitted.
pub struct Supervisor {
    pub registry: TaskRegistry,
}

impl Supervisor {
    pub open spec fn wf(self) -> bool {
        self.registry.wf()
    }

    pub fn new() -> (r: Self)
        ensures
            r.registry.entries@ == Seq::<TaskEntry>::empty(),
            r.wf(),
    {
        Supervisor { registry: TaskRegistry::new() }
    }

    /// The single admission path for scanner-discovered and externally
    /// submitted candidates alike: a candidate whose identity is already
    /// Waiting or Recording is rejected silently (nothing changes, no
    /// notification); any other is admitted as Waiting and its Waiting
    /// notification is published.
    pub fn submit(&mut self, bus: &mut Bus, task: Task) -> (admitted: bool)
        requires
            old(self).wf(),
            old(bus).wf(),
        ensures
            final(self).wf(),
            final(bus).wf(),
            admitted == !inflight(old(self).registry.entries@, task.video_id@),
            admitted ==> upsert_effect(
                old(self).registry.entries@,
                final(self).registry.entries@,
                task,
                TaskStatus::Waiting,
            ) && publish_effect(
                *old(bus),
                *final(bus),
                Message::ToNotify((Notification { task, status: TaskStatus::Waiting })),
            ),
            !admitted ==> *final(self) == *old(self) && *final(bus) == *old(bus),
    {
        if self.registry.has_inflight(&task.video_id) {
            return false;
        }
        let snapshot = task.clone();
        self.registry.upsert(task, TaskStatus::Waiting);
        bus.publish(Message::ToNotify(Notification { task: snapshot, status: TaskStatus::Waiting }));
        true
    }

    /// Applies one capture-process event to the task carrying `id`: when the
    /// state machine moves, the registry entry is updated and exactly one
    /// notification with the task's snapshot and new status is published;
    /// otherwise (unknown identity, or an event the state machine ignores)
    /// nothing changes and nothing is published.
    pub fn handle_event(&mut self, bus: &mut Bus, id: &String, event: CaptureEvent) -> (changed:
        bool)
        requires
            old(self).wf(),
            old(bus).wf(),
        ensures
            final(self).wf(),
            final(bus).wf(),
            ({
                let pre = old(self).registry.entries@;
                let i = idx_of(pre, id@);
                let outcome = if has_id(pre, id@) {
                    step_spec(pre[i].status, event)
                } else {
                    None
                };
                match outcome {
                    Some(s2) => changed && final(self).registry.entries@ == pre.update(
                        i,
                        (TaskEntry { task: pre[i].task, status: s2 }),
                    ) && publish_effect(
                        *old(bus),
                        *final(bus),
                        Message::ToNotify((Notification { task: pre[i].task, status: s2 })),
                    ),
                    None => !changed && *final(self) == *old(self) && *final(bus) == *old(bus),
                }
            }),
    {
        match self.registry.find(id) {
            Some(i) => {
                let cur = self.registry.entries[i].status;
                match step(cur, event) {
                    Some(s2) => {
                        let snapshot = self.registry.entries[i].task.clone();
                        self.registry.entries[i] = TaskEntry {
                            task: snapshot.clone(),
                            status: s2,
                        };
                        proof {
                            let pre = old(self).registry.entries@;
                            let post = self.registry.entries@;
                            assert forall|p: int, q: int|
                                0 <= p < q < post.len() implies (#[trigger] post[p]).task.video_id@
                                != (#[trigger] post[q]).task.video_id@ by {
                                assert(pre[p].task.video_id@ != pre[q].task.video_id@);
                            }
                        }
                        bus.publish(
                            Message::ToNotify(Notification { task: snapshot, status: s2 }),
                        );
                        true
                    },
                    None => false,
                }
            },
            None => false,
        }
    }
}

} // verus!
