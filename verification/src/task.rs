//! Tasks, their lifecycle states, and the messages that travel on the bus.

use vstd::prelude::*;

verus! {

/// Lifecycle state of a capture task. `Waiting` and `Recording` are
/// non-terminal; `Done` and `Failed` are terminal.
#[derive(Clone, Copy, PartialEq, Eq, Structural, Debug)]
pub enum TaskStatus {
    Waiting,
    Recording,
    Done,
    Failed,
}

/// A terminal status is never left again.
pub open spec fn is_terminal(s: TaskStatus) -> bool {
    s == TaskStatus::Done || s == TaskStatus::Failed
}

/// The only lifecycle transitions a task may take: Waiting to Recording,
/// Recording to a terminal state, or Waiting straight to Failed (a capture
/// process that never started or never reached recording).
pub open spec fn can_step(from: TaskStatus, to: TaskStatus) -> bool {
    ||| (from == TaskStatus::Waiting && to == TaskStatus::Recording)
    ||| (from == TaskStatus::Waiting && to == TaskStatus::Failed)
    ||| (from == TaskStatus::Recording && to == TaskStatus::Done)
    ||| (from == TaskStatus::Recording && to == TaskStatus::Failed)
}

/// The statuses a single task has been observed in, oldest first: it starts
/// at Waiting and every adjacent pair is a legal transition.
pub open spec fn valid_history(h: Seq<TaskStatus>) -> bool {
    &&& h.len() >= 1
    &&& h[0] == TaskStatus::Waiting
    &&& forall|i: int| 0 <= i < h.len() - 1 ==> can_step(#[trigger] h[i], h[i + 1])
}

/// Per-task transitions are observed strictly as Waiting, then possibly
/// Recording, then at most one terminal state: a legal history never repeats
/// a state, never puts a terminal state anywhere but last, and is one of
/// [Waiting], [Waiting, Recording], [Waiting, Failed],
/// [Waiting, Recording, Done] or [Waiting, Recording, Failed].
pub proof fn lemma_history_strict(h: Seq<TaskStatus>)
    requires
        valid_history(h),
    ensures
        h.len() <= 3,
        forall|i: int| 0 <= i < h.len() - 1 ==> !is_terminal(#[trigger] h[i]),
        forall|i: int, j: int| 0 <= i < j < h.len() ==> h[i] != h[j],
        h.len() >= 2 ==> (h[1] == TaskStatus::Recording || h[1] == TaskStatus::Failed),
        h.len() == 3 ==> h[1] == TaskStatus::Recording && is_terminal(h[2]),
{
    if h.len() >= 2 {
        assert(can_step(h[0], h[1]));
    }
    if h.len() >= 3 {
        assert(can_step(h[1], h[2]));
    }
    if h.len() >= 4 {
        assert(can_step(h[2], h[3]));
        assert(false);
    }
}

/// An admitted unit of capture work.
pub struct Task {
    pub title: String,
    pub video_id: String,
    pub video_picture: String,
    pub channel_name: String,
    pub channel_id: String,
    pub channel_picture: Option<String>,
    pub output_directory: String,
}

/// A status transition paired with the task snapshot taken at that moment.
pub struct Notification {
    pub task: Task,
    pub status: TaskStatus,
}

/// The messages carried by the bus: a candidate to record, or a status
/// change to pass on to subscribers.
pub enum Message {
    ToRecord(Task),
    ToNotify(Notification),
}

/// Clones an optional owned string, preserving its value.
pub fn clone_opt_string(o: &Option<String>) -> (r: Option<String>)
    ensures
        r == *o,
{
    match o {
        Some(s) => Some(s.clone()),
        None => None,
    }
}

impl Clone for Task {
    fn clone(&self) -> (res: Self)
        ensures
            res == *self,
    {
        Task {
            title: self.title.clone(),
            video_id: self.video_id.clone(),
            video_picture: self.video_picture.clone(),
            channel_name: self.channel_name.clone(),
            channel_id: self.channel_id.clone(),
            channel_picture: clone_opt_string(&self.channel_picture),
            output_directory: self.output_directory.clone(),
        }
    }
}

impl Clone for Notification {
    fn clone(&self) -> (res: Self)
        ensures
            res == *self,
    {
        Notification { task: self.task.clone(), status: self.status }
    }
}

impl Clone for Message {
    fn clone(&self) -> (res: Self)
        ensures
            res == *self,
    {
        match self {
            Message::ToRecord(t) => Message::ToRecord(t.clone()),
            Message::ToNotify(n) => Message::ToNotify(n.clone()),
        }
    }
}

} // verus!
