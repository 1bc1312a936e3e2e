//! The task registry: the shared read model mapping each task identity to its
//! current status and metadata. Entries are created on first admission,
//! updated on every transition, and retained for the process lifetime.

use vstd::prelude::*;
use crate::task::{is_terminal, Task, TaskStatus};

verus! {

/// One registry entry: a task and its current status.
pub struct TaskEntry {
    pub task: Task,
    pub status: TaskStatus,
}

impl Clone for TaskEntry {
    fn clone(&self) -> (res: Self)
        ensures
            res == *self,
    {
        TaskEntry { task: self.task.clone(), status: self.status }
    }
}

/// No two entries carry the same task identity.
pub open spec fn entries_wf(s: Seq<TaskEntry>) -> bool {
    forall|i: int, j: int|
        0 <= i < j < s.len() ==> (#[trigger] s[i]).task.video_id@ != (#[trigger] s[j]).task.video_id@
}

/// Some entry carries this identity.
pub open spec fn has_id(s: Seq<TaskEntry>, id: Seq<char>) -> bool {
    exists|i: int| 0 <= i < s.len() && (#[trigger] s[i]).task.video_id@ == id
}

/// Some entry carries this identity in a non-terminal state.
pub open spec fn inflight(s: Seq<TaskEntry>, id: Seq<char>) -> bool {
    exists|i: int|
        0 <= i < s.len() && (#[trigger] s[i]).task.video_id@ == id && !is_terminal(s[i].status)
}

/// The index of the entry carrying this identity (meaningful only under
/// `has_id`; unique under `entries_wf`).
pub open spec fn idx_of(s: Seq<TaskEntry>, id: Seq<char>) -> int {
    choose|i: int| 0 <= i < s.len() && (#[trigger] s[i]).task.video_id@ == id
}

/// In a well-formed registry the entry holding an identity sits at exactly
/// one index, and `idx_of` names it.
pub proof fn lemma_idx_of_unique(s: Seq<TaskEntry>, id: Seq<char>, i: int)
    requires
        entries_wf(s),
        0 <= i < s.len(),
        s[i].task.video_id@ == id,
    ensures
        has_id(s, id),
        idx_of(s, id) == i,
{
    assert(has_id(s, id));
    let j = idx_of(s, id);
    assert(0 <= j < s.len() && s[j].task.video_id@ == id);
    if i < j {
        assert(s[i].task.video_id@ != s[j].task.video_id@);
    } else if j < i {
        assert(s[j].task.video_id@ != s[i].task.video_id@);
    }
}

/// What an upsert does: the entry carrying the task's identity is replaced,
/// or a new entry is appended when none carries it yet.
pub open spec fn upsert_effect(
    pre: Seq<TaskEntry>,
    post: Seq<TaskEntry>,
    task: Task,
    status: TaskStatus,
) -> bool {
    if has_id(pre, task.video_id@) {
        post == pre.update(idx_of(pre, task.video_id@), (TaskEntry { task, status }))
    } else {
        post == pre.push((TaskEntry { task, status }))
    }
}

/// For any identity, at most one task with that identity is in a
/// non-terminal state: a well-formed registry cannot hold two entries with
/// the same identity at all, non-terminal or not.
pub proof fn lemma_at_most_one_inflight(s: Seq<TaskEntry>, id: Seq<char>)
    requires
        entries_wf(s),
    ensures
        forall|i: int, j: int|
            (0 <= i < s.len() && 0 <= j < s.len()
                && (#[trigger] s[i]).task.video_id@ == id && !is_terminal(s[i].status)
                && (#[trigger] s[j]).task.video_id@ == id && !is_terminal(s[j].status)) ==> i == j,
{
}

/// The registry itself: a set of entries with pairwise distinct identities.
pub struct TaskRegistry {
    pub entries: Vec<TaskEntry>,
}

impl TaskRegistry {
    pub open spec fn wf(self) -> bool {
        entries_wf(self.entries@)
    }

    pub fn new() -> (r: Self)
        ensures
            r.entries@ == Seq::<TaskEntry>::empty(),
            r.wf(),
    {
        TaskRegistry { entries: Vec::new() }
    }

    /// The index of the entry carrying `id`, if any.
    pub fn find(&self, id: &String) -> (r: Option<usize>)
        ensures
            (match r {
                Some(i) => i < self.entries@.len() && self.entries@[i as int].task.video_id@ == id@
                    && (self.wf() ==> has_id(self.entries@, id@) && idx_of(self.entries@, id@)
                    == i),
                None => !has_id(self.entries@, id@),
            }),
    {
        let mut i: usize = 0;
        while i < self.entries.len()
            invariant
                i <= self.entries@.len(),
                forall|k: int| 0 <= k < i ==> (#[trigger] self.entries@[k]).task.video_id@ != id@,
            decreases self.entries@.len() - i,
        {
            if self.entries[i].task.video_id == *id {
                proof {
                    if self.wf() {
                        lemma_idx_of_unique(self.entries@, id@, i as int);
                    }
                }
                return Some(i);
            }
            i = i + 1;
        }
        None
    }

    /// Whether some task with this identity is currently non-terminal.
    pub fn has_inflight(&self, id: &String) -> (r: bool)
        requires
            self.wf(),
        ensures
            r == inflight(self.entries@, id@),
    {
        match self.find(id) {
            Some(i) => {
                let st = self.entries[i].status;
                let non_terminal = match st {
                    TaskStatus::Waiting => true,
                    TaskStatus::Recording => true,
                    TaskStatus::Done => false,
                    TaskStatus::Failed => false,
                };
                proof {
                    if non_terminal {
                        assert(inflight(self.entries@, id@));
                    } else {
                        assert forall|k: int|
                            0 <= k < self.entries@.len()
                                && (#[trigger] self.entries@[k]).task.video_id@ == id@
                            implies is_terminal(self.entries@[k].status) by {
                            assert(self.entries@[i as int].task.video_id@ == id@);
                        }
                    }
                }
                non_terminal
            },
            None => false,
        }
    }

    /// The status recorded for this identity, if any.
    pub fn status_of(&self, id: &String) -> (r: Option<TaskStatus>)
        requires
            self.wf(),
        ensures
            (match r {
                Some(st) => exists|i: int|
                    0 <= i < self.entries@.len()
                        && (#[trigger] self.entries@[i]).task.video_id@ == id@
                        && self.entries@[i].status == st,
                None => !has_id(self.entries@, id@),
            }),
    {
        match self.find(id) {
            Some(i) => Some(self.entries[i].status),
            None => None,
        }
    }

    /// Creates the entry for this identity or replaces it: the registry
    /// afterwards carries exactly the given task and status under that
    /// identity, and every other entry is unchanged.
    pub fn upsert(&mut self, task: Task, status: TaskStatus)
        requires
            old(self).wf(),
        ensures
            final(self).wf(),
            upsert_effect(old(self).entries@, final(self).entries@, task, status),
    {
        match self.find(&task.video_id) {
            Some(i) => {
                proof {
                    assert(has_id(self.entries@, task.video_id@));
                }
                self.entries[i] = TaskEntry { task, status };
                proof {
                    assert forall|p: int, q: int|
                        0 <= p < q < self.entries@.len() implies (#[trigger] self.entries@[p]).task.video_id@
                        != (#[trigger] self.entries@[q]).task.video_id@ by {
                        assert(old(self).entries@[p].task.video_id@ != old(
                            self,
                        ).entries@[q].task.video_id@);
                    }
                }
            },
            None => {
                self.entries.push(TaskEntry { task, status });
                proof {
                    assert forall|p: int, q: int|
                        0 <= p < q < self.entries@.len() implies (#[trigger] self.entries@[p]).task.video_id@
                        != (#[trigger] self.entries@[q]).task.video_id@ by {
                        if q < self.entries@.len() - 1 {
                            assert(old(self).entries@[p].task.video_id@ != old(
                                self,
                            ).entries@[q].task.video_id@);
                        } else {
                            assert(!has_id(old(self).entries@, self.entries@[q].task.video_id@));
                            assert(old(self).entries@[p].task.video_id@ != self.entries@[q].task.video_id@);
                        }
                    }
                }
            },
        }
    }

    /// A point-in-time snapshot of every entry.
    pub fn list(&self) -> (r: Vec<TaskEntry>)
        ensures
            r@ == self.entries@,
    {
        let mut out: Vec<TaskEntry> = Vec::new();
        let mut i: usize = 0;
        while i < self.entries.len()
            invariant
                i <= self.entries@.len(),
                out@ == self.entries@.take(i as int),
            decreases self.entries@.len() - i,
        {
            out.push(self.entries[i].clone());
            proof {
                assert(out@ =~= self.entries@.take(i as int + 1));
            }
            i = i + 1;
        }
        proof {
            assert(out@ =~= self.entries@);
        }
        out
    }
}

} // verus!
