//! The typed publish/subscribe bus. A publish reaches every live subscriber
//! in publish order; each subscriber has its own bounded queue, and when a
//! queue is full the oldest message is dropped so a slow subscriber never
//! stalls publishers. Publishing to a dropped subscriber is silently
//! discarded.

use vstd::prelude::*;
use crate::task::Message;

verus! {

/// One subscriber's delivery queue. Once inactive (the receiver was
/// dropped), it receives nothing further.
pub struct Subscription {
    pub active: bool,
    pub items: Vec<Message>,
}

/// A bounded queue after one more message: the message goes to the back, and
/// when the queue is already at capacity the oldest message leaves.
pub open spec fn push_bounded(items: Seq<Message>, m: Message, cap: nat) -> Seq<Message> {
    if items.len() < cap {
        items.push(m)
    } else {
        items.skip(1).push(m)
    }
}

/// The bus: every subscriber's queue, all bounded by one capacity.
pub struct Bus {
    pub queues: Vec<Subscription>,
    pub capacity: usize,
}

/// What one publish does to the bus: every live queue gets the message at
/// the back (oldest dropped at capacity), every dropped queue is untouched,
/// and nothing else changes.
pub open spec fn publish_effect(pre: Bus, post: Bus, m: Message) -> bool {
    &&& post.queues@.len() == pre.queues@.len()
    &&& post.capacity == pre.capacity
    &&& forall|k: int|
        0 <= k < pre.queues@.len() ==> {
            let oq = pre.queues@[k];
            let nq = #[trigger] post.queues@[k];
            nq.active == oq.active && if oq.active {
                nq.items@ == push_bounded(oq.items@, m, pre.capacity as nat)
            } else {
                nq.items@ == oq.items@
            }
        }
}

/// A live subscriber with room in its queue observes successive publishes
/// in publish order: after two publishes its queue ends with the two
/// messages, first published first.
pub proof fn lemma_publish_order(pre: Bus, mid: Bus, post: Bus, m1: Message, m2: Message, k: int)
    requires
        publish_effect(pre, mid, m1),
        publish_effect(mid, post, m2),
        0 <= k < pre.queues@.len(),
        pre.queues@[k].active,
        pre.queues@[k].items@.len() + 2 <= pre.capacity,
    ensures
        ({
            let q = post.queues@[k].items@;
            &&& q.len() == pre.queues@[k].items@.len() + 2
            &&& q[q.len() - 2] == m1
            &&& q[q.len() - 1] == m2
        }),
{
}

impl Bus {
    pub open spec fn wf(self) -> bool {
        self.capacity >= 1
    }

    pub fn new(capacity: usize) -> (r: Self)
        requires
            capacity >= 1,
        ensures
            r.queues@ == Seq::<Subscription>::empty(),
            r.capacity == capacity,
            r.wf(),
    {
        Bus { queues: Vec::new(), capacity }
    }

    /// Registers a new subscriber and returns its handle. The new queue is
    /// empty: a subscriber observes exactly the messages published after it
    /// subscribed.
    pub fn subscribe(&mut self) -> (id: usize)
        ensures
            id == old(self).queues@.len(),
            final(self).queues@.len() == old(self).queues@.len() + 1,
            forall|k: int|
                0 <= k < old(self).queues@.len() ==> final(self).queues@[k] == old(
                    self,
                ).queues@[k],
            final(self).queues@[id as int].active,
            final(self).queues@[id as int].items@ == Seq::<Message>::empty(),
            final(self).capacity == old(self).capacity,
    {
        let id = self.queues.len();
        self.queues.push(Subscription { active: true, items: Vec::new() });
        id
    }

    /// Delivers one message to every live subscriber, in publish order, each
    /// queue bounded by the capacity (drop-oldest). Dropped subscribers are
    /// skipped silently.
    pub fn publish(&mut self, m: Message)
        requires
            old(self).wf(),
        ensures
            publish_effect(*old(self), *final(self), m),
            final(self).wf(),
    {
        let ghost orig = self.queues@;
        let cap = self.capacity;
        let mut i: usize = 0;
        while i < self.queues.len()
            invariant
                self.capacity == cap,
                cap >= 1,
                i <= self.queues@.len(),
                self.queues@.len() == orig.len(),
                forall|k: int| i <= k < orig.len() ==> #[trigger] self.queues@[k] == orig[k],
                forall|k: int|
                    0 <= k < i ==> {
                        let oq = orig[k];
                        let nq = #[trigger] self.queues@[k];
                        nq.active == oq.active && if oq.active {
                            nq.items@ == push_bounded(oq.items@, m, cap as nat)
                        } else {
                            nq.items@ == oq.items@
                        }
                    },
            decreases self.queues@.len() - i,
        {
            if self.queues[i].active {
                if self.queues[i].items.len() >= cap {
                    let q = &mut self.queues[i];
                    q.items.remove(0);
                }
                let q = &mut self.queues[i];
                q.items.push(m.clone());
                proof {
                    let oq = orig[i as int];
                    let nq = self.queues@[i as int];
                    if oq.items.len() < cap as nat {
                        assert(nq.items@ =~= push_bounded(oq.items@, m, cap as nat));
                    } else {
                        assert(nq.items@ =~= push_bounded(oq.items@, m, cap as nat));
                    }
                }
            }
            i = i + 1;
        }
    }

    /// Takes the oldest pending message of one subscriber, if any. Every
    /// other queue is untouched.
    pub fn recv(&mut self, id: usize) -> (r: Option<Message>)
        requires
            id < old(self).queues@.len(),
        ensures
            final(self).queues@.len() == old(self).queues@.len(),
            final(self).capacity == old(self).capacity,
            forall|k: int|
                0 <= k < old(self).queues@.len() && k != id ==> #[trigger] final(self).queues@[k]
                    == old(self).queues@[k],
            ({
                let oq = old(self).queues@[id as int];
                let nq = final(self).queues@[id as int];
                nq.active == oq.active && if oq.items@.len() > 0 {
                    r == Some(oq.items@[0]) && nq.items@ == oq.items@.skip(1)
                } else {
                    r is None && nq.items@ == oq.items@
                }
            }),
    {
        let q = &mut self.queues[id];
        if q.items.len() > 0 {
            let m = q.items.remove(0);
            proof {
                assert(self.queues@[id as int].items@ =~= old(self).queues@[id as int].items@.skip(
                    1,
                ));
            }
            Some(m)
        } else {
            None
        }
    }

    /// Drops a subscriber: later publishes are silently discarded for it,
    /// and its pending messages are gone.
    pub fn unsubscribe(&mut self, id: usize)
        requires
            id < old(self).queues@.len(),
        ensures
            final(self).queues@.len() == old(self).queues@.len(),
            final(self).capacity == old(self).capacity,
            forall|k: int|
                0 <= k < old(self).queues@.len() && k != id ==> #[trigger] final(self).queues@[k]
                    == old(self).queues@[k],
            !final(self).queues@[id as int].active,
            final(self).queues@[id as int].items@ == Seq::<Message>::empty(),
    {
        let q = &mut self.queues[id];
        q.active = false;
        q.items.clear();
        proof {
            assert(self.queues@[id as int].items@ =~= Seq::<Message>::empty());
        }
    }
}

} // verus!
