//! The bounded message bus with its lossy-drain policy, and the messages it carries.

use vstd::prelude::*;
use std::collections::VecDeque;

verus! {

/// The capacity of the buses of the sync engine and the control plane.
pub const MESSAGE_CHANNEL_SIZE: usize = 1000;

/// The kind of a message.
#[derive(PartialEq, Eq, Structural, Debug, Clone, Copy)]
pub enum MessageType {
    SetupTriggerType,
    SyncMessageType,
    TriggerMessageType,
}

/// Progress of a sync worker: a text, the object it concerns and a count.
pub struct SyncMessage {
    pub message_type: MessageType,
    pub message: String,
    pub obj_type: String,
    pub obj_count: usize,
}

impl SyncMessage {
    /// A sync message with the given text, object name and count.
    pub fn new(message: &str, obj_type: &str, obj_count: usize) -> (r: SyncMessage)
        ensures
            r.message_type == MessageType::SyncMessageType,
            r.message@ == message@,
            r.obj_type@ == obj_type@,
            r.obj_count == obj_count,
    {
        SyncMessage {
            message_type: MessageType::SyncMessageType,
            message: String::from_str(message),
            obj_type: String::from_str(obj_type),
            obj_count,
        }
    }
}

/// Progress of a setup job: a text, a row count and the seconds since it began.
pub struct TriggerMessage {
    pub message_type: MessageType,
    pub message: String,
    pub obj_count: u64,
    pub elapsed_secs: u64,
}

impl TriggerMessage {
    /// A trigger message with the given text, count and elapsed seconds.
    pub fn new(message: &str, obj_count: u64, elapsed_secs: u64) -> (r: TriggerMessage)
        ensures
            r.message_type == MessageType::TriggerMessageType,
            r.message@ == message@,
            r.obj_count == obj_count,
            r.elapsed_secs == elapsed_secs,
    {
        TriggerMessage {
            message_type: MessageType::TriggerMessageType,
            message: String::from_str(message),
            obj_count,
            elapsed_secs,
        }
    }
}

/// The queue after sending `m` to a bus of `capacity` holding `q`: when the
/// bus is full, the oldest `capacity / 2` messages are dropped first.
pub open spec fn sent<T>(q: Seq<T>, capacity: nat, m: T) -> Seq<T> {
    if q.len() < capacity {
        q.push(m)
    } else {
        q.subrange((capacity / 2) as int, q.len() as int).push(m)
    }
}

/// The queue after sending each of `ms` in turn.
pub open spec fn sent_all<T>(q: Seq<T>, capacity: nat, ms: Seq<T>) -> Seq<T>
    decreases ms.len(),
{
    if ms.len() == 0 {
        q
    } else {
        sent(sent_all(q, capacity, ms.drop_last()), capacity, ms.last())
    }
}

/// A bounded queue of messages; sending never blocks.
pub struct MessageBus<T> {
    items: VecDeque<T>,
    capacity: usize,
}

impl<T> MessageBus<T> {
    /// The messages, oldest first.
    pub closed spec fn contents(&self) -> Seq<T> {
        self.items@
    }

    /// The most messages the bus holds.
    pub closed spec fn cap(&self) -> nat {
        self.capacity as nat
    }

    /// The bus holds at most its capacity, which is at least two.
    pub open spec fn wf(&self) -> bool {
        self.contents().len() <= self.cap() && self.cap() >= 2
    }

    /// An empty bus of the given capacity.
    pub fn new(capacity: usize) -> (r: MessageBus<T>)
        requires
            capacity >= 2,
        ensures
            r.wf(),
            r.cap() == capacity,
            r.contents() == Seq::<T>::empty(),
    {
        MessageBus { items: VecDeque::new(), capacity }
    }

    /// The number of messages waiting.
    pub fn len(&self) -> (r: usize)
        ensures
            r == self.contents().len(),
    {
        self.items.len()
    }

    /// Sends `m`. When the bus is full, the oldest half is dropped first, so
    /// the message always gets in.
    pub fn send(&mut self, m: T)
        requires
            old(self).wf(),
        ensures
            final(self).wf(),
            final(self).cap() == old(self).cap(),
            final(self).contents() == sent(old(self).contents(), old(self).cap(), m),
    {
        if self.items.len() >= self.capacity {
            let half = self.capacity / 2;
            let ghost q = self.items@;
            let mut k: usize = 0;
            while k < half
                invariant
                    self.capacity == old(self).capacity,
                    half == self.capacity / 2,
                    q == old(self).items@,
                    q.len() >= self.capacity,
                    k <= half,
                    self.items@ == q.subrange(k as int, q.len() as int),
                decreases half - k,
            {
                let _ = self.items.pop_front();
                assert(self.items@ =~= q.subrange(k + 1, q.len() as int));
                k = k + 1;
            }
        }
        self.items.push_back(m);
    }

    /// Takes every waiting message, oldest first.
    pub fn drain(&mut self) -> (r: Vec<T>)
        requires
            old(self).wf(),
        ensures
            final(self).wf(),
            final(self).cap() == old(self).cap(),
            final(self).contents() == Seq::<T>::empty(),
            r@ == old(self).contents(),
    {
        let mut out: Vec<T> = Vec::new();
        while self.items.len() > 0
            invariant
                self.capacity == old(self).capacity,
                old(self).items@ == out@ + self.items@,
            decreases self.items@.len(),
        {
            let ghost before = self.items@;
            match self.items.pop_front() {
                Some(m) => {
                    out.push(m);
                    assert(old(self).items@ =~= out@ + self.items@);
                },
                None => {},
            }
        }
        assert(out@ =~= old(self).items@);
        out
    }
}

/// Sending messages to a bus of capacity two or more keeps it within its
/// capacity; what it holds is always the newest part of the old contents
/// followed by the sent messages, so a message is only ever dropped after
/// every older one; and the newest `capacity - capacity / 2 + 1` messages, or
/// all of them when fewer were sent and held, are never dropped.
pub proof fn lemma_lossy_drain<T>(q: Seq<T>, capacity: nat, ms: Seq<T>)
    requires
        capacity >= 2,
        q.len() <= capacity,
    ensures
        sent_all(q, capacity, ms).len() <= capacity,
        ({
            let all = q + ms;
            let r = sent_all(q, capacity, ms);
            &&& r.len() <= all.len()
            &&& r == all.subrange(all.len() - r.len(), all.len() as int)
            &&& r.len() >= if all.len() < capacity - capacity / 2 + 1 {
                all.len()
            } else {
                (capacity - capacity / 2 + 1) as nat
            }
        }),
    decreases ms.len(),
{
    if ms.len() > 0 {
        let prev = ms.drop_last();
        lemma_lossy_drain(q, capacity, prev);
        let p = sent_all(q, capacity, prev);
        let all_p = q + prev;
        let all = q + ms;
        assert(all =~= all_p.push(ms.last()));
        let r = sent_all(q, capacity, ms);
        if p.len() < capacity {
            assert(r =~= all.subrange(all.len() - r.len(), all.len() as int));
        } else {
            let h = (capacity / 2) as int;
            assert(p.subrange(h, p.len() as int) =~= all_p.subrange(all_p.len() - p.len() + h, all_p.len() as int));
            assert(r =~= all.subrange(all.len() - r.len(), all.len() as int));
        }
    }
}

} // verus!
