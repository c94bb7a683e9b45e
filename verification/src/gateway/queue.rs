//! The queue that paces the handshakes of the shards that share it.
//!
//! The queue decides; it neither waits nor signals. Its driver asks
//! [`LocalQueue::poll`] what to do at the present time and does it.

use vstd::prelude::*;

verus! {

/// The milliseconds that pass between two handshakes.
pub const IDENTIFY_INTERVAL: u64 = 5000;

/// What the driver of the queue is to do.
#[derive(Clone, Copy, Debug, PartialEq, Eq, Structural)]
pub enum Admission {
    /// No shard waits.
    Idle,
    /// Wait for so many milliseconds, then ask again.
    Wait(u64),
    /// Let the shard send its handshake.
    Admit(u64),
}

/// What a [`LocalQueue`] holds: the shards that wait, in the order in which
/// they asked, and the time of the last handshake.
pub struct QueueView {
    pub waiting: Seq<u64>,
    pub admitted_at: Option<u64>,
}

/// The place of the first request of `shard`: the length of the queue where
/// the shard does not wait.
pub open spec fn first_request(waiting: Seq<u64>, shard: u64) -> int
    decreases waiting.len(),
{
    if waiting.len() == 0 || waiting[0] == shard {
        0
    } else {
        1 + first_request(waiting.drop_first(), shard)
    }
}

/// The first place at which the shard waits is the place of its first
/// request.
pub proof fn first_request_found(waiting: Seq<u64>, shard: u64, at: int)
    requires
        0 <= at <= waiting.len(),
        forall|k: int| 0 <= k < at ==> waiting[k] != shard,
        at < waiting.len() ==> waiting[at] == shard,
    ensures
        first_request(waiting, shard) == at,
    decreases waiting.len(),
{
    if waiting.len() == 0 || waiting[0] == shard {
    } else {
        let rest = waiting.drop_first();
        assert forall|k: int| 0 <= k < at - 1 implies rest[k] != shard by {
            assert(rest[k] == waiting[k + 1]);
        }
        first_request_found(rest, shard, at - 1);
    }
}

impl QueueView {
    /// The queue without the first request of `shard`.
    pub open spec fn cancelled(self, shard: u64) -> QueueView {
        let at = first_request(self.waiting, shard);
        if at < self.waiting.len() {
            QueueView { waiting: self.waiting.remove(at), ..self }
        } else {
            self
        }
    }

    /// The milliseconds that are still to pass at the time `now` before the
    /// next handshake.
    pub open spec fn wait(self, now: u64) -> nat {
        match self.admitted_at {
            Some(at) => if now >= at && now - at >= IDENTIFY_INTERVAL {
                0
            } else if now >= at {
                (IDENTIFY_INTERVAL - (now - at)) as nat
            } else {
                IDENTIFY_INTERVAL as nat
            },
            None => 0,
        }
    }

    /// What the driver is to do at the time `now`.
    pub open spec fn admission(self, now: u64) -> Admission {
        if self.waiting.len() == 0 {
            Admission::Idle
        } else if self.wait(now) > 0 {
            Admission::Wait(self.wait(now) as u64)
        } else {
            Admission::Admit(self.waiting[0])
        }
    }

    /// The queue after the driver was told what to do at the time `now`: a
    /// shard that is admitted has left the queue, and the time is that of
    /// the last handshake.
    pub open spec fn polled(self, now: u64) -> QueueView {
        match self.admission(now) {
            Admission::Admit(_) => QueueView {
                waiting: self.waiting.drop_first(),
                admitted_at: Some(now),
            },
            _ => self,
        }
    }
}

/// A queue that lets one shard at a time send its handshake, in the order
/// in which the shards asked, and no two within five seconds.
#[derive(Clone, Debug)]
pub struct LocalQueue {
    waiting: Vec<u64>,
    admitted_at: Option<u64>,
}

impl LocalQueue {
    /// What the queue holds.
    pub closed spec fn view(&self) -> QueueView {
        QueueView { waiting: self.waiting@, admitted_at: self.admitted_at }
    }

    /// A queue in which no shard waits and that has admitted none.
    pub fn new() -> (queue: Self)
        ensures
            queue@.waiting.len() == 0,
            queue@.admitted_at.is_none(),
    {
        LocalQueue { waiting: Vec::new(), admitted_at: None }
    }

    /// Puts a shard at the end of the queue.
    pub fn request(&mut self, shard_id: u64)
        ensures
            final(self)@ == (QueueView {
                waiting: old(self)@.waiting.push(shard_id),
                ..old(self)@
            }),
    {
        self.waiting.push(shard_id);
    }

    /// Takes a shard that has given up waiting out of the queue, so that it
    /// does not hold up those behind it. Takes out its first request where
    /// it asked more than once.
    pub fn cancel(&mut self, shard_id: u64) -> (found: bool)
        ensures
            found == (first_request(old(self)@.waiting, shard_id) < old(self)@.waiting.len()),
            final(self)@ == old(self)@.cancelled(shard_id),
    {
        let mut i: usize = 0;
        while i < self.waiting.len()
            invariant
                i <= self.waiting@.len(),
                self.waiting@ == old(self).waiting@,
                self.admitted_at == old(self).admitted_at,
                forall|k: int| 0 <= k < i ==> self.waiting@[k] != shard_id,
            decreases self.waiting@.len() - i,
        {
            if self.waiting[i] == shard_id {
                proof {
                    first_request_found(old(self).waiting@, shard_id, i as int);
                }
                let _ = self.waiting.remove(i);
                return true;
            }
            i = i + 1;
        }
        proof {
            first_request_found(old(self).waiting@, shard_id, i as int);
        }
        false
    }

    /// Tells the driver what to do at the time `now`, in milliseconds on a
    /// clock that does not go back. A shard that is admitted leaves the
    /// queue.
    pub fn poll(&mut self, now: u64) -> (admission: Admission)
        ensures
            admission == old(self)@.admission(now),
            final(self)@ == old(self)@.polled(now),
    {
        if self.waiting.len() == 0 {
            return Admission::Idle;
        }
        let wait = match self.admitted_at {
            Some(at) => if now >= at && now - at >= IDENTIFY_INTERVAL {
                0
            } else if now >= at {
                IDENTIFY_INTERVAL - (now - at)
            } else {
                IDENTIFY_INTERVAL
            },
            None => 0,
        };
        if wait > 0 {
            return Admission::Wait(wait);
        }
        let shard_id = self.waiting.remove(0);
        self.admitted_at = Some(now);
        assert(self.waiting@ =~= old(self)@.waiting.drop_first());
        Admission::Admit(shard_id)
    }

    /// The number of shards that wait.
    pub fn len(&self) -> (waiting: usize)
        ensures
            waiting == self@.waiting.len(),
    {
        self.waiting.len()
    }
}

/// Two handshakes in a row are at least five seconds apart, on a clock that
/// does not go back.
pub proof fn handshakes_are_apart(queue: QueueView, first: u64, second: u64)
    requires
        first <= second,
        queue.admission(first) is Admit,
        queue.polled(first).admission(second) is Admit,
    ensures
        second - first >= IDENTIFY_INTERVAL,
{
}

/// Shards are admitted in the order in which they asked: one that is
/// admitted is the one that has waited longest.
pub proof fn first_come_first_admitted(queue: QueueView, now: u64)
    ensures
        match queue.admission(now) {
            Admission::Admit(shard) => queue.waiting.len() > 0 && shard == queue.waiting[0]
                && queue.polled(now).waiting == queue.waiting.drop_first(),
            _ => queue.polled(now) == queue,
        },
{
}

} // verus!
