//! Rate limiting of outbound REST calls.

pub mod clock;
pub mod header_map;
pub mod headers;
pub mod in_memory;
pub mod message;
pub mod text;

pub use self::in_memory::InMemoryRatelimiter;

use std::time::Duration;
use vstd::prelude::*;
use crate::ratelimiting::clock::{duration_millis, of_millis, unix_millis};
use crate::ratelimiting::in_memory::Ticket;
use crate::routing::Path;

verus! {

/// What is known of a bucket.
#[derive(Clone, Copy, Debug, PartialEq, Eq, Structural)]
pub struct Bucket {
    limit: u64,
    remaining: u64,
    reset_after: u64,
    started_at: u64,
}

impl Bucket {
    /// The bucket of which these four numbers are known.
    pub closed spec fn of(limit: u64, remaining: u64, reset_after: u64, started_at: u64) -> Bucket {
        Bucket { limit, remaining, reset_after, started_at }
    }

    /// A bucket is what is known of it: it holds the four numbers it was
    /// made of, and two buckets of the same numbers are the same.
    pub proof fn of_holds(self)
        ensures
            self == Bucket::of(self.limit(), self.remaining(), self.reset_after(), self.started_at()),
    {
    }

    /// A bucket with what is known of it.
    pub fn new(limit: u64, remaining: u64, reset_after: u64, started_at: u64) -> (bucket: Bucket)
        ensures
            bucket == Bucket::of(limit, remaining, reset_after, started_at),
            bucket.limit() == limit,
            bucket.remaining() == remaining,
            bucket.reset_after() == reset_after,
            bucket.started_at() == started_at,
    {
        Bucket { limit, remaining, reset_after, started_at }
    }

    /// Total number of tickets allotted in a cycle.
    pub closed spec fn spec_limit(&self) -> u64 {
        self.limit
    }

    /// Number of tickets remaining.
    pub closed spec fn spec_remaining(&self) -> u64 {
        self.remaining
    }

    /// Number of milliseconds after which the bucket refreshes.
    pub closed spec fn spec_reset_after(&self) -> u64 {
        self.reset_after
    }

    /// When the bucket's countdown started.
    pub closed spec fn spec_started_at(&self) -> u64 {
        self.started_at
    }

    /// Total number of tickets allotted in a cycle.
    #[verifier::when_used_as_spec(spec_limit)]
    pub fn limit(&self) -> (limit: u64)
        ensures
            limit == self.limit(),
    {
        self.limit
    }

    /// Number of tickets remaining.
    #[verifier::when_used_as_spec(spec_remaining)]
    pub fn remaining(&self) -> (remaining: u64)
        ensures
            remaining == self.remaining(),
    {
        self.remaining
    }

    /// Number of milliseconds after the time of [`Bucket::started_at`] at
    /// which the bucket refreshes.
    #[verifier::when_used_as_spec(spec_reset_after)]
    pub fn reset_after(&self) -> (reset_after: u64)
        ensures
            reset_after == self.reset_after(),
    {
        self.reset_after
    }

    /// When the bucket's countdown to its refresh started, in milliseconds
    /// since the Unix epoch.
    #[verifier::when_used_as_spec(spec_started_at)]
    pub fn started_at(&self) -> (started_at: u64)
        ensures
            started_at == self.started_at(),
    {
        self.started_at
    }

    /// The milliseconds left until the bucket refreshes, at a time `now`
    /// given in milliseconds since the Unix epoch: nothing where the bucket
    /// has refreshed already. A time before the countdown started counts as
    /// the time at which it started.
    pub open spec fn remaining_at(&self, now: u64) -> Option<u64> {
        let elapsed = if now > self.started_at() {
            now - self.started_at()
        } else {
            0
        };
        if elapsed > self.reset_after() {
            None
        } else {
            Some((self.reset_after() - elapsed) as u64)
        }
    }

    /// Decides [`Bucket::remaining_at`].
    pub fn time_remaining_at(&self, now: u64) -> (left: Option<u64>)
        ensures
            left == self.remaining_at(now),
    {
        let elapsed = if now > self.started_at {
            now - self.started_at
        } else {
            0
        };
        if elapsed > self.reset_after {
            None
        } else {
            Some(self.reset_after - elapsed)
        }
    }

    /// How long until the bucket refreshes, by what the clock gave: the
    /// milliseconds since the Unix epoch, or nothing where the clock is
    /// before it. Nothing where the clock gave nothing or the bucket has
    /// refreshed already.
    pub fn time_remaining_by(&self, clock: Option<u64>) -> (left: Option<Duration>)
        ensures
            left.is_some() == (clock.is_some() && self.remaining_at(clock.unwrap()).is_some()),
            left.is_some() ==> duration_millis(left.unwrap()) == self.remaining_at(
                clock.unwrap(),
            ).unwrap(),
    {
        let now = match clock {
            Some(now) => now,
            None => {
                return None;
            },
        };
        match self.time_remaining_at(now) {
            Some(left) => Some(of_millis(left)),
            None => None,
        }
    }

    /// How long until the bucket refreshes. Nothing where the clock is
    /// before the Unix epoch or the bucket has refreshed already.
    pub fn time_remaining(&self) -> (left: Option<Duration>)
        ensures
            match left {
                Some(span) => exists|now: u64|
                    self.remaining_at(now) == Some(duration_millis(span) as u64),
                None => true,
            },
    {
        let clock = unix_millis();
        let left = self.time_remaining_by(clock);
        proof {
            if left.is_some() {
                assert(self.remaining_at(clock.unwrap()) == Some(
                    duration_millis(left.unwrap()) as u64,
                ));
            }
        }
        left
    }
}

/// Admission to outbound calls, route by route.
pub trait Ratelimiter {
    /// Whether the limiter is in order, which every call asks for and keeps.
    spec fn ready(&self) -> bool;

    /// What the limiter knows of the bucket of a path: nothing where it has
    /// no bucket for it.
    spec fn known(&self, path: Path) -> Option<Bucket>;

    /// The tickets that wait on a path, in the order in which they were
    /// requested and in which they will be served.
    spec fn waiting(&self, path: Path) -> Seq<Ticket>;

    /// Whether the limiter holds all buckets back.
    spec fn held_back(&self) -> bool;

    /// What is known of the bucket of a path.
    fn bucket(&self, path: &Path) -> (info: Option<Bucket>)
        requires
            self.ready(),
        ensures
            info == self.known(*path),
    ;

    /// Whether all buckets are held back.
    fn globally_locked(&self) -> (locked: bool)
        requires
            self.ready(),
        ensures
            locked == self.held_back(),
    ;

    /// Whether there is a bucket for the path.
    fn has(&self, path: &Path) -> (found: bool)
        requires
            self.ready(),
        ensures
            found == self.known(*path).is_some(),
    ;

    /// Requests a ticket for the path. The ticket waits behind those that
    /// waited on the path already, and the path has a bucket from then on.
    /// Nothing changes for any other path, nor whether all buckets are held
    /// back.
    fn ticket(&mut self, path: Path) -> (ticket: Ticket)
        requires
            old(self).ready(),
        ensures
            final(self).ready(),
            final(self).waiting(path) == old(self).waiting(path).push(ticket),
            final(self).known(path).is_some(),
            old(self).known(path).is_some() ==> final(self).known(path) == old(self).known(path),
            forall|other: Path|
                #![trigger final(self).waiting(other)]
                #![trigger final(self).known(other)]
                other != path ==> final(self).waiting(other) == old(self).waiting(other)
                    && final(self).known(other) == old(self).known(other),
            final(self).held_back() == old(self).held_back(),
    ;
}

} // verus!
