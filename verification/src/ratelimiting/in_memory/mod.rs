//! A rate limiter that keeps its buckets in memory.
//!
//! The limiter decides; it neither waits nor signals. Each bucket has a
//! worker outside this module that asks [`InMemoryRatelimiter::next`] what
//! to do, does it, and hands back what the response said through
//! [`InMemoryRatelimiter::report`].

pub mod laws;

use std::collections::HashMap;
use vstd::prelude::*;
use crate::ratelimiting::headers::{Headers, HeadersView};
use crate::ratelimiting::{Bucket, Ratelimiter};
use crate::routing::{codes_tell_paths_apart, Path};

verus! {

broadcast use vstd::std_specs::hash::group_hash_axioms;

/// The latch that holds all buckets back while the platform limits every
/// route.
#[derive(Debug)]
pub struct GlobalLockPair {
    locked: bool,
}

impl Default for GlobalLockPair {
    /// A latch that is not set.
    fn default() -> (pair: Self)
        ensures
            !pair.locked(),
    {
        GlobalLockPair { locked: false }
    }
}

impl GlobalLockPair {
    /// Whether the latch is set.
    pub closed spec fn locked(&self) -> bool {
        self.locked
    }

    /// A latch that is not set.
    pub fn new() -> (pair: Self)
        ensures
            !pair.locked(),
    {
        GlobalLockPair { locked: false }
    }

    /// Sets the latch.
    pub fn lock(&mut self)
        ensures
            final(self).locked(),
    {
        self.locked = true;
    }

    /// Clears the latch.
    pub fn unlock(&mut self)
        ensures
            !final(self).locked(),
    {
        self.locked = false;
    }

    /// Whether the latch is set.
    pub fn is_locked(&self) -> (locked: bool)
        ensures
            locked == self.locked(),
    {
        self.locked
    }
}

/// A ticket: the right to send one request once the ticket is signalled.
#[derive(Clone, Copy, Debug, PartialEq, Eq, Structural, Hash)]
pub struct Ticket(pub u64);

/// The queue and the limits of one path.
#[derive(Clone, Debug)]
pub struct BucketState {
    pub path: Path,
    pub queue: Vec<Ticket>,
    /// The name that the platform gives the bucket, once it has given one.
    pub bucket: Option<String>,
    pub limit: u64,
    pub remaining: u64,
    /// The time of the next reset, in milliseconds since the Unix epoch.
    pub reset: u64,
    pub reset_after: u64,
    pub started_at: u64,
}

/// What a [`BucketState`] holds.
pub struct BucketView {
    pub path: Path,
    pub queue: Seq<Ticket>,
    pub bucket: Option<Seq<char>>,
    pub limit: u64,
    pub remaining: u64,
    pub reset: u64,
    pub reset_after: u64,
    pub started_at: u64,
}

impl View for BucketState {
    type V = BucketView;

    open spec fn view(&self) -> BucketView {
        BucketView {
            path: self.path,
            queue: self.queue@,
            bucket: match self.bucket {
                Some(name) => Some(name@),
                None => None,
            },
            limit: self.limit,
            remaining: self.remaining,
            reset: self.reset,
            reset_after: self.reset_after,
            started_at: self.started_at,
        }
    }
}

/// What a worker is to do next.
#[derive(Clone, Copy, Debug, PartialEq, Eq, Structural)]
pub enum Step {
    /// The queue has drained and the bucket is gone: stop.
    Exit,
    /// All buckets are held back: wait until they are released, then ask
    /// again.
    AwaitGlobal,
    /// Signal the ticket, then report what the response said.
    Signal(Ticket),
}

/// How long a worker is to wait after a report.
#[derive(Clone, Copy, Debug, PartialEq, Eq, Structural)]
pub struct Pause {
    /// The milliseconds for which all buckets stay held back; the worker
    /// releases them afterwards.
    pub global: Option<u64>,
    /// The milliseconds after which the bucket refreshes, where it has no
    /// ticket left.
    pub bucket: Option<u64>,
}

/// A bucket of which nothing is known yet, with one ticket waiting: its
/// limits are the greatest numbers, so that nothing holds it back.
pub open spec fn fresh_bucket(path: Path, ticket: Ticket) -> BucketView {
    BucketView {
        path,
        queue: seq![ticket],
        bucket: None,
        limit: u64::MAX,
        remaining: u64::MAX,
        reset: u64::MAX,
        reset_after: u64::MAX,
        started_at: 0,
    }
}

/// What an in-memory rate limiter holds.
#[verifier::ext_equal]
pub struct LimiterView {
    pub buckets: Map<Path, BucketView>,
    pub locked: bool,
    pub issued: u64,
}

impl LimiterView {
    /// Every bucket stands under its own path, so that no two buckets have
    /// the same path.
    pub open spec fn wf(self) -> bool {
        forall|path: Path| #[trigger]
            self.buckets.contains_key(path) ==> self.buckets[path].path == path
    }

    /// Whether there is a bucket for `path`.
    pub open spec fn has(self, path: Path) -> bool {
        self.buckets.contains_key(path)
    }

    /// The bucket of `path`, if there is one.
    pub open spec fn bucket(self, path: Path) -> Option<BucketView> {
        if self.has(path) {
            Some(self.buckets[path])
        } else {
            None
        }
    }

    /// The tickets that wait on `path`, in the order in which they were
    /// requested.
    pub open spec fn queue(self, path: Path) -> Seq<Ticket> {
        match self.bucket(path) {
            Some(b) => b.queue,
            None => Seq::empty(),
        }
    }

    /// `ticket` waits on `path`, behind those that waited there already.
    pub open spec fn entered(self, path: Path, ticket: Ticket) -> LimiterView {
        if self.has(path) {
            LimiterView {
                buckets: self.buckets.insert(
                    path,
                    BucketView {
                        queue: self.buckets[path].queue.push(ticket),
                        ..self.buckets[path]
                    },
                ),
                ..self
            }
        } else {
            LimiterView { buckets: self.buckets.insert(path, fresh_bucket(path, ticket)), ..self }
        }
    }

    /// What the worker of `path` is to do next.
    pub open spec fn step(self, path: Path) -> Step {
        match self.bucket(path) {
            Some(b) => if b.queue.len() == 0 {
                Step::Exit
            } else if self.locked {
                Step::AwaitGlobal
            } else {
                Step::Signal(b.queue[0])
            },
            None => Step::Exit,
        }
    }

    /// The limiter after the worker of `path` was told what to do next: a
    /// signalled ticket has left its queue, and a bucket whose queue had
    /// drained is gone.
    pub open spec fn stepped(self, path: Path) -> LimiterView {
        match self.step(path) {
            Step::Signal(_) => LimiterView {
                buckets: self.buckets.insert(
                    path,
                    BucketView {
                        queue: self.buckets[path].queue.drop_first(),
                        ..self.buckets[path]
                    },
                ),
                ..self
            },
            Step::AwaitGlobal => self,
            Step::Exit => LimiterView { buckets: self.buckets.remove(path), ..self },
        }
    }

    /// How long the worker is to wait after a response said `headers`.
    pub open spec fn pause(headers: HeadersView) -> Pause {
        match headers {
            HeadersView::GlobalLimited { reset_after } => Pause {
                global: Some(reset_after),
                bucket: None,
            },
            HeadersView::Unlimited => Pause { global: None, bucket: None },
            HeadersView::Present { global, remaining, reset_after, .. } => Pause {
                global: if global {
                    Some(reset_after)
                } else {
                    None
                },
                bucket: if remaining == 0 {
                    Some(reset_after)
                } else {
                    None
                },
            },
        }
    }

    /// The limiter after a response on `path` said `headers` at the time
    /// `now`: the bucket, if it is still there, has the limits that the
    /// headers give, and all buckets are held back if the headers say so.
    pub open spec fn reported(self, path: Path, headers: HeadersView, now: u64) -> LimiterView {
        match headers {
            HeadersView::GlobalLimited { .. } => LimiterView { locked: true, ..self },
            HeadersView::Unlimited => self,
            HeadersView::Present {
                bucket,
                global,
                limit,
                remaining,
                reset,
                reset_after,
            } => LimiterView {
                buckets: if self.has(path) {
                    self.buckets.insert(
                        path,
                        BucketView {
                            bucket: match bucket {
                                Some(name) => Some(name),
                                None => self.buckets[path].bucket,
                            },
                            limit,
                            remaining,
                            reset,
                            reset_after,
                            started_at: now,
                            ..self.buckets[path]
                        },
                    )
                } else {
                    self.buckets
                },
                locked: self.locked || global,
                ..self
            },
        }
    }

    /// What is known of the bucket of `path`, as the four numbers that a
    /// [`Bucket`] holds.
    pub open spec fn known(self, path: Path) -> Option<Bucket> {
        match self.bucket(path) {
            Some(b) => Some(Bucket::of(b.limit, b.remaining, b.reset_after, b.started_at)),
            None => None,
        }
    }
}

/// A rate limiter that keeps its buckets in memory, in a map from the number
/// of a path to the path's bucket.
#[derive(Debug)]
pub struct InMemoryRatelimiter {
    buckets: HashMap<u128, BucketState>,
    global: GlobalLockPair,
    issued: u64,
}

impl InMemoryRatelimiter {
    /// What the limiter holds.
    pub closed spec fn view(&self) -> LimiterView {
        LimiterView {
            buckets: Map::new(
                |path: Path| self.buckets@.contains_key(path.code()),
                |path: Path| self.buckets@[path.code()]@,
            ),
            locked: self.global.locked(),
            issued: self.issued,
        }
    }

    /// Every bucket stands under the number of its own path.
    pub closed spec fn filed(&self) -> bool {
        forall|code: u128| #[trigger]
            self.buckets@.contains_key(code) ==> self.buckets@[code].path.code() == code
    }

    /// The invariant of the limiter: that of its view, and that of its map.
    pub open spec fn wf(&self) -> bool {
        self@.wf() && self.filed()
    }

    /// A limiter without buckets that holds nothing back and has given no
    /// ticket yet.
    pub fn new() -> (limiter: Self)
        ensures
            limiter.wf(),
            limiter@.buckets == Map::<Path, BucketView>::empty(),
            !limiter@.locked,
            limiter@.issued == 0,
    {
        let limiter = InMemoryRatelimiter {
            buckets: HashMap::new(),
            global: GlobalLockPair::new(),
            issued: 0,
        };
        assert(limiter@.buckets =~= Map::<Path, BucketView>::empty());
        limiter
    }

    /// What the map holds for a path is what the view holds for it, and no
    /// other path shares its number.
    proof fn by_path(&self, path: Path)
        requires
            self.filed(),
        ensures
            self@.has(path) == self.buckets@.contains_key(path.code()),
            self@.has(path) ==> self@.buckets[path] == self.buckets@[path.code()]@,
            self@.has(path) ==> self.buckets@[path.code()].path == path,
            forall|other: Path| other.code() == path.code() <==> other == path,
    {
        assert forall|other: Path| other.code() == path.code() <==> other == path by {
            codes_tell_paths_apart(other, path);
        }
        if self.buckets@.contains_key(path.code()) {
            codes_tell_paths_apart(self.buckets@[path.code()].path, path);
        }
    }

    /// Puts a ticket at the end of the queue of `path`, in a new bucket
    /// where the path has none. Says whether the bucket is new, in which
    /// case it wants a worker.
    pub fn entry(&mut self, path: Path, tx: Ticket) -> (fresh: bool)
        requires
            old(self).wf(),
        ensures
            final(self).wf(),
            fresh == !old(self)@.has(path),
            final(self)@ == old(self)@.entered(path, tx),
    {
        proof {
            self.by_path(path);
        }
        let code = path.code();
        let fresh = match self.buckets.remove(&code) {
            Some(bucket) => {
                let mut bucket = bucket;
                bucket.queue.push(tx);
                self.buckets.insert(code, bucket);
                false
            },
            None => {
                let mut queue: Vec<Ticket> = Vec::new();
                queue.push(tx);
                assert(queue@ =~= seq![tx]);
                self.buckets.insert(
                    code,
                    BucketState {
                        path,
                        queue,
                        bucket: None,
                        limit: u64::MAX,
                        remaining: u64::MAX,
                        reset: u64::MAX,
                        reset_after: u64::MAX,
                        started_at: 0,
                    },
                );
                true
            },
        };
        proof {
            assert(self@.buckets =~= old(self)@.entered(path, tx).buckets);
            assert(self@ =~= old(self)@.entered(path, tx));
        }
        fresh
    }

    /// Requests a ticket for `path`. Gives the ticket, which is numbered by
    /// the count of tickets given before, and whether the path's bucket is
    /// new, in which case it wants a worker.
    pub fn request(&mut self, path: Path) -> (receipt: (Ticket, bool))
        requires
            old(self).wf(),
        ensures
            final(self).wf(),
            receipt.0 == Ticket(old(self)@.issued),
            receipt.1 == !old(self)@.has(path),
            final(self)@ == (LimiterView {
                issued: old(self)@.issued.wrapping_add(1),
                ..old(self)@.entered(path, receipt.0)
            }),
    {
        let ticket = Ticket(self.issued);
        self.issued = self.issued.wrapping_add(1);
        let fresh = self.entry(path, ticket);
        (ticket, fresh)
    }

    /// Tells the worker of `path` what to do next. A ticket that is to be
    /// signalled leaves its queue; a bucket whose queue has drained is
    /// removed.
    pub fn next(&mut self, path: &Path) -> (step: Step)
        requires
            old(self).wf(),
        ensures
            final(self).wf(),
            step == old(self)@.step(*path),
            final(self)@ == old(self)@.stepped(*path),
    {
        proof {
            self.by_path(*path);
        }
        let code = path.code();
        let step = match self.buckets.remove(&code) {
            Some(bucket) => {
                if bucket.queue.len() == 0 {
                    Step::Exit
                } else if self.global.is_locked() {
                    self.buckets.insert(code, bucket);
                    Step::AwaitGlobal
                } else {
                    let mut bucket = bucket;
                    let ticket = bucket.queue.remove(0);
                    assert(bucket.queue@ =~= old(self)@.buckets[*path].queue.drop_first());
                    self.buckets.insert(code, bucket);
                    Step::Signal(ticket)
                }
            },
            None => Step::Exit,
        };
        proof {
            assert(self@.buckets =~= old(self)@.stepped(*path).buckets);
            assert(self@ =~= old(self)@.stepped(*path));
        }
        step
    }

    /// Takes in what a response on `path` said at the time `now`, in
    /// milliseconds since the Unix epoch, and tells the worker how long to
    /// wait.
    pub fn report(&mut self, path: &Path, headers: &Headers, now: u64) -> (pause: Pause)
        requires
            old(self).wf(),
        ensures
            final(self).wf(),
            pause == LimiterView::pause(headers@),
            final(self)@ == old(self)@.reported(*path, headers@, now),
    {
        proof {
            self.by_path(*path);
        }
        let pause = match headers {
            Headers::GlobalLimited { reset_after } => {
                self.global.lock();
                Pause { global: Some(*reset_after), bucket: None }
            },
            Headers::Unlimited => Pause { global: None, bucket: None },
            Headers::Present { bucket: name, global, limit, remaining, reset, reset_after } => {
                let code = path.code();
                match self.buckets.remove(&code) {
                    Some(bucket) => {
                        let mut bucket = bucket;
                        match name {
                            Some(name) => {
                                bucket.bucket = Some(name.clone());
                            },
                            None => {},
                        }
                        bucket.limit = *limit;
                        bucket.remaining = *remaining;
                        bucket.reset = *reset;
                        bucket.reset_after = *reset_after;
                        bucket.started_at = now;
                        self.buckets.insert(code, bucket);
                    },
                    None => {},
                }
                if *global {
                    self.global.lock();
                }
                Pause {
                    global: if *global {
                        Some(*reset_after)
                    } else {
                        None
                    },
                    bucket: if *remaining == 0 {
                        Some(*reset_after)
                    } else {
                        None
                    },
                }
            },
        };
        proof {
            assert(self@.buckets =~= old(self)@.reported(*path, headers@, now).buckets);
            assert(self@ =~= old(self)@.reported(*path, headers@, now));
        }
        pause
    }

    /// Releases all buckets.
    pub fn release_global(&mut self)
        requires
            old(self).wf(),
        ensures
            final(self).wf(),
            final(self)@ == (LimiterView { locked: false, ..old(self)@ }),
    {
        self.global.unlock();
        proof {
            assert(self@ =~= (LimiterView { locked: false, ..old(self)@ }));
        }
    }

    /// What is known of the bucket of `path`.
    pub fn bucket_info(&self, path: &Path) -> (info: Option<Bucket>)
        requires
            self.wf(),
        ensures
            info == self@.known(*path),
            info.is_some() == self@.has(*path),
            info.is_some() ==> {
                let known = info.unwrap();
                let bucket = self@.bucket(*path).unwrap();
                &&& known.limit() == bucket.limit
                &&& known.remaining() == bucket.remaining
                &&& known.reset_after() == bucket.reset_after
                &&& known.started_at() == bucket.started_at
            },
    {
        proof {
            self.by_path(*path);
        }
        let code = path.code();
        match self.buckets.get(&code) {
            Some(bucket) => Some(
                Bucket::new(bucket.limit, bucket.remaining, bucket.reset_after, bucket.started_at),
            ),
            None => None,
        }
    }

    /// Whether all buckets are held back.
    pub fn is_globally_locked(&self) -> (locked: bool)
        ensures
            locked == self@.locked,
    {
        self.global.is_locked()
    }

    /// Whether there is a bucket for `path`.
    pub fn has_bucket(&self, path: &Path) -> (found: bool)
        requires
            self.wf(),
        ensures
            found == self@.has(*path),
    {
        proof {
            self.by_path(*path);
        }
        let code = path.code();
        self.buckets.contains_key(&code)
    }
}

impl Ratelimiter for InMemoryRatelimiter {
    open spec fn ready(&self) -> bool {
        self.wf()
    }

    open spec fn known(&self, path: Path) -> Option<Bucket> {
        self@.known(path)
    }

    open spec fn waiting(&self, path: Path) -> Seq<Ticket> {
        self@.queue(path)
    }

    open spec fn held_back(&self) -> bool {
        self@.locked
    }

    fn bucket(&self, path: &Path) -> (info: Option<Bucket>)
        ensures
            info == self@.known(*path),
    {
        self.bucket_info(path)
    }

    fn globally_locked(&self) -> (locked: bool)
        ensures
            locked == self@.locked,
    {
        self.is_globally_locked()
    }

    fn has(&self, path: &Path) -> (found: bool)
        ensures
            found == self@.has(*path),
    {
        self.has_bucket(path)
    }

    fn ticket(&mut self, path: Path) -> (ticket: Ticket)
        ensures
            ticket == Ticket(old(self)@.issued),
            final(self)@ == (LimiterView {
                issued: old(self)@.issued.wrapping_add(1),
                ..old(self)@.entered(path, ticket)
            }),
    {
        proof {
            let first = Ticket(old(self)@.issued);
            let after = LimiterView {
                issued: old(self)@.issued.wrapping_add(1),
                ..old(self)@.entered(path, first)
            };
            assert forall|other: Path|
                after.queue(other) == (if other == path {
                    old(self)@.queue(other).push(first)
                } else {
                    old(self)@.queue(other)
                }) && (other != path || old(self)@.has(path) ==> after.known(other)
                    == old(self)@.known(other)) && after.has(path) by {
                crate::ratelimiting::in_memory::laws::bucket_once_entered(
                    old(self)@,
                    path,
                    first,
                    other,
                );
            }
        }
        self.request(path).0
    }
}

} // verus!
