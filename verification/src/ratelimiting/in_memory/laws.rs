//! What holds of the in-memory rate limiter whatever it is asked.

use vstd::prelude::*;
use crate::ratelimiting::headers::HeadersView;
use crate::ratelimiting::in_memory::{LimiterView, Step, Ticket};
use crate::routing::Path;

verus! {

/// One call of the limiter.
pub enum Call {
    /// A ticket is put into the queue of a path.
    Enter(Path, Ticket),
    /// The worker of a path asks what to do next.
    Next(Path),
    /// A response on a path is reported, at a time.
    Report(Path, HeadersView, u64),
    /// All buckets are released.
    Release,
}

impl LimiterView {
    /// What the limiter holds after a call.
    pub open spec fn after(self, call: Call) -> LimiterView {
        match call {
            Call::Enter(path, ticket) => self.entered(path, ticket),
            Call::Next(path) => self.stepped(path),
            Call::Report(path, headers, now) => self.reported(path, headers, now),
            Call::Release => LimiterView { locked: false, ..self },
        }
    }

    /// What the limiter holds after the calls, in order.
    pub open spec fn after_all(self, calls: Seq<Call>) -> LimiterView
        decreases calls.len(),
    {
        if calls.len() == 0 {
            self
        } else {
            self.after_all(calls.drop_last()).after(calls.last())
        }
    }

    /// The tickets that the calls put into the queue of `path`, in order.
    pub open spec fn entered_on(calls: Seq<Call>, path: Path) -> Seq<Ticket>
        decreases calls.len(),
    {
        if calls.len() == 0 {
            Seq::empty()
        } else {
            let before = LimiterView::entered_on(calls.drop_last(), path);
            match calls.last() {
                Call::Enter(p, ticket) if p == path => before.push(ticket),
                _ => before,
            }
        }
    }

    /// The tickets of `path` that the calls had signalled, in order.
    pub open spec fn signalled_on(self, calls: Seq<Call>, path: Path) -> Seq<Ticket>
        decreases calls.len(),
    {
        if calls.len() == 0 {
            Seq::empty()
        } else {
            let before = self.signalled_on(calls.drop_last(), path);
            match calls.last() {
                Call::Next(p) if p == path => match self.after_all(calls.drop_last()).step(p) {
                    Step::Signal(ticket) => before.push(ticket),
                    _ => before,
                },
                _ => before,
            }
        }
    }
}

/// Once a ticket was put into the queue of a path, the path has a bucket and
/// the ticket waits last on it. What was known of a bucket stays known, and
/// nothing changes for any other path.
pub proof fn bucket_once_entered(view: LimiterView, path: Path, ticket: Ticket, other: Path)
    ensures
        view.entered(path, ticket).has(path),
        view.entered(path, ticket).queue(other) == (if other == path {
            view.queue(other).push(ticket)
        } else {
            view.queue(other)
        }),
        other != path || view.has(path) ==> view.entered(path, ticket).known(other)
            == view.known(other),
{
    if other == path && !view.has(path) {
        assert(seq![ticket] =~= Seq::<Ticket>::empty().push(ticket));
    }
}

/// A call keeps the limiter's invariant.
pub proof fn call_keeps_invariant(view: LimiterView, call: Call)
    requires
        view.wf(),
    ensures
        view.after(call).wf(),
{
}

/// What a call does to the queue of a path: a ticket that is put into it
/// comes last, a ticket that is signalled was first and leaves, and nothing
/// else changes it.
pub proof fn queue_after_call(view: LimiterView, call: Call, path: Path)
    requires
        view.wf(),
    ensures
        view.after(call).queue(path) == match call {
            Call::Enter(p, ticket) if p == path => view.queue(path).push(ticket),
            Call::Next(p) if p == path => match view.step(p) {
                Step::Signal(ticket) => view.queue(path).drop_first(),
                _ => view.queue(path),
            },
            _ => view.queue(path),
        },
        match call {
            Call::Next(p) if p == path => match view.step(p) {
                Step::Signal(ticket) => view.queue(path).len() > 0 && ticket == view.queue(
                    path,
                )[0],
                _ => true,
            },
            _ => true,
        },
{
    match call {
        Call::Enter(p, ticket) => {
            bucket_once_entered(view, p, ticket, path);
        },
        Call::Next(p) => {
            if p == path && view.has(p) && view.step(p) == Step::Exit {
                assert(view.after(call).queue(path) =~= view.queue(path));
            }
        },
        _ => {},
    }
}

/// Any calls keep the limiter's invariant.
pub proof fn calls_keep_invariant(start: LimiterView, calls: Seq<Call>)
    requires
        start.wf(),
    ensures
        start.after_all(calls).wf(),
    decreases calls.len(),
{
    if calls.len() > 0 {
        calls_keep_invariant(start, calls.drop_last());
        call_keeps_invariant(start.after_all(calls.drop_last()), calls.last());
    }
}

/// Tickets are signalled in the order in which they were requested: on any
/// path and after any calls, the tickets that waited at the start followed by
/// those that were put into the queue since are the tickets that were
/// signalled followed by those that still wait.
pub proof fn tickets_leave_in_order(start: LimiterView, calls: Seq<Call>, path: Path)
    requires
        start.wf(),
    ensures
        start.queue(path) + LimiterView::entered_on(calls, path) == start.signalled_on(
            calls,
            path,
        ) + start.after_all(calls).queue(path),
    decreases calls.len(),
{
    if calls.len() == 0 {
        assert(start.queue(path) + Seq::<Ticket>::empty() =~= Seq::<Ticket>::empty()
            + start.queue(path));
    } else {
        let earlier = calls.drop_last();
        let view = start.after_all(earlier);
        tickets_leave_in_order(start, earlier, path);
        calls_keep_invariant(start, earlier);
        queue_after_call(view, calls.last(), path);
        let waited = start.queue(path);
        let entered = LimiterView::entered_on(earlier, path);
        let served = start.signalled_on(earlier, path);
        let queue = view.queue(path);
        assert(waited + entered == served + queue);
        match calls.last() {
            Call::Enter(p, ticket) => {
                if p == path {
                    assert(waited + entered.push(ticket) =~= (waited + entered).push(ticket));
                    assert(served + queue.push(ticket) =~= (served + queue).push(ticket));
                }
            },
            Call::Next(p) => {
                if p == path {
                    match view.step(p) {
                        Step::Signal(ticket) => {
                            assert(served.push(ticket) + queue.drop_first() =~= served + queue);
                        },
                        _ => {},
                    }
                }
            },
            _ => {},
        }
    }
}

/// While all buckets are held back, no ticket is signalled on any path, and
/// only a release ends the hold.
pub proof fn latch_holds_tickets(view: LimiterView, call: Call)
    requires
        view.locked,
    ensures
        match call {
            Call::Next(path) => !(view.step(path) is Signal),
            _ => true,
        },
        !(call is Release) ==> view.after(call).locked,
{
}

} // verus!
