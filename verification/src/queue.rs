//! The queue and synchronization domain: a single execution queue paired with
//! a timeline object whose integer value only moves forward. Submissions
//! issue strictly increasing progress values; waiters compare a `SyncPoint`
//! against the timeline value.

use vstd::prelude::*;

verus! {

/// An immutable snapshot of a submission's progress value. A `SyncPoint`
/// with progress `p` is satisfied exactly when the timeline object has been
/// signaled to a value `>= p`. Freely copyable and comparable by progress.
#[derive(Clone, Copy, Debug, PartialEq, Eq, PartialOrd, Ord, Hash, Structural)]
pub struct SyncPoint {
    pub progress: u64,
}

/// Converts a wait timeout from milliseconds to the nanoseconds the native
/// wait call takes.
pub fn map_timeout(millis: u32) -> (nanos: u64)
    ensures
        nanos == millis * 1_000_000,
{
    millis as u64 * 1_000_000
}

/// The single execution queue. `raw` and `timeline_semaphore` are the core's
/// stable handles for the native queue and timeline object; `last_progress`
/// is the high-water mark of issued (not necessarily completed) work, and
/// `signaled` mirrors the timeline object's current value, reported back by
/// the device side.
#[derive(Clone, Copy, Debug, PartialEq, Eq, Structural)]
pub struct Queue {
    pub raw: u64,
    pub timeline_semaphore: u64,
    pub last_progress: u64,
    pub signaled: u64,
}

impl Queue {
    /// The device can only have completed work that was submitted.
    pub open spec fn wf(self) -> bool {
        self.signaled <= self.last_progress
    }

    /// Issues the next progress value: the high-water mark moves up by
    /// exactly one and the returned point carries it. Callers serialize
    /// their submissions, so submission order and progress order coincide.
    pub fn issue_progress(&mut self) -> (sp: SyncPoint)
        requires
            old(self).wf(),
            old(self).last_progress < u64::MAX,
        ensures
            final(self).wf(),
            *final(self) == queue_step(*old(self), QueueEvent::Submit),
            event_allowed(*old(self), QueueEvent::Submit),
            sp.progress == old(self).last_progress + 1,
    {
        self.last_progress = self.last_progress + 1;
        SyncPoint { progress: self.last_progress }
    }

    /// Whether the timeline object has reached the point's progress value.
    /// A wait can in particular never succeed on a point that no submission
    /// has issued yet.
    pub fn is_reached(&self, sp: SyncPoint) -> (done: bool)
        ensures
            done == wait_satisfied(*self, sp.progress as int),
            self.wf() && sp.progress > self.last_progress ==> !done,
    {
        self.signaled >= sp.progress
    }

    /// Records the device side's observed timeline value: it only moves
    /// forward and never past issued work.
    pub fn signal(&mut self, value: u64)
        requires
            old(self).wf(),
            old(self).signaled <= value,
            value <= old(self).last_progress,
        ensures
            final(self).wf(),
            *final(self) == queue_step(*old(self), (QueueEvent::Signal { value })),
            event_allowed(*old(self), (QueueEvent::Signal { value })),
    {
        self.signaled = value;
    }
}

/// One observable event on the queue domain: the host submits work, or the
/// device signals the timeline object up to `value`.
#[derive(Clone, Copy, Debug, PartialEq, Eq, Structural)]
pub enum QueueEvent {
    Submit,
    Signal { value: u64 },
}

/// When an event may occur: a submission must not exhaust the progress
/// counter, and the timeline only moves forward and never past issued work.
pub open spec fn event_allowed(q: Queue, e: QueueEvent) -> bool {
    match e {
        QueueEvent::Submit => q.last_progress < u64::MAX,
        QueueEvent::Signal { value } => q.signaled <= value <= q.last_progress,
    }
}

/// The state after one event.
pub open spec fn queue_step(q: Queue, e: QueueEvent) -> Queue {
    match e {
        QueueEvent::Submit => Queue { last_progress: (q.last_progress + 1) as u64, ..q },
        QueueEvent::Signal { value } => Queue { signaled: value, ..q },
    }
}

/// The state after a whole event sequence.
pub open spec fn queue_run(q: Queue, events: Seq<QueueEvent>) -> Queue
    decreases events.len(),
{
    if events.len() == 0 {
        q
    } else {
        queue_step(queue_run(q, events.drop_last()), events.last())
    }
}

/// Whether every event of the sequence is allowed in the state it meets.
pub open spec fn run_allowed(q: Queue, events: Seq<QueueEvent>) -> bool
    decreases events.len(),
{
    events.len() == 0 || (run_allowed(q, events.drop_last()) && event_allowed(
        queue_run(q, events.drop_last()),
        events.last(),
    ))
}

/// How many submissions an event sequence contains.
pub open spec fn count_submits(events: Seq<QueueEvent>) -> nat
    decreases events.len(),
{
    if events.len() == 0 {
        0
    } else {
        count_submits(events.drop_last()) + (if events.last() is Submit {
            1nat
        } else {
            0nat
        })
    }
}

/// The progress value the k-th submission (counting from 1) after state `q`
/// issues.
pub open spec fn kth_progress(q: Queue, k: nat) -> int {
    q.last_progress + k
}

/// Whether a wait on progress value `p` succeeds in state `q`.
pub open spec fn wait_satisfied(q: Queue, p: int) -> bool {
    p <= q.signaled
}

/// In an allowed run, the progress counter advances by exactly the number of
/// submissions, the device never overtakes issued work, and the native
/// handles never change.
pub proof fn lemma_run_progress(q: Queue, events: Seq<QueueEvent>)
    requires
        run_allowed(q, events),
    ensures
        queue_run(q, events).last_progress == q.last_progress + count_submits(events),
        q.wf() ==> queue_run(q, events).wf(),
        queue_run(q, events).raw == q.raw,
        queue_run(q, events).timeline_semaphore == q.timeline_semaphore,
    decreases events.len(),
{
    if events.len() > 0 {
        lemma_run_progress(q, events.drop_last());
    }
}

/// An allowed run stays allowed when cut short.
pub proof fn lemma_run_allowed_prefix(q: Queue, events: Seq<QueueEvent>, n: int)
    requires
        run_allowed(q, events),
        0 <= n <= events.len(),
    ensures
        run_allowed(q, events.take(n)),
    decreases events.len(),
{
    if n < events.len() {
        assert(events.drop_last().take(n) =~= events.take(n));
        lemma_run_allowed_prefix(q, events.drop_last(), n);
    } else {
        assert(events.take(n) =~= events);
    }
}

/// A longer prefix contains at least as many submissions, and one more if it
/// ends with a submission.
pub proof fn lemma_count_submits_take(events: Seq<QueueEvent>, n: int)
    requires
        0 <= n < events.len(),
    ensures
        count_submits(events.take(n + 1)) == count_submits(events.take(n)) + (if events[n]
            is Submit {
            1nat
        } else {
            0nat
        }),
{
    assert(events.take(n + 1).drop_last() =~= events.take(n));
    assert(events.take(n + 1).last() == events[n]);
}

proof fn lemma_count_submits_monotone(events: Seq<QueueEvent>, n1: int, n2: int)
    requires
        0 <= n1 <= n2 <= events.len(),
    ensures
        count_submits(events.take(n1)) <= count_submits(events.take(n2)),
    decreases n2 - n1,
{
    if n1 < n2 {
        lemma_count_submits_take(events, n2 - 1);
        lemma_count_submits_monotone(events, n1, n2 - 1);
    } else {
        assert(events.take(n1) =~= events.take(n2));
    }
}

/// Law: progress values are strictly increasing in submission order. For any
/// allowed event sequence and any two submissions in it, the later submission
/// issues a strictly greater progress value.
pub proof fn lemma_sync_points_strictly_increasing(
    q: Queue,
    events: Seq<QueueEvent>,
    p1: int,
    p2: int,
)
    requires
        run_allowed(q, events),
        0 <= p1 < p2 < events.len(),
        events[p1] is Submit,
        events[p2] is Submit,
    ensures
        queue_run(q, events.take(p1 + 1)).last_progress < queue_run(
            q,
            events.take(p2 + 1),
        ).last_progress,
{
    lemma_run_allowed_prefix(q, events, p1 + 1);
    lemma_run_allowed_prefix(q, events, p2 + 1);
    lemma_run_progress(q, events.take(p1 + 1));
    lemma_run_progress(q, events.take(p2 + 1));
    lemma_count_submits_take(events, p1);
    lemma_count_submits_take(events, p2);
    lemma_count_submits_monotone(events, p1 + 1, p2);
}

/// In an allowed run, the submission at position `p` — the k-th submission,
/// counting the ones up to and including it — issues exactly the k-th
/// progress value after the starting state.
pub proof fn lemma_kth_submission_progress(q: Queue, events: Seq<QueueEvent>, p: int)
    requires
        run_allowed(q, events),
        0 <= p < events.len(),
        events[p] is Submit,
    ensures
        queue_run(q, events.take(p + 1)).last_progress == kth_progress(
            q,
            count_submits(events.take(p + 1)),
        ),
{
    lemma_run_allowed_prefix(q, events, p + 1);
    lemma_run_progress(q, events.take(p + 1));
}

/// Law: a wait on the k-th sync point (counting from 1) can never succeed in
/// a state reached before the k-th submission has occurred.
pub proof fn lemma_no_early_wait(q: Queue, events: Seq<QueueEvent>, k: nat)
    requires
        q.wf(),
        run_allowed(q, events),
        count_submits(events) < k,
    ensures
        !wait_satisfied(queue_run(q, events), kth_progress(q, k)),
{
    lemma_run_progress(q, events);
}

} // verus!
