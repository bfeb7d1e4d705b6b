//! Per-source readiness state: the pending readiness bits of one registered
//! source and the parked wakers for its two directions.
//!
//! The state machine per direction (the write side is symmetric):
//!
//! * not ready, reactor delivers an edge: the bit is set and a parked waker
//!   is taken to be woken;
//! * ready, the consumer drains to would-block and calls `need_read`: the
//!   bit is cleared and the consumer's waker is parked;
//! * not ready, the consumer polls: its waker is parked.
//!
//! The reactor may only set bits; only the consumer clears them. The module
//! proves the two properties this discipline buys: a direction never holds
//! a set bit and a parked waker at once, and along any sequence of steps the
//! number of readiness edges observed is at least the number of ready
//! periods the consumer completed, so no wakeup is lost.

use vstd::prelude::*;

verus! {

/// Readiness bit for the read direction.
pub const READ: usize = 1;
/// Readiness bit for the write direction.
pub const WRITE: usize = 2;

/// The record kept for one registered source: the latest observed readiness
/// of each direction and at most one parked waker per direction.
///
/// Wakers are identified by plain numbers; invoking a waker is the
/// embedder's job, so functions that fire one return its number instead.
#[derive(Clone, Copy, PartialEq, Eq, Debug)]
pub struct Source {
    pub read_ready: bool,
    pub write_ready: bool,
    pub read_waker: Option<u64>,
    pub write_waker: Option<u64>,
}

impl Source {
    /// A freshly registered source: no pending edges, no parked wakers.
    pub open spec fn fresh() -> Source {
        Source { read_ready: false, write_ready: false, read_waker: None, write_waker: None }
    }

    /// The invariant of the record: a direction whose readiness bit is set
    /// holds no parked waker. The reactor wakes instead of parking when the
    /// bit is already set, and the consumer clears the bit before parking.
    pub open spec fn wf(self) -> bool {
        &&& (self.read_ready ==> self.read_waker is None)
        &&& (self.write_ready ==> self.write_waker is None)
    }

    /// The readiness word the consumer observes: `READ` and `WRITE` OR-ed.
    pub open spec fn ready_mask(self) -> usize {
        ((if self.read_ready { 1int } else { 0int })
            + (if self.write_ready { 2int } else { 0int })) as usize
    }

    pub fn new() -> (s: Source)
        ensures
            s == Source::fresh(),
    {
        Source { read_ready: false, write_ready: false, read_waker: None, write_waker: None }
    }

    /// Consume the pending readiness notification: return the readiness word
    /// and reset both bits, leaving any parked wakers in place.
    pub fn take_ready_mask(&mut self) -> (mask: usize)
        ensures
            mask == old(self).ready_mask(),
            *final(self) == (Source {
                read_ready: false,
                write_ready: false,
                ..*old(self)
            }),
    {
        let mask = (if self.read_ready { 1usize } else { 0usize })
            + (if self.write_ready { 2usize } else { 0usize });
        self.read_ready = false;
        self.write_ready = false;
        mask
    }

    /// Reactor side of a turn: OR the event's bits into the record and take
    /// the parked waker of each direction that fired, to be woken by the
    /// caller.
    pub fn on_event(&mut self, readable: bool, writable: bool) -> (wakes: (Option<u64>, Option<u64>))
        ensures
            *final(self) == spec_on_event(*old(self), readable, writable),
            wakes.0 == (if readable { old(self).read_waker } else { None::<u64> }),
            wakes.1 == (if writable { old(self).write_waker } else { None::<u64> }),
            old(self).wf() ==> final(self).wf(),
    {
        let mut wake_read: Option<u64> = None;
        let mut wake_write: Option<u64> = None;
        if readable {
            self.read_ready = true;
            wake_read = self.read_waker;
            self.read_waker = None;
        }
        if writable {
            self.write_ready = true;
            wake_write = self.write_waker;
            self.write_waker = None;
        }
        (wake_read, wake_write)
    }

    /// Consumer poll of the read direction: ready if the bit is set, else
    /// the given waker is parked for the next read edge.
    pub fn poll_read(&mut self, waker: u64) -> (r: crate::Async<()>)
        ensures
            old(self).read_ready ==> r == crate::Async::Ready(()) && *final(self) == *old(self),
            !old(self).read_ready ==> r == crate::Async::<()>::NotReady
                && *final(self) == spec_park_read(*old(self), waker),
            old(self).wf() ==> final(self).wf(),
    {
        if self.read_ready {
            crate::Async::Ready(())
        } else {
            self.read_waker = Some(waker);
            crate::Async::NotReady
        }
    }

    /// Consumer poll of the write direction; symmetric to `poll_read`.
    pub fn poll_write(&mut self, waker: u64) -> (r: crate::Async<()>)
        ensures
            old(self).write_ready ==> r == crate::Async::Ready(()) && *final(self) == *old(self),
            !old(self).write_ready ==> r == crate::Async::<()>::NotReady
                && *final(self) == spec_park_write(*old(self), waker),
            old(self).wf() ==> final(self).wf(),
    {
        if self.write_ready {
            crate::Async::Ready(())
        } else {
            self.write_waker = Some(waker);
            crate::Async::NotReady
        }
    }

    /// The consumer hit would-block on a read: clear the read bit and park
    /// its waker. This is the only transition from ready back to not ready.
    pub fn need_read(&mut self, waker: u64)
        ensures
            *final(self) == spec_need_read(*old(self), waker),
            final(self).wf() == (final(self).write_ready ==> final(self).write_waker is None),
    {
        self.read_ready = false;
        self.read_waker = Some(waker);
    }

    /// The consumer hit would-block on a write; symmetric to `need_read`.
    pub fn need_write(&mut self, waker: u64)
        ensures
            *final(self) == spec_need_write(*old(self), waker),
    {
        self.write_ready = false;
        self.write_waker = Some(waker);
    }
}

/// Effect of a readiness event on the record: fired directions become ready
/// and lose their parked waker (it is woken by the caller).
pub open spec fn spec_on_event(s: Source, readable: bool, writable: bool) -> Source {
    Source {
        read_ready: s.read_ready || readable,
        write_ready: s.write_ready || writable,
        read_waker: if readable { None } else { s.read_waker },
        write_waker: if writable { None } else { s.write_waker },
    }
}

/// Effect of delivering a read edge alone.
pub open spec fn spec_read_edge(s: Source) -> Source {
    Source { read_ready: true, read_waker: None, ..s }
}

/// Effect of delivering a write edge alone.
pub open spec fn spec_write_edge(s: Source) -> Source {
    Source { write_ready: true, write_waker: None, ..s }
}

/// Effect of parking a waker for the read direction without touching bits.
pub open spec fn spec_park_read(s: Source, w: u64) -> Source {
    Source { read_waker: Some(w), ..s }
}

/// Effect of parking a waker for the write direction without touching bits.
pub open spec fn spec_park_write(s: Source, w: u64) -> Source {
    Source { write_waker: Some(w), ..s }
}

/// Effect of `need_read`: the bit is cleared, then the waker parked.
pub open spec fn spec_need_read(s: Source, w: u64) -> Source {
    Source { read_ready: false, read_waker: Some(w), ..s }
}

/// Effect of `need_write`: the bit is cleared, then the waker parked.
pub open spec fn spec_need_write(s: Source, w: u64) -> Source {
    Source { write_ready: false, write_waker: Some(w), ..s }
}

/// One step of the read direction's state machine, as seen in a serialized
/// history of the record: a reactor edge, a consumer poll (which parks when
/// not ready), or a `need_read` clear.
pub enum ReadEvent {
    Edge,
    Poll(u64),
    Need(u64),
}

/// Transition function of the read direction.
pub open spec fn read_step(s: Source, e: ReadEvent) -> Source {
    match e {
        ReadEvent::Edge => spec_read_edge(s),
        ReadEvent::Poll(w) => if s.read_ready { s } else { spec_park_read(s, w) },
        ReadEvent::Need(w) => spec_need_read(s, w),
    }
}

/// The record after running a history of read-direction steps.
pub open spec fn read_run(s: Source, tr: Seq<ReadEvent>) -> Source
    decreases tr.len(),
{
    if tr.len() == 0 {
        s
    } else {
        read_run(read_step(s, tr[0]), tr.skip(1))
    }
}

/// Number of rising read edges in a history: edges delivered while the bit
/// was clear.
pub open spec fn rising_edges(s: Source, tr: Seq<ReadEvent>) -> nat
    decreases tr.len(),
{
    if tr.len() == 0 {
        0
    } else {
        (if tr[0] is Edge && !s.read_ready { 1nat } else { 0nat })
            + rising_edges(read_step(s, tr[0]), tr.skip(1))
    }
}

/// Number of completed ready periods in a history: `need_read` clears that
/// found the bit set, i.e. a poll observed ready and the consumer drained
/// and cleared.
pub open spec fn consumed_cycles(s: Source, tr: Seq<ReadEvent>) -> nat
    decreases tr.len(),
{
    if tr.len() == 0 {
        0
    } else {
        (if tr[0] is Need && s.read_ready { 1nat } else { 0nat })
            + consumed_cycles(read_step(s, tr[0]), tr.skip(1))
    }
}

/// No lost wakeups, counted: along any history, the completed ready periods
/// never outnumber the rising edges plus the initially pending one. Each
/// consumption of readiness is funded by an edge the reactor observed.
pub proof fn lemma_no_lost_wakeups(s: Source, tr: Seq<ReadEvent>)
    ensures
        consumed_cycles(s, tr) + (if read_run(s, tr).read_ready { 1nat } else { 0nat })
            <= rising_edges(s, tr) + (if s.read_ready { 1nat } else { 0nat }),
    decreases tr.len(),
{
    if tr.len() > 0 {
        lemma_no_lost_wakeups(read_step(s, tr[0]), tr.skip(1));
    }
}

/// No lost wakeups, from an idle start: the reactor observes at least as
/// many rising read edges as the consumer completes ready periods.
pub proof fn lemma_no_lost_wakeups_from_idle(s: Source, tr: Seq<ReadEvent>)
    requires
        !s.read_ready,
    ensures
        consumed_cycles(s, tr) <= rising_edges(s, tr),
{
    lemma_no_lost_wakeups(s, tr);
}

/// The read direction's half of the record invariant.
pub open spec fn read_wf(s: Source) -> bool {
    s.read_ready ==> s.read_waker is None
}

/// The record invariant is preserved by every read-direction step: a set
/// readiness bit and a parked read waker never coexist, so a consumer that
/// parks is guaranteed a later edge will find (and wake) its waker.
pub proof fn lemma_read_wf_preserved(s: Source, tr: Seq<ReadEvent>)
    requires
        read_wf(s),
    ensures
        read_wf(read_run(s, tr)),
    decreases tr.len(),
{
    if tr.len() > 0 {
        lemma_read_wf_preserved(read_step(s, tr[0]), tr.skip(1));
    }
}

} // verus!
