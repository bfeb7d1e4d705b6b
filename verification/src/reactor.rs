//! The reactor driver's verified core: applying control messages from the
//! inbox to the registry, dispatching readiness events to the source
//! records, and the composition of the two that one turn of the event loop
//! performs on the registry.
//!
//! The surrounding loop — blocking on the operating system poller, sending
//! messages from other threads, invoking wakers — is the embedder's job.
//! Each function here returns the numbers of the wakers that must be woken;
//! the contracts pin down, message by message and event by event, which
//! wakers those are and how the registry changes.

use vstd::prelude::*;

use crate::readiness::{spec_on_event, spec_park_read, spec_park_write, Source};
use crate::registry::{alloc_token, spec_deregister, spec_reclaim, spec_register, Registry, Slot};

verus! {

/// A control message sent to the reactor by handles on any thread, applied
/// during phase one of a turn.
#[derive(Clone, Copy, PartialEq, Eq, Debug)]
pub enum Message {
    /// Add a source; the reactor replies with the allocated token.
    Register,
    /// Remove a source; its parked wakers are woken so parked tasks observe
    /// the closure.
    Deregister { token: usize },
    /// Park a waker for the read direction of a source. If the read bit is
    /// already set the reactor wakes immediately instead of parking; if
    /// another waker is parked, the displaced waker is woken, then replaced
    /// (most recent registrant wins).
    ScheduleRead { token: usize, waker: u64 },
    /// As `ScheduleRead`, for the write direction.
    ScheduleWrite { token: usize, waker: u64 },
    /// Execute a job on the reactor thread, hopping ownership onto the
    /// loop. Jobs are named by numbers; the embedder holds the closures and
    /// runs each job the turn hands back.
    Run { job: u64 },
}

/// One readiness event from the operating system poller: a token and the
/// directions that fired.
#[derive(Clone, Copy, PartialEq, Eq, Debug)]
pub struct Event {
    pub token: usize,
    pub readable: bool,
    pub writable: bool,
}

/// A parked waker as a (possibly empty) burst of wake-ups.
pub open spec fn opt_seq(o: Option<u64>) -> Seq<u64> {
    match o {
        Some(w) => seq![w],
        None => Seq::empty(),
    }
}

/// Effect of one control message on the registry: the new slots, the wakers
/// to wake, the reply to a registration, and the job to run on the loop.
pub open spec fn spec_apply_message(s: Seq<Slot>, m: Message) -> (
    Seq<Slot>,
    Seq<u64>,
    Option<usize>,
    Option<u64>,
) {
    match m {
        Message::Register => (
            spec_register(s),
            Seq::empty(),
            Some(alloc_token(s) as usize),
            None,
        ),
        Message::Deregister { token } => {
            if token < s.len() && s[token as int] is Occupied {
                let src = s[token as int]->Occupied_0;
                (
                    spec_deregister(s, token as int),
                    opt_seq(src.read_waker) + opt_seq(src.write_waker),
                    None,
                    None,
                )
            } else {
                (s, Seq::empty(), None, None)
            }
        },
        Message::ScheduleRead { token, waker } => {
            if token < s.len() && s[token as int] is Occupied {
                let src = s[token as int]->Occupied_0;
                if src.read_ready {
                    (s, seq![waker], None, None)
                } else {
                    (
                        s.update(token as int, Slot::Occupied(spec_park_read(src, waker))),
                        opt_seq(src.read_waker),
                        None,
                        None,
                    )
                }
            } else {
                (s, Seq::empty(), None, None)
            }
        },
        Message::ScheduleWrite { token, waker } => {
            if token < s.len() && s[token as int] is Occupied {
                let src = s[token as int]->Occupied_0;
                if src.write_ready {
                    (s, seq![waker], None, None)
                } else {
                    (
                        s.update(token as int, Slot::Occupied(spec_park_write(src, waker))),
                        opt_seq(src.write_waker),
                        None,
                        None,
                    )
                }
            } else {
                (s, Seq::empty(), None, None)
            }
        },
        Message::Run { job } => (s, Seq::empty(), None, Some(job)),
    }
}

/// Effect of one readiness event: OR the fired directions into the record
/// and take their parked wakers (read first, then write). Events for tokens
/// that are no longer registered are dropped.
pub open spec fn spec_apply_event(s: Seq<Slot>, e: Event) -> (
    Seq<Slot>,
    Seq<u64>,
) {
    if e.token < s.len() && s[e.token as int] is Occupied {
        let src = s[e.token as int]->Occupied_0;
        (
            s.update(e.token as int, Slot::Occupied(spec_on_event(src, e.readable, e.writable))),
            (if e.readable { opt_seq(src.read_waker) } else { Seq::empty() })
                + (if e.writable { opt_seq(src.write_waker) } else { Seq::empty() }),
        )
    } else {
        (s, Seq::empty())
    }
}

/// Effect of draining a whole inbox, in order: the final slots, the wakers
/// to wake, the registration replies, and the jobs to run on the loop.
pub open spec fn spec_drain(s: Seq<Slot>, msgs: Seq<Message>) -> (
    Seq<Slot>,
    Seq<u64>,
    Seq<usize>,
    Seq<u64>,
)
    decreases msgs.len(),
{
    if msgs.len() == 0 {
        (s, Seq::empty(), Seq::empty(), Seq::empty())
    } else {
        let prev = spec_drain(s, msgs.drop_last());
        let step = spec_apply_message(prev.0, msgs.last());
        (
            step.0,
            prev.1 + step.1,
            match step.2 {
                Some(t) => prev.2.push(t),
                None => prev.2,
            },
            match step.3 {
                Some(j) => prev.3.push(j),
                None => prev.3,
            },
        )
    }
}

/// Effect of delivering a whole batch of readiness events, in order.
pub open spec fn spec_deliver(s: Seq<Slot>, evs: Seq<Event>) -> (
    Seq<Slot>,
    Seq<u64>,
)
    decreases evs.len(),
{
    if evs.len() == 0 {
        (s, Seq::empty())
    } else {
        let prev = spec_deliver(s, evs.drop_last());
        let step = spec_apply_event(prev.0, evs.last());
        (step.0, prev.1 + step.1)
    }
}

/// Apply one control message to the registry. Returns the wakers to wake,
/// the reply to a registration, and the job a `Run` message carries.
pub fn apply_message(reg: &mut Registry, m: &Message) -> (r: (
    Vec<u64>,
    Option<usize>,
    Option<u64>,
))
    requires
        old(reg).slots@.len() < usize::MAX,
    ensures
        (final(reg).slots@, r.0@, r.1, r.2) == spec_apply_message(old(reg).slots@, *m),
        final(reg).slots@.len() <= old(reg).slots@.len() + 1,
{
    let mut wakes: Vec<u64> = Vec::new();
    let reply: Option<usize>;
    let mut job: Option<u64> = None;
    match *m {
        Message::Register => {
            let token = reg.register();
            reply = Some(token);
        },
        Message::Deregister { token } => {
            reply = None;
            if reg.is_registered(token) {
                let (wr, ww) = reg.deregister(token);
                if let Some(w) = wr {
                    wakes.push(w);
                }
                if let Some(w) = ww {
                    wakes.push(w);
                }
            }
        },
        Message::ScheduleRead { token, waker } => {
            reply = None;
            if reg.is_registered(token) {
                let old_src = match reg.slots[token] {
                    Slot::Occupied(src) => src,
                    _ => Source::new(),
                };
                if old_src.read_ready {
                    wakes.push(waker);
                } else {
                    if let Some(w) = old_src.read_waker {
                        wakes.push(w);
                    }
                    let parked = Source { read_waker: Some(waker), ..old_src };
                    reg.slots.set(token, Slot::Occupied(parked));
                }
            }
        },
        Message::ScheduleWrite { token, waker } => {
            reply = None;
            if reg.is_registered(token) {
                let old_src = match reg.slots[token] {
                    Slot::Occupied(src) => src,
                    _ => Source::new(),
                };
                if old_src.write_ready {
                    wakes.push(waker);
                } else {
                    if let Some(w) = old_src.write_waker {
                        wakes.push(w);
                    }
                    let parked = Source { write_waker: Some(waker), ..old_src };
                    reg.slots.set(token, Slot::Occupied(parked));
                }
            }
        },
        Message::Run { job: j } => {
            reply = None;
            job = Some(j);
        },
    }
    proof {
        assert((final(reg).slots@, wakes@, reply, job) =~~= spec_apply_message(
            old(reg).slots@,
            *m,
        ));
    }
    (wakes, reply, job)
}

/// Deliver one readiness event to the registry. Returns the wakers to wake.
pub fn apply_event(reg: &mut Registry, e: &Event) -> (wakes: Vec<u64>)
    ensures
        (final(reg).slots@, wakes@) == spec_apply_event(old(reg).slots@, *e),
        final(reg).slots@.len() == old(reg).slots@.len(),
{
    let mut wakes: Vec<u64> = Vec::new();
    if reg.is_registered(e.token) {
        let mut src = match reg.slots[e.token] {
            Slot::Occupied(s) => s,
            _ => Source::new(),
        };
        let (wr, ww) = src.on_event(e.readable, e.writable);
        reg.slots.set(e.token, Slot::Occupied(src));
        if let Some(w) = wr {
            wakes.push(w);
        }
        if let Some(w) = ww {
            wakes.push(w);
        }
    }
    proof {
        assert((final(reg).slots@, wakes@) =~~= spec_apply_event(old(reg).slots@, *e));
    }
    wakes
}

/// Drain the inbox: apply every pending control message in order (phase one
/// of a turn). Returns the wakers to wake, the registration replies and the
/// jobs to run, each in message order.
pub fn drain_inbox(reg: &mut Registry, msgs: &Vec<Message>) -> (r: (
    Vec<u64>,
    Vec<usize>,
    Vec<u64>,
))
    requires
        old(reg).slots@.len() + msgs@.len() <= usize::MAX,
    ensures
        (final(reg).slots@, r.0@, r.1@, r.2@) == spec_drain(old(reg).slots@, msgs@),
        final(reg).slots@.len() <= old(reg).slots@.len() + msgs@.len(),
{
    let mut wakes: Vec<u64> = Vec::new();
    let mut replies: Vec<usize> = Vec::new();
    let mut jobs: Vec<u64> = Vec::new();
    let n = msgs.len();
    let mut i: usize = 0;
    while i < n
        invariant
            n == msgs@.len(),
            0 <= i <= n,
            old(reg).slots@.len() + n <= usize::MAX,
            reg.slots@.len() <= old(reg).slots@.len() + i,
            (reg.slots@, wakes@, replies@, jobs@) == spec_drain(
                old(reg).slots@,
                msgs@.take(i as int),
            ),
        decreases n - i,
    {
        let ghost prev = (reg.slots@, wakes@, replies@, jobs@);
        let (mut w, reply, job) = apply_message(reg, &msgs[i]);
        let ghost step = spec_apply_message(prev.0, msgs@[i as int]);
        wakes.append(&mut w);
        if let Some(t) = reply {
            replies.push(t);
        }
        if let Some(j) = job {
            jobs.push(j);
        }
        proof {
            assert(msgs@.take(i + 1).drop_last() =~= msgs@.take(i as int));
            assert(msgs@.take(i + 1).last() == msgs@[i as int]);
        }
        i = i + 1;
    }
    proof {
        assert(msgs@.take(n as int) =~= msgs@);
    }
    (wakes, replies, jobs)
}

/// Deliver a batch of readiness events (phase four of a turn). Returns the
/// wakers to wake, in event order.
pub fn deliver_events(reg: &mut Registry, events: &Vec<Event>) -> (wakes: Vec<u64>)
    ensures
        (final(reg).slots@, wakes@) == spec_deliver(old(reg).slots@, events@),
        final(reg).slots@.len() == old(reg).slots@.len(),
{
    let mut wakes: Vec<u64> = Vec::new();
    let n = events.len();
    let mut i: usize = 0;
    while i < n
        invariant
            n == events@.len(),
            0 <= i <= n,
            reg.slots@.len() == old(reg).slots@.len(),
            (reg.slots@, wakes@) == spec_deliver(old(reg).slots@, events@.take(i as int)),
        decreases n - i,
    {
        let ghost prev = (reg.slots@, wakes@);
        let mut w = apply_event(reg, &events[i]);
        wakes.append(&mut w);
        proof {
            assert(events@.take(i + 1).drop_last() =~= events@.take(i as int));
            assert(events@.take(i + 1).last() == events@[i as int]);
        }
        i = i + 1;
    }
    proof {
        assert(events@.take(n as int) =~= events@);
    }
    wakes
}

/// One turn of the reactor over the registry: drain the inbox, deliver the
/// poller's events, then reclaim the slots retired during the turn. Returns
/// every waker to wake (inbox-induced first, then event-induced), the
/// registration replies, and the jobs to run on this thread. Polling the
/// root task and blocking on the poller happen between the first two
/// phases, outside this crate.
pub fn turn(reg: &mut Registry, msgs: &Vec<Message>, events: &Vec<Event>) -> (r: (
    Vec<u64>,
    Vec<usize>,
    Vec<u64>,
))
    requires
        old(reg).slots@.len() + msgs@.len() <= usize::MAX,
    ensures
        ({
            let drained = spec_drain(old(reg).slots@, msgs@);
            let delivered = spec_deliver(drained.0, events@);
            &&& final(reg).slots@ == spec_reclaim(delivered.0)
            &&& r.0@ == drained.1 + delivered.1
            &&& r.1@ == drained.2
            &&& r.2@ == drained.3
        }),
{
    let (mut wakes, replies, jobs) = drain_inbox(reg, msgs);
    let mut event_wakes = deliver_events(reg, events);
    wakes.append(&mut event_wakes);
    reg.reclaim();
    (wakes, replies, jobs)
}

/// The reactor's owned state: the registry of sources and the inbox of
/// control messages. Handles on other threads append to the inbox (through
/// the embedder's concurrent queue); the reactor thread drains it once per
/// turn.
pub struct Core {
    pub registry: Registry,
    pub inbox: Vec<Message>,
}

impl Core {
    /// An empty reactor: no sources, no pending messages.
    pub fn new() -> (c: Core)
        ensures
            c.registry.slots@.len() == 0,
            c.inbox@.len() == 0,
    {
        Core { registry: Registry::new(), inbox: Vec::new() }
    }

    /// Enqueue a control message for the next turn.
    pub fn send(&mut self, m: Message)
        ensures
            final(self).inbox@ == old(self).inbox@.push(m),
            final(self).registry == old(self).registry,
    {
        self.inbox.push(m);
    }

    /// One turn over the owned state: drain the inbox (leaving it empty),
    /// deliver the events the poller reported, reclaim retired slots.
    pub fn turn(&mut self, events: &Vec<Event>) -> (r: (Vec<u64>, Vec<usize>, Vec<u64>))
        requires
            old(self).registry.slots@.len() + old(self).inbox@.len() <= usize::MAX,
        ensures
            ({
                let drained = spec_drain(old(self).registry.slots@, old(self).inbox@);
                let delivered = spec_deliver(drained.0, events@);
                &&& final(self).registry.slots@ == spec_reclaim(delivered.0)
                &&& final(self).inbox@.len() == 0
                &&& r.0@ == drained.1 + delivered.1
                &&& r.1@ == drained.2
                &&& r.2@ == drained.3
            }),
    {
        let r = turn(&mut self.registry, &self.inbox, events);
        self.inbox = Vec::new();
        r
    }
}

/// Phase three of a turn: how long to block on the poller. Zero when the
/// root task is already notified, else until the earliest registered
/// deadline, else indefinitely.
pub fn compute_poll_timeout(root_notified: bool, earliest_deadline: Option<u64>) -> (r: Option<
    u64,
>)
    ensures
        root_notified ==> r == Some(0u64),
        !root_notified ==> r == earliest_deadline,
{
    if root_notified {
        Some(0)
    } else {
        earliest_deadline
    }
}

} // verus!
