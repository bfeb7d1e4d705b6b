use reactor_core::io_token::IoToken;
use reactor_core::reactor::{
    apply_event, apply_message, compute_poll_timeout, drain_inbox, turn, Core, Event, Message,
};
use reactor_core::registry::{Registry, Slot};
use reactor_core::readiness::Source;

fn src_at(reg: &Registry, t: usize) -> Source {
    match reg.slots[t] {
        Slot::Occupied(s) => s,
        _ => panic!("token {} is not registered", t),
    }
}

#[test]
fn tokens_are_dense_and_reused_only_after_deregistration() {
    let mut reg = Registry::new();
    assert_eq!(reg.register(), 0);
    assert_eq!(reg.register(), 1);
    assert_eq!(reg.register(), 2);
    reg.deregister(1);
    assert!(!reg.is_registered(1));
    // the freed slot retires until the end of the turn: registrations in
    // the same turn must not reuse its token
    assert_eq!(reg.register(), 3);
    reg.reclaim();
    // from the next turn on the slot is the first free one again
    assert_eq!(reg.register(), 1);
}

// Round trip: register then deregister leaves the registry's occupied slots
// as they were before the registration.
#[test]
fn register_deregister_round_trip() {
    let mut reg = Registry::new();
    let a = reg.register();
    let b = reg.register();
    reg.deregister(a);

    let before: Vec<bool> = (0..reg.slots.len()).map(|i| reg.is_registered(i)).collect();
    let t = reg.register();
    reg.deregister(t);
    let after: Vec<bool> = (0..before.len()).map(|i| reg.is_registered(i)).collect();
    assert_eq!(before, after);
    assert!(reg.is_registered(b));
}

#[test]
fn deregister_wakes_parked_wakers() {
    let mut reg = Registry::new();
    let t = reg.register();
    let mut src = src_at(&reg, t);
    src.need_read(11);
    src.need_write(12);
    reg.slots[t] = Slot::Occupied(src);
    let (wr, ww) = reg.deregister(t);
    assert_eq!(wr, Some(11));
    assert_eq!(ww, Some(12));
}

#[test]
fn register_message_replies_with_token() {
    let mut reg = Registry::new();
    let (wakes, reply, _) = apply_message(&mut reg, &Message::Register);
    assert!(wakes.is_empty());
    assert_eq!(reply, Some(0));
    assert!(reg.is_registered(0));
}

// A schedule message for a source whose bit is already set wakes immediately
// instead of parking: the message-level side of the readiness race.
#[test]
fn schedule_on_ready_source_wakes_immediately() {
    let mut reg = Registry::new();
    let t = reg.register();
    apply_event(&mut reg, &Event { token: t, readable: true, writable: false });
    let (wakes, _, _) = apply_message(&mut reg, &Message::ScheduleRead { token: t, waker: 21 });
    assert_eq!(wakes, vec![21]);
    // nothing was parked: the task must poll and consume the readiness
    assert_eq!(src_at(&reg, t).read_waker, None);
}

#[test]
fn schedule_on_idle_source_parks() {
    let mut reg = Registry::new();
    let t = reg.register();
    let (wakes, _, _) = apply_message(&mut reg, &Message::ScheduleRead { token: t, waker: 21 });
    assert!(wakes.is_empty());
    assert_eq!(src_at(&reg, t).read_waker, Some(21));
}

// Displaced waker policy: the most recent registrant wins, and the displaced
// task is woken so it may re-register.
#[test]
fn schedule_wakes_displaced_waker_then_replaces() {
    let mut reg = Registry::new();
    let t = reg.register();
    apply_message(&mut reg, &Message::ScheduleRead { token: t, waker: 1 });
    let (wakes, _, _) = apply_message(&mut reg, &Message::ScheduleRead { token: t, waker: 2 });
    assert_eq!(wakes, vec![1]);
    assert_eq!(src_at(&reg, t).read_waker, Some(2));
}

#[test]
fn schedule_for_unknown_token_is_dropped() {
    let mut reg = Registry::new();
    let (wakes, reply, _) = apply_message(&mut reg, &Message::ScheduleRead { token: 9, waker: 1 });
    assert!(wakes.is_empty());
    assert_eq!(reply, None);
    assert_eq!(reg.slots.len(), 0);
}

#[test]
fn deregister_message_wakes_and_frees() {
    let mut reg = Registry::new();
    let t = reg.register();
    apply_message(&mut reg, &Message::ScheduleRead { token: t, waker: 5 });
    apply_message(&mut reg, &Message::ScheduleWrite { token: t, waker: 6 });
    let (wakes, _, _) = apply_message(&mut reg, &Message::Deregister { token: t });
    assert_eq!(wakes, vec![5, 6]);
    assert!(!reg.is_registered(t));
}

#[test]
fn event_sets_bits_and_wakes() {
    let mut reg = Registry::new();
    let t = reg.register();
    apply_message(&mut reg, &Message::ScheduleRead { token: t, waker: 31 });
    let wakes = apply_event(&mut reg, &Event { token: t, readable: true, writable: false });
    assert_eq!(wakes, vec![31]);
    let src = src_at(&reg, t);
    assert!(src.read_ready);
    assert!(!src.write_ready);
    assert_eq!(src.read_waker, None);
}

#[test]
fn event_for_deregistered_token_is_dropped() {
    let mut reg = Registry::new();
    let t = reg.register();
    reg.deregister(t);
    let wakes = apply_event(&mut reg, &Event { token: t, readable: true, writable: true });
    assert!(wakes.is_empty());
    assert!(!reg.is_registered(t));
}

#[test]
fn drain_applies_messages_in_order() {
    let mut reg = Registry::new();
    let msgs = vec![Message::Register, Message::Register, Message::Deregister { token: 0 }];
    let (wakes, replies, _) = drain_inbox(&mut reg, &msgs);
    assert!(wakes.is_empty());
    assert_eq!(replies, vec![0, 1]);
    assert!(!reg.is_registered(0));
    assert!(reg.is_registered(1));
}

#[test]
fn turn_drains_inbox_then_delivers_events() {
    let mut reg = Registry::new();
    let t = reg.register();
    let msgs = vec![
        Message::ScheduleRead { token: t, waker: 1 },
        Message::ScheduleWrite { token: t, waker: 2 },
        Message::Register,
    ];
    let events = vec![
        Event { token: t, readable: true, writable: false },
        Event { token: t, readable: false, writable: true },
    ];
    let (wakes, replies, _) = turn(&mut reg, &msgs, &events);
    assert_eq!(wakes, vec![1, 2]);
    assert_eq!(replies, vec![t + 1]);
    let src = src_at(&reg, t);
    assert!(src.read_ready);
    assert!(src.write_ready);
}

#[test]
fn poll_timeout_prefers_notified_root() {
    assert_eq!(compute_poll_timeout(true, None), Some(0));
    assert_eq!(compute_poll_timeout(true, Some(250)), Some(0));
    assert_eq!(compute_poll_timeout(false, Some(250)), Some(250));
    assert_eq!(compute_poll_timeout(false, None), None);
}

#[test]
fn registration_future_round_trip() {
    let mut fut = IoToken::new();
    let (msg, state) = fut.poll();
    assert_eq!(msg, Some(Message::Register));
    assert!(matches!(state, reactor_core::Async::NotReady));
    // a second poll before the reply sends nothing further
    let (msg, state) = fut.poll();
    assert_eq!(msg, None);
    assert!(matches!(state, reactor_core::Async::NotReady));

    // the reactor registers the source and completes the reply slot
    let mut reg = Registry::new();
    let (_, reply, _) = apply_message(&mut reg, &Message::Register);
    fut.complete(Ok(reply.unwrap()));
    let (msg, state) = fut.poll();
    assert_eq!(msg, None);
    match state {
        reactor_core::Async::Ready(Ok(token)) => {
            assert_eq!(token.token, 0);
            assert!(!token.source.read_ready);
        }
        _ => panic!("expected a token"),
    }
}

#[test]
fn registration_future_surfaces_poller_error() {
    let mut fut = IoToken::new();
    fut.poll();
    fut.complete(Err(reactor_core::IoErrorKind::Other));
    let (_, state) = fut.poll();
    assert!(matches!(
        state,
        reactor_core::Async::Ready(Err(reactor_core::IoErrorKind::Other))
    ));
}

#[test]
fn drop_source_message_carries_token() {
    let t = IoToken::from_reply(4);
    assert_eq!(t.drop_source(), Message::Deregister { token: 4 });
    assert_eq!(
        t.schedule_read(8),
        Message::ScheduleRead { token: 4, waker: 8 }
    );
    assert_eq!(
        t.schedule_write(9),
        Message::ScheduleWrite { token: 4, waker: 9 }
    );
}

#[test]
fn core_owns_inbox_and_registry() {
    let mut core = Core::new();
    core.send(Message::Register);
    core.send(Message::Register);
    let (wakes, replies, _) = core.turn(&vec![]);
    assert!(wakes.is_empty());
    assert_eq!(replies, vec![0, 1]);
    assert!(core.inbox.is_empty());

    // a deregistered slot is reclaimed by the end of the turn that saw the
    // deregistration, and its token is reusable in the next one
    core.send(Message::Deregister { token: 0 });
    core.turn(&vec![]);
    core.send(Message::Register);
    let (_, replies, _) = core.turn(&vec![]);
    assert_eq!(replies, vec![0]);
}

#[test]
fn run_messages_hand_jobs_back_in_order() {
    let mut core = Core::new();
    core.send(Message::Run { job: 7 });
    core.send(Message::Register);
    core.send(Message::Run { job: 8 });
    let (wakes, replies, jobs) = core.turn(&vec![]);
    assert!(wakes.is_empty());
    assert_eq!(replies, vec![0]);
    assert_eq!(jobs, vec![7, 8]);
}
