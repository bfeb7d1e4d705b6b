use reactor_core::io_token::IoToken;
use reactor_core::readiness::{Source, READ, WRITE};
use reactor_core::{is_wouldblock, IoErrorKind};

fn token_with(read_ready: bool, write_ready: bool) -> IoToken {
    let mut source = Source::new();
    source.on_event(read_ready, write_ready);
    IoToken { token: 7, source }
}

#[test]
fn fresh_source_is_idle() {
    let s = Source::new();
    assert!(!s.read_ready);
    assert!(!s.write_ready);
    assert_eq!(s.read_waker, None);
    assert_eq!(s.write_waker, None);
}

#[test]
fn take_readiness_returns_mask_and_clears() {
    let mut t = token_with(true, true);
    assert_eq!(t.take_readiness(), READ | WRITE);
    assert_eq!(t.take_readiness(), 0);

    let mut t = token_with(true, false);
    assert_eq!(t.take_readiness(), READ);

    let mut t = token_with(false, true);
    assert_eq!(t.take_readiness(), WRITE);
}

#[test]
fn take_readiness_keeps_parked_wakers() {
    let mut t = token_with(false, false);
    t.need_read(41);
    t.source.on_event(false, true);
    let mask = t.take_readiness();
    assert_eq!(mask, WRITE);
    assert_eq!(t.source.read_waker, Some(41));
}

#[test]
fn event_wakes_parked_wakers() {
    let mut s = Source::new();
    s.need_read(1);
    s.need_write(2);
    let (wr, ww) = s.on_event(true, true);
    assert_eq!(wr, Some(1));
    assert_eq!(ww, Some(2));
    assert!(s.read_ready);
    assert!(s.write_ready);
    assert_eq!(s.read_waker, None);
    assert_eq!(s.write_waker, None);
}

#[test]
fn event_only_touches_fired_direction() {
    let mut s = Source::new();
    s.need_read(1);
    s.need_write(2);
    let (wr, ww) = s.on_event(false, true);
    assert_eq!(wr, None);
    assert_eq!(ww, Some(2));
    assert!(!s.read_ready);
    assert_eq!(s.read_waker, Some(1));
}

#[test]
fn poll_parks_only_when_not_ready() {
    let mut t = token_with(true, false);
    assert!(matches!(t.poll_read(9), reactor_core::Async::Ready(())));
    assert_eq!(t.source.read_waker, None);

    assert!(matches!(t.poll_write(9), reactor_core::Async::NotReady));
    assert_eq!(t.source.write_waker, Some(9));
}

#[test]
fn need_read_clears_bit_then_parks() {
    let mut t = token_with(true, false);
    t.need_read(5);
    assert!(!t.source.read_ready);
    assert_eq!(t.source.read_waker, Some(5));
}

// A ready period can only be consumed after a fresh edge: counting edges and
// consumed cycles through a concrete history keeps edges >= cycles.
#[test]
fn no_lost_wakeups_concrete_history() {
    let mut s = Source::new();
    let mut edges = 0;
    let mut cycles = 0;

    for _round in 0..3 {
        // poll finds the source idle and parks
        assert!(matches!(s.poll_read(1), reactor_core::Async::NotReady));
        // reactor delivers a rising edge, waking the parked task
        let was_ready = s.read_ready;
        let (wake, _) = s.on_event(true, false);
        if !was_ready {
            edges += 1;
        }
        assert_eq!(wake, Some(1));
        // the woken task polls, sees ready, drains, hits would-block
        assert!(matches!(s.poll_read(1), reactor_core::Async::Ready(())));
        if s.read_ready {
            cycles += 1;
        }
        s.need_read(1);
    }
    assert_eq!(edges, 3);
    assert_eq!(cycles, 3);
    assert!(edges >= cycles);
}

// The readiness race: a drain-and-park can interleave with a reactor edge in
// either order; in both, the schedule is not lost (the task is woken, or the
// bit stays visible to its next poll).
#[test]
fn readiness_race_is_never_lost() {
    // order one: the consumer parks first, then the edge arrives
    let mut s = Source::new();
    s.on_event(true, false);
    s.need_read(3);
    let (wake, _) = s.on_event(true, false);
    assert_eq!(wake, Some(3)); // woken

    // order two: the edge arrives first, then the consumer parks
    let mut s = Source::new();
    s.on_event(true, false);
    let (wake, _) = s.on_event(true, false);
    assert_eq!(wake, None);
    s.need_read(3);
    // the waker is parked and a retry poll is owed only after a new edge;
    // the bit was consumed by the drain, not lost
    assert_eq!(s.read_waker, Some(3));
    let (wake, _) = s.on_event(true, false);
    assert_eq!(wake, Some(3)); // the next edge wakes it
}

#[test]
fn would_block_is_recognized() {
    assert!(is_wouldblock::<usize>(&Err(IoErrorKind::WouldBlock)));
    assert!(!is_wouldblock::<usize>(&Err(IoErrorKind::BrokenPipe)));
    assert!(!is_wouldblock(&Ok(3usize)));
}
