use reactor_core::io_token::IoToken;
use reactor_core::readiness::Source;
use reactor_core::tcp::{TcpListener, TcpStream, TcpStreamNew, TcpStreamNewState};
use reactor_core::{Async, IoErrorKind, NetAddr};

const PEER: NetAddr = NetAddr { ip: 0x7f000001, port: 42000 };
const WAKER: u64 = 99;

fn io(read_ready: bool, write_ready: bool) -> IoToken {
    let mut source = Source::new();
    source.on_event(read_ready, write_ready);
    IoToken { token: 0, source }
}

#[test]
fn accept_parks_when_not_ready() {
    let mut l = TcpListener::new(io(false, false));
    let r = l.accept(Ok(PEER), WAKER);
    assert_eq!(r, Err(IoErrorKind::WouldBlock));
    assert_eq!(l.io.source.read_waker, Some(WAKER));
}

#[test]
fn accept_returns_connection_when_ready() {
    let mut l = TcpListener::new(io(true, false));
    assert_eq!(l.accept(Ok(PEER), WAKER), Ok(PEER));
    // readiness is kept until the accept queue drains to would-block
    assert!(l.io.source.read_ready);
}

#[test]
fn accept_drains_then_parks_on_would_block() {
    let mut l = TcpListener::new(io(true, false));
    assert_eq!(l.accept(Err(IoErrorKind::WouldBlock), WAKER), Err(IoErrorKind::WouldBlock));
    assert!(!l.io.source.read_ready);
    assert_eq!(l.io.source.read_waker, Some(WAKER));
}

#[test]
fn accept_surfaces_other_errors_untouched() {
    let mut l = TcpListener::new(io(true, false));
    assert_eq!(l.accept(Err(IoErrorKind::ConnectionReset), WAKER), Err(IoErrorKind::ConnectionReset));
    assert!(l.io.source.read_ready);
    assert_eq!(l.io.source.read_waker, None);
}

// Accept-queue drain on a single readiness edge: one edge funds a whole
// burst of connections, and the burst ends by parking for the next edge.
#[test]
fn connect_storm_drains_on_one_edge() {
    let mut l = TcpListener::new(io(false, false));
    l.io.source.on_event(true, false);
    let mut accepted = 0;
    for i in 0..200 {
        if i < 100 {
            assert_eq!(l.accept(Ok(PEER), WAKER), Ok(PEER));
            accepted += 1;
        } else {
            assert_eq!(l.accept(Err(IoErrorKind::WouldBlock), WAKER), Err(IoErrorKind::WouldBlock));
            break;
        }
    }
    assert_eq!(accepted, 100);
    assert_eq!(l.io.source.read_waker, Some(WAKER));
}

#[test]
fn accept_waits_on_pending_registration() {
    let mut l = TcpListener::new(io(true, false));
    l.park_pending_accept();
    assert_eq!(l.accept(Ok(PEER), WAKER), Err(IoErrorKind::WouldBlock));
    l.complete_pending_accept(Ok(PEER));
    assert_eq!(l.accept(Err(IoErrorKind::Other), WAKER), Ok(PEER));
    assert_eq!(l.pending_accept, None);
}

#[test]
fn incoming_maps_would_block_to_not_ready() {
    let l = TcpListener::new(io(true, false));
    let mut inc = l.incoming();
    assert_eq!(inc.poll(Ok(PEER), WAKER), Ok(Async::Ready(PEER)));
    assert_eq!(inc.poll(Err(IoErrorKind::WouldBlock), WAKER), Ok(Async::NotReady));
    assert_eq!(inc.poll(Err(IoErrorKind::Other), WAKER), Ok(Async::NotReady));
}

#[test]
fn read_follows_the_readiness_protocol() {
    let mut s = TcpStream::new(io(false, false));
    assert_eq!(s.read(Ok(11), WAKER), Err(IoErrorKind::WouldBlock));
    assert_eq!(s.io.source.read_waker, Some(WAKER));

    s.io.source.on_event(true, false);
    assert_eq!(s.read(Ok(11), WAKER), Ok(11));
    assert!(s.io.source.read_ready);

    assert_eq!(s.read(Err(IoErrorKind::WouldBlock), WAKER), Err(IoErrorKind::WouldBlock));
    assert!(!s.io.source.read_ready);

    s.io.source.on_event(true, false);
    assert_eq!(s.read(Err(IoErrorKind::UnexpectedEof), WAKER), Err(IoErrorKind::UnexpectedEof));
}

#[test]
fn write_follows_the_readiness_protocol() {
    let mut s = TcpStream::new(io(false, false));
    assert_eq!(s.write(Ok(5), WAKER), Err(IoErrorKind::WouldBlock));
    assert_eq!(s.io.source.write_waker, Some(WAKER));

    s.io.source.on_event(false, true);
    assert_eq!(s.write(Ok(5), WAKER), Ok(5));
    assert_eq!(s.write(Err(IoErrorKind::WouldBlock), WAKER), Err(IoErrorKind::WouldBlock));
    assert!(!s.io.source.write_ready);
    assert_eq!(s.io.source.write_waker, Some(WAKER));
}

// Sink saturation: a writer saturates the socket, parks on would-block, is
// woken by the write edge, and finally observes the peer closing.
#[test]
fn saturated_writer_parks_then_fails_on_closed_peer() {
    let mut s = TcpStream::new(io(false, true));
    for _i in 0..16 {
        assert_eq!(s.write(Ok(65536), WAKER), Ok(65536));
    }
    assert_eq!(s.write(Err(IoErrorKind::WouldBlock), WAKER), Err(IoErrorKind::WouldBlock));
    let (_, wake) = s.io.source.on_event(false, true);
    assert_eq!(wake, Some(WAKER));
    assert_eq!(s.write(Err(IoErrorKind::BrokenPipe), WAKER), Err(IoErrorKind::BrokenPipe));
}

// Echo loopback, at the protocol level: reads and writes of one connection
// interleave, each direction parking and waking independently.
#[test]
fn echo_connection_reads_and_writes_interleave() {
    let mut s = TcpStream::new(io(false, false));
    let msg_len = 11;
    let rounds = 1024;
    let mut echoed = 0;

    for _round in 0..rounds {
        // the peer's bytes arrive
        let (wake, _) = s.io.source.on_event(true, false);
        let _ = wake;
        assert_eq!(s.read(Ok(msg_len), WAKER), Ok(msg_len));
        assert_eq!(s.read(Err(IoErrorKind::WouldBlock), WAKER), Err(IoErrorKind::WouldBlock));
        // echo them back
        s.io.source.on_event(false, true);
        assert_eq!(s.write(Ok(msg_len), WAKER), Ok(msg_len));
        echoed += msg_len;
    }
    assert_eq!(echoed, 11 * 1024);
}

#[test]
fn peek_keeps_readiness_on_success() {
    let mut s = TcpStream::new(io(true, false));
    assert_eq!(s.peek(Ok(3), WAKER), Ok(3));
    assert!(s.io.source.read_ready);
    assert_eq!(s.peek(Ok(3), WAKER), Ok(3));
}

#[test]
fn flush_is_gated_on_write_readiness() {
    let mut s = TcpStream::new(io(false, false));
    assert_eq!(s.flush(Ok(()), WAKER), Err(IoErrorKind::WouldBlock));
    s.io.source.on_event(false, true);
    assert_eq!(s.flush(Ok(()), WAKER), Ok(()));
}

#[test]
fn buffered_reads_report_not_ready_instead_of_errors() {
    let mut s = TcpStream::new(io(false, false));
    assert_eq!(s.read_buf(Ok(7), WAKER), Ok(Async::NotReady));
    s.io.source.on_event(true, false);
    assert_eq!(s.read_buf(Ok(7), WAKER), Ok(Async::Ready(7)));
    assert_eq!(s.read_buf(Err(IoErrorKind::WouldBlock), WAKER), Ok(Async::NotReady));
    s.io.source.on_event(true, false);
    assert_eq!(s.read_buf(Err(IoErrorKind::ConnectionReset), WAKER), Err(IoErrorKind::ConnectionReset));
}

#[test]
fn buffered_writes_report_not_ready_instead_of_errors() {
    let mut s = TcpStream::new(io(false, true));
    assert_eq!(s.write_buf(Ok(7), WAKER), Ok(Async::Ready(7)));
    assert_eq!(s.write_buf(Err(IoErrorKind::WouldBlock), WAKER), Ok(Async::NotReady));
    assert_eq!(s.write_buf(Ok(7), WAKER), Ok(Async::NotReady));
}

#[test]
fn connect_waits_for_writability() {
    let stream = TcpStream::new(io(false, false));
    let mut fut = TcpStream::connect(TcpStreamNewState::Waiting(stream));
    assert_eq!(fut.poll(None, WAKER), Ok(Async::NotReady));
    match fut.inner {
        TcpStreamNewState::Waiting(s) => {
            assert_eq!(s.io.source.write_waker, Some(WAKER));
        }
        _ => panic!("still waiting"),
    }
    // the connect completes: the socket becomes writable, no error recorded
    let mut fut = TcpStreamNew {
        inner: TcpStreamNewState::Waiting(TcpStream::new(io(false, true))),
    };
    match fut.poll(None, WAKER) {
        Ok(Async::Ready(s)) => assert!(s.io.source.write_ready),
        _ => panic!("expected a connected stream"),
    }
    assert!(matches!(fut.inner, TcpStreamNewState::Empty));
}

#[test]
fn connect_surfaces_the_recorded_socket_error() {
    let stream = TcpStream::new(io(false, true));
    let mut fut = TcpStream::connect(TcpStreamNewState::Waiting(stream));
    assert_eq!(fut.poll(Some(IoErrorKind::ConnectionRefused), WAKER), Err(IoErrorKind::ConnectionRefused));
}

#[test]
fn connect_surfaces_the_immediate_error() {
    let mut fut = TcpStream::connect(TcpStreamNewState::Error(IoErrorKind::ConnectionRefused));
    assert_eq!(fut.poll(None, WAKER), Err(IoErrorKind::ConnectionRefused));
    assert!(matches!(fut.inner, TcpStreamNewState::Empty));
}
