use reactor_core::fs::OpenFuture;
use reactor_core::udp_frame::{framed_udp, DatagramCodec, RecvStep, StartSendUdp};
use reactor_core::{Async, IoErrorKind, NetAddr};

const PEER: NetAddr = NetAddr { ip: 0x0a000001, port: 9000 };

// The socket is opaque to the framing layer; a number stands in for it.
fn framed() -> reactor_core::udp_frame::FramedUdp<u32, DatagramCodec, DatagramCodec> {
    framed_udp(17u32, DatagramCodec { peer: PEER }, DatagramCodec { peer: PEER })
}

#[test]
fn framed_udp_starts_empty() {
    let f = framed();
    assert_eq!(f.rd.len(), 0);
    assert_eq!(f.wr.len(), 0);
    assert_eq!(f.out_addr, None);
    assert_eq!(*f.get_ref(), 17);
}

#[test]
fn socket_accessors_expose_the_underlying_socket() {
    let mut f = framed();
    *f.get_mut() = 18;
    assert_eq!(*f.get_ref(), 18);
    assert_eq!(f.into_inner(), 18);
}

#[test]
fn start_send_encodes_into_empty_buffer() {
    let mut f = framed();
    let r = f.start_send(b"hello".to_vec());
    // the accepted frame's destination is the encoder's choice
    match r {
        StartSendUdp::Ready(addr) => assert_eq!(addr, PEER),
        StartSendUdp::NotReady(_) => panic!("buffer was empty"),
    }
    assert_eq!(f.wr, b"hello".to_vec());
    assert_eq!(f.out_addr, Some(PEER));
}

#[test]
fn start_send_hands_frame_back_while_buffer_is_full() {
    let mut f = framed();
    f.start_send(b"first".to_vec());
    match f.start_send(b"second".to_vec()) {
        StartSendUdp::NotReady(item) => assert_eq!(item, b"second".to_vec()),
        StartSendUdp::Ready(_) => panic!("buffer was full"),
    }
    assert_eq!(f.wr, b"first".to_vec());
}

#[test]
fn flush_sends_the_whole_datagram() {
    let mut f = framed();
    f.start_send(b"datagram".to_vec());
    assert_eq!(f.poll_complete(Ok(8)), Ok(Async::Ready(())));
    assert_eq!(f.wr.len(), 0);
    assert_eq!(f.out_addr, None);
    // with nothing buffered, flushing is trivially complete
    assert_eq!(f.poll_complete(Err(IoErrorKind::Other)), Ok(Async::Ready(())));
}

// Bytes sent must equal the bytes buffered before the send: a short send is
// a write-zero error.
#[test]
fn short_send_is_a_write_zero_error() {
    let mut f = framed();
    f.start_send(b"datagram".to_vec());
    assert_eq!(f.poll_complete(Ok(3)), Err(IoErrorKind::WriteZero));
}

#[test]
fn flush_parks_on_would_block() {
    let mut f = framed();
    f.start_send(b"datagram".to_vec());
    assert_eq!(f.poll_complete(Err(IoErrorKind::WouldBlock)), Ok(Async::NotReady));
    // the datagram is still buffered and keeps its destination
    assert_eq!(f.wr, b"datagram".to_vec());
    assert_eq!(f.out_addr, Some(PEER));
    assert_eq!(f.poll_complete(Ok(8)), Ok(Async::Ready(())));
}

#[test]
fn flush_without_destination_is_an_invalid_state() {
    let mut f = framed();
    f.wr = b"orphan".to_vec();
    assert_eq!(f.poll_complete(Ok(6)), Err(IoErrorKind::InvalidState));
}

#[test]
fn received_datagram_decodes_to_one_frame() {
    let mut f = framed();
    let from = NetAddr { ip: 0x0a000002, port: 9001 };
    match f.poll(Ok((b"payload".to_vec(), from))) {
        Ok(RecvStep::Frame((bytes, addr))) => {
            assert_eq!(bytes, b"payload".to_vec());
            assert_eq!(addr, from);
        }
        _ => panic!("expected a frame"),
    }
    assert_eq!(f.rd.len(), 0);
}

#[test]
fn receive_would_block_is_not_ready() {
    let mut f = framed();
    assert!(matches!(f.poll(Err(IoErrorKind::WouldBlock)), Ok(RecvStep::NotReady)));
    assert!(matches!(f.poll(Err(IoErrorKind::ConnectionReset)), Err(IoErrorKind::ConnectionReset)));
}

#[test]
fn open_future_carries_its_path() {
    let f = OpenFuture::new(String::from("logs/current"));
    assert_eq!(f.path().as_str(), "logs/current");
    assert_eq!(f.into_path(), "logs/current");
}

// An incomplete frame asks for the next datagram, a decode error
// terminates the stream, and a decoded frame clears the read buffer.
#[test]
fn decode_step_mirrors_the_decoder() {
    let from = NetAddr { ip: 0x0a000003, port: 9002 };
    let mut f = framed();
    f.rd = b"partial".to_vec();
    assert!(matches!(f.decode_step(Ok(None)), Ok(RecvStep::Again)));
    assert_eq!(f.rd, b"partial".to_vec());
    assert!(matches!(
        f.decode_step(Err(IoErrorKind::Other)),
        Err(IoErrorKind::Other)
    ));
    match f.decode_step(Ok(Some((b"whole".to_vec(), from)))) {
        Ok(RecvStep::Frame((bytes, addr))) => {
            assert_eq!(bytes, b"whole".to_vec());
            assert_eq!(addr, from);
        }
        _ => panic!("expected the decoded frame"),
    }
    assert_eq!(f.rd.len(), 0);
}
