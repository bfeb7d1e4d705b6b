//! Framing over a UDP socket: a unified stream-and-sink interface that
//! encodes outgoing frames into a write buffer and decodes each received
//! datagram into an incoming frame.
//!
//! The socket is an opaque handle here: receiving and sending datagrams is
//! the embedder's job, and each poll step takes the outcome of the send or
//! receive call as an argument. Because UDP is connectionless, the encoder
//! also chooses the destination address of each frame, and the decoder is
//! given the sender's address of each datagram.

use vstd::prelude::*;

use crate::{Async, IoErrorKind, NetAddr};

verus! {

/// Encoding of outgoing frames. Implemented by a codec type that may track
/// state between frames; the encoder appends the frame's bytes to the write
/// buffer and names the datagram's destination.
pub trait EncodeUdp {
    /// The type of frames to be encoded.
    type Out;

    /// Encode `msg` into `buf` and return the address the datagram carrying
    /// `buf` must be sent to.
    fn encode(&mut self, msg: Self::Out, buf: &mut Vec<u8>) -> (addr: NetAddr);
}

/// Decoding of incoming datagrams. Implemented by a codec type that may
/// track state between datagrams; each call sees one whole datagram and the
/// address it came from.
pub trait DecodeUdp {
    /// The type of decoded frames.
    type In;

    /// Decode one datagram. `Ok(None)` means the bytes look valid but no
    /// frame is complete yet (the decoder must keep what it needs: the
    /// buffer is overwritten by the next datagram); an error means the
    /// stream is corrupt and must be terminated.
    fn decode(&mut self, src: &NetAddr, buf: &mut Vec<u8>) -> (r: Result<
        Option<Self::In>,
        IoErrorKind,
    >);
}

/// Result of handing one frame to the sink: accepted into the write buffer
/// (carrying the destination the encoder chose for the datagram), or handed
/// back because the buffer still holds an unsent datagram.
pub enum StartSendUdp<T> {
    Ready(NetAddr),
    NotReady(T),
}

/// Result of one receive poll: a decoded frame, a request to receive the
/// next datagram (the decoder needs more), or parked waiting for data.
pub enum RecvStep<T> {
    Frame(T),
    Again,
    NotReady,
}

/// A unified stream-and-sink over a UDP socket, using a `DecodeUdp` and an
/// `EncodeUdp` codec pair.
pub struct FramedUdp<S, D, E> {
    pub socket: S,
    pub decoder: D,
    pub encoder: E,
    pub out_addr: Option<NetAddr>,
    pub rd: Vec<u8>,
    pub wr: Vec<u8>,
}

/// Frame a UDP socket with the given codec pair; the buffers start empty.
pub fn framed_udp<S, D, E>(socket: S, decoder: D, encoder: E) -> (f: FramedUdp<S, D, E>)
    ensures
        f.socket == socket,
        f.decoder == decoder,
        f.encoder == encoder,
        f.out_addr is None,
        f.rd@.len() == 0,
        f.wr@.len() == 0,
{
    FramedUdp { socket, decoder, encoder, out_addr: None, rd: Vec::new(), wr: Vec::new() }
}

impl<S, D, E> FramedUdp<S, D, E> {
    /// A reference to the underlying socket. Care should be taken not to
    /// tamper with the stream of datagrams, or the frames may be corrupted.
    pub fn get_ref(&self) -> (s: &S)
        ensures
            *s == self.socket,
    {
        &self.socket
    }

    /// A mutable reference to the underlying socket; the same caution as for
    /// `get_ref` applies.
    pub fn get_mut(&mut self) -> (s: &mut S)
        ensures
            *s == old(self).socket,
            *final(self) == (FramedUdp { socket: *final(s), ..*old(self) }),
    {
        &mut self.socket
    }

    /// Consume the frame, returning the underlying socket.
    pub fn into_inner(self) -> (s: S)
        ensures
            s == self.socket,
    {
        self.socket
    }
}

impl<S, D: DecodeUdp, E: EncodeUdp> FramedUdp<S, D, E> {
    /// Record where the datagram now sitting in the write buffer must be
    /// sent: the address the encoder returned for it. `start_send` routes
    /// the encoder's address through here, so the recorded destination is
    /// exactly the encoder's choice.
    pub fn record_destination(&mut self, addr: NetAddr)
        ensures
            *final(self) == (FramedUdp { out_addr: Some(addr), ..*old(self) }),
    {
        self.out_addr = Some(addr);
    }

    /// Offer one frame to the sink. If the write buffer still holds an
    /// unsent datagram the frame is handed back unchanged, nothing encoded,
    /// and the caller must flush first; otherwise the frame is encoded into
    /// the buffer and the address the encoder returned is both recorded as
    /// the datagram's destination and handed back in the result.
    pub fn start_send(&mut self, item: E::Out) -> (r: StartSendUdp<E::Out>)
        ensures
            old(self).wr@.len() > 0 ==> (r matches StartSendUdp::NotReady(i) && i == item)
                && *final(self) == *old(self),
            old(self).wr@.len() == 0 ==> (r matches StartSendUdp::Ready(a) && final(self).out_addr == Some(a)) && final(self).socket == old(self).socket && final(self).decoder == old(self).decoder && final(self).rd == old(self).rd,
    {
        if self.wr.len() > 0 {
            StartSendUdp::NotReady(item)
        } else {
            let addr = self.encoder.encode(item, &mut self.wr);
            self.record_destination(addr);
            StartSendUdp::Ready(addr)
        }
    }

    /// Flush the write buffer: one send attempt of the buffered datagram.
    /// `os` is the outcome of the send call, consulted only when a datagram
    /// is buffered and has a destination. A datagram must leave the socket
    /// whole: a send of fewer bytes than were buffered before the send is a
    /// write-zero error.
    pub fn poll_complete(&mut self, os: Result<usize, IoErrorKind>) -> (r: Result<
        Async<()>,
        IoErrorKind,
    >)
        ensures
            final(self).socket == old(self).socket,
            final(self).decoder == old(self).decoder,
            final(self).encoder == old(self).encoder,
            final(self).rd == old(self).rd,
            old(self).wr@.len() == 0 ==> r == Ok::<Async<()>, IoErrorKind>(Async::Ready(()))
                && *final(self) == *old(self),
            old(self).wr@.len() > 0 && old(self).out_addr is None ==> r == Err::<
                Async<()>,
                IoErrorKind,
            >(IoErrorKind::InvalidState) && *final(self) == *old(self),
            old(self).wr@.len() > 0 && old(self).out_addr is Some ==> match os {
                Err(IoErrorKind::WouldBlock) => r == Ok::<Async<()>, IoErrorKind>(Async::NotReady)
                    && *final(self) == *old(self),
                Err(e) => r == Err::<Async<()>, IoErrorKind>(e) && *final(self) == *old(self),
                Ok(n) => final(self).wr@.len() == 0 && final(self).out_addr is None && (if n
                    == old(self).wr@.len() {
                    r == Ok::<Async<()>, IoErrorKind>(Async::Ready(()))
                } else {
                    r == Err::<Async<()>, IoErrorKind>(IoErrorKind::WriteZero)
                }),
            },
    {
        if self.wr.len() == 0 {
            return Ok(Async::Ready(()));
        }
        if self.out_addr.is_none() {
            return Err(IoErrorKind::InvalidState);
        }
        match os {
            Err(IoErrorKind::WouldBlock) => Ok(Async::NotReady),
            Err(e) => Err(e),
            Ok(n) => {
                let buffered = self.wr.len();
                self.wr.clear();
                self.out_addr = None;
                if n != buffered {
                    Err(IoErrorKind::WriteZero)
                } else {
                    Ok(Async::Ready(()))
                }
            },
        }
    }

    /// Turn the decoder's verdict on the datagram now in the read buffer
    /// into one step of the stream: an error terminates the stream (the
    /// bytes are corrupt), no frame yet asks the caller to receive the next
    /// datagram, and a frame is returned with the read buffer cleared for
    /// the next datagram.
    pub fn decode_step(&mut self, verdict: Result<Option<D::In>, IoErrorKind>) -> (r: Result<
        RecvStep<D::In>,
        IoErrorKind,
    >)
        ensures
            final(self).socket == old(self).socket,
            final(self).decoder == old(self).decoder,
            final(self).encoder == old(self).encoder,
            final(self).wr == old(self).wr,
            final(self).out_addr == old(self).out_addr,
            match verdict {
                Err(e) => r == Err::<RecvStep<D::In>, IoErrorKind>(e) && *final(self) == *old(self),
                Ok(None) => r == Ok::<RecvStep<D::In>, IoErrorKind>(RecvStep::Again) && *final(self) == *old(self),
                Ok(Some(frame)) => r matches Ok(RecvStep::Frame(f)) && f == frame && final(self).rd@.len() == 0,
            },
    {
        match verdict {
            Err(e) => Err(e),
            Ok(None) => Ok(RecvStep::Again),
            Ok(Some(frame)) => {
                self.rd.clear();
                Ok(RecvStep::Frame(frame))
            },
        }
    }

    /// One receive poll. `os` is the outcome of the receive call: a whole
    /// datagram with its sender's address, or an error. A received datagram
    /// replaces the read buffer and is handed to the decoder together with
    /// its sender's address; the decoder's verdict then becomes the stream
    /// step through `decode_step`, so a received datagram always yields a
    /// frame, a receive-again request, or a decode error — never silence.
    pub fn poll(&mut self, os: Result<(Vec<u8>, NetAddr), IoErrorKind>) -> (r: Result<
        RecvStep<D::In>,
        IoErrorKind,
    >)
        ensures
            final(self).socket == old(self).socket,
            final(self).encoder == old(self).encoder,
            final(self).wr == old(self).wr,
            final(self).out_addr == old(self).out_addr,
            os matches Err(e) ==> if e == IoErrorKind::WouldBlock {
                r == Ok::<RecvStep<D::In>, IoErrorKind>(RecvStep::NotReady) && *final(self)
                    == *old(self)
            } else {
                r == Err::<RecvStep<D::In>, IoErrorKind>(e) && *final(self) == *old(self)
            },
            os is Ok ==> !(r matches Ok(step) && step is NotReady),
            os is Ok ==> ((r matches Ok(step) && step is Frame) ==> final(self).rd@.len() == 0),
    {
        match os {
            Err(IoErrorKind::WouldBlock) => Ok(RecvStep::NotReady),
            Err(e) => Err(e),
            Ok((datagram, addr)) => {
                self.rd = datagram;
                let verdict = self.decoder.decode(&addr, &mut self.rd);
                self.decode_step(verdict)
            },
        }
    }
}

/// A codec that frames whole datagrams: each outgoing byte vector is one
/// datagram addressed to a fixed peer, and each incoming datagram is one
/// frame.
pub struct DatagramCodec {
    pub peer: NetAddr,
}

impl EncodeUdp for DatagramCodec {
    type Out = Vec<u8>;

    fn encode(&mut self, msg: Vec<u8>, buf: &mut Vec<u8>) -> (addr: NetAddr)
        ensures
            addr == old(self).peer,
            *final(self) == *old(self),
            final(buf)@ == old(buf)@ + msg@,
    {
        let mut bytes = msg;
        buf.append(&mut bytes);
        self.peer
    }
}

impl DecodeUdp for DatagramCodec {
    type In = (Vec<u8>, NetAddr);

    fn decode(&mut self, src: &NetAddr, buf: &mut Vec<u8>) -> (r: Result<
        Option<(Vec<u8>, NetAddr)>,
        IoErrorKind,
    >)
        ensures
            *final(self) == *old(self),
            final(buf)@.len() == 0,
            r matches Ok(Some((frame, from))) && frame@ == old(buf)@ && from == *src,
    {
        let mut frame: Vec<u8> = Vec::new();
        frame.append(buf);
        Ok(Some((frame, *src)))
    }
}

} // verus!
