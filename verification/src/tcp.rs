//! TCP adapter logic over a registered source: the readiness handshake that
//! `accept`, `read`, `write` and friends perform around each non-blocking
//! operating system call, and the state machine of a pending connection.
//!
//! The system calls themselves happen outside this crate; each function
//! takes the call's outcome as an argument and is verified for every
//! outcome. The protocol around every outcome is the same and the contracts
//! pin it down exactly:
//!
//! * if the source is not ready in the needed direction, park the caller's
//!   waker and report would-block without touching the operating system;
//! * if the call reported would-block, the source is drained: clear the
//!   readiness bit and park the waker (`need_read`/`need_write`);
//! * otherwise surface the call's result verbatim.

use vstd::prelude::*;

use crate::io_token::IoToken;
use crate::readiness::{spec_need_read, spec_need_write, spec_park_read, spec_park_write};
use crate::{Async, IoErrorKind, NetAddr};

verus! {

/// A TCP socket listening for incoming connections, as one registered
/// source plus the reply slot of an accept that had to hop to the reactor
/// thread to register the accepted socket.
#[derive(Clone, Copy, PartialEq, Eq, Debug)]
pub struct TcpListener {
    pub io: IoToken,
    pub pending_accept: Option<Option<Result<NetAddr, IoErrorKind>>>,
}

/// Stream of the connections a listener accepts.
#[derive(Clone, Copy, PartialEq, Eq, Debug)]
pub struct Incoming {
    pub inner: TcpListener,
}

/// A TCP stream connected to a remote endpoint, as one registered source.
#[derive(Clone, Copy, PartialEq, Eq, Debug)]
pub struct TcpStream {
    pub io: IoToken,
}

/// Future resolving to a connected `TcpStream`.
#[derive(Clone, Copy, PartialEq, Eq, Debug)]
pub struct TcpStreamNew {
    pub inner: TcpStreamNewState,
}

/// State of a pending connection: waiting for the socket to become
/// writable, doomed to report the error the connect call returned, or
/// already resolved.
#[derive(Clone, Copy, PartialEq, Eq, Debug)]
pub enum TcpStreamNewState {
    Waiting(TcpStream),
    Error(IoErrorKind),
    Empty,
}

impl TcpListener {
    /// A listener over a registered source.
    pub fn new(io: IoToken) -> (l: TcpListener)
        ensures
            l.io == io,
            l.pending_accept is None,
    {
        TcpListener { io, pending_accept: None }
    }

    /// Whether the listener is ready to accept; parks the waker otherwise.
    pub fn poll_read(&mut self, waker: u64) -> (r: Async<()>)
        ensures
            final(self).pending_accept == old(self).pending_accept,
            final(self).io.token == old(self).io.token,
            old(self).io.source.read_ready ==> r == Async::Ready(()) && *final(self) == *old(self),
            !old(self).io.source.read_ready ==> r == Async::<()>::NotReady && final(self).io.source
                == spec_park_read(old(self).io.source, waker),
    {
        self.io.poll_read(waker)
    }

    /// One accept attempt. `os` is the outcome of the non-blocking accept
    /// call, consulted only when the listener is ready and no earlier accept
    /// is still registering its socket; `waker` is the current task's waker.
    ///
    /// A would-block result (from the readiness gate, from the pending
    /// registration, or from the operating system) means the task has been
    /// parked and will be woken.
    pub fn accept(&mut self, os: Result<NetAddr, IoErrorKind>, waker: u64) -> (r: Result<
        NetAddr,
        IoErrorKind,
    >)
        ensures
            final(self).io.token == old(self).io.token,
            match old(self).pending_accept {
                Some(None) => r == Err::<NetAddr, IoErrorKind>(IoErrorKind::WouldBlock) && *final(self) == *old(self),
                Some(Some(res)) => r == res && final(self).pending_accept is None && final(self).io == old(self).io,
                None => {
                    &&& final(self).pending_accept is None
                    &&& if !old(self).io.source.read_ready {
                        r == Err::<NetAddr, IoErrorKind>(IoErrorKind::WouldBlock) && final(self).io.source == spec_park_read(old(self).io.source, waker)
                    } else if os == Err::<NetAddr, IoErrorKind>(IoErrorKind::WouldBlock) {
                        r == os && final(self).io.source == spec_need_read(
                            old(self).io.source,
                            waker,
                        )
                    } else {
                        r == os && final(self).io == old(self).io
                    }
                },
            },
    {
        if let Some(slot) = self.pending_accept {
            match slot {
                None => Err(IoErrorKind::WouldBlock),
                Some(res) => {
                    self.pending_accept = None;
                    res
                },
            }
        } else {
            match self.io.poll_read(waker) {
                Async::NotReady => Err(IoErrorKind::WouldBlock),
                Async::Ready(()) => match os {
                    Err(IoErrorKind::WouldBlock) => {
                        self.io.need_read(waker);
                        Err(IoErrorKind::WouldBlock)
                    },
                    _ => os,
                },
            }
        }
    }

    /// One accept attempt that hands the connection back without registering
    /// it: the readiness protocol of `accept` without the pending slot.
    pub fn accept_std(&mut self, os: Result<NetAddr, IoErrorKind>, waker: u64) -> (r: Result<
        NetAddr,
        IoErrorKind,
    >)
        ensures
            final(self).io.token == old(self).io.token,
            final(self).pending_accept == old(self).pending_accept,
            if !old(self).io.source.read_ready {
                r == Err::<NetAddr, IoErrorKind>(IoErrorKind::WouldBlock) && final(self).io.source
                    == spec_park_read(old(self).io.source, waker)
            } else if os == Err::<NetAddr, IoErrorKind>(IoErrorKind::WouldBlock) {
                r == os && final(self).io.source == spec_need_read(old(self).io.source, waker)
            } else {
                r == os && final(self).io == old(self).io
            },
    {
        match self.io.poll_read(waker) {
            Async::NotReady => Err(IoErrorKind::WouldBlock),
            Async::Ready(()) => match os {
                Err(IoErrorKind::WouldBlock) => {
                    self.io.need_read(waker);
                    Err(IoErrorKind::WouldBlock)
                },
                _ => os,
            },
        }
    }

    /// An accepted socket is being registered on the reactor thread: park the
    /// reply slot that `accept` will consult.
    pub fn park_pending_accept(&mut self)
        ensures
            *final(self) == (TcpListener { pending_accept: Some(None), ..*old(self) }),
    {
        self.pending_accept = Some(None);
    }

    /// The reactor thread finished registering the accepted socket: fill the
    /// reply slot with the result `accept` will return.
    pub fn complete_pending_accept(&mut self, res: Result<NetAddr, IoErrorKind>)
        ensures
            *final(self) == (TcpListener { pending_accept: Some(Some(res)), ..*old(self) }),
    {
        self.pending_accept = Some(Some(res));
    }

    /// Consume the listener, returning the stream of the connections it
    /// accepts.
    pub fn incoming(self) -> (r: Incoming)
        ensures
            r.inner == self,
    {
        Incoming { inner: self }
    }
}

impl Incoming {
    /// One poll of the connection stream: an accept attempt whose
    /// would-block becomes not-ready and whose success is the next element.
    pub fn poll(&mut self, os: Result<NetAddr, IoErrorKind>, waker: u64) -> (r: Result<
        Async<NetAddr>,
        IoErrorKind,
    >)
        ensures
            final(self).inner.io.token == old(self).inner.io.token,
            match old(self).inner.pending_accept {
                Some(None) => r == Ok::<Async<NetAddr>, IoErrorKind>(Async::NotReady) && *final(self) == *old(self),
                Some(Some(res)) => final(self).inner.pending_accept is None && final(self).inner.io
                    == old(self).inner.io && match res {
                    Ok(addr) => r == Ok::<Async<NetAddr>, IoErrorKind>(Async::Ready(addr)),
                    Err(IoErrorKind::WouldBlock) => r == Ok::<Async<NetAddr>, IoErrorKind>(
                        Async::NotReady,
                    ),
                    Err(e) => r == Err::<Async<NetAddr>, IoErrorKind>(e),
                },
                None => {
                    &&& final(self).inner.pending_accept is None
                    &&& if !old(self).inner.io.source.read_ready {
                        r == Ok::<Async<NetAddr>, IoErrorKind>(Async::NotReady) && final(self).inner.io.source == spec_park_read(old(self).inner.io.source, waker)
                    } else if os == Err::<NetAddr, IoErrorKind>(IoErrorKind::WouldBlock) {
                        r == Ok::<Async<NetAddr>, IoErrorKind>(Async::NotReady) && final(self).inner.io.source == spec_need_read(old(self).inner.io.source, waker)
                    } else {
                        final(self).inner.io == old(self).inner.io && match os {
                            Ok(addr) => r == Ok::<Async<NetAddr>, IoErrorKind>(Async::Ready(addr)),
                            Err(e) => r == Err::<Async<NetAddr>, IoErrorKind>(e),
                        }
                    }
                },
            },
    {
        match self.inner.accept(os, waker) {
            Ok(addr) => Ok(Async::Ready(addr)),
            Err(IoErrorKind::WouldBlock) => Ok(Async::NotReady),
            Err(e) => Err(e),
        }
    }
}

impl TcpStream {
    /// A stream over a registered source.
    pub fn new(io: IoToken) -> (s: TcpStream)
        ensures
            s.io == io,
    {
        TcpStream { io }
    }

    /// Whether the stream is ready to read; parks the waker otherwise.
    pub fn poll_read(&mut self, waker: u64) -> (r: Async<()>)
        ensures
            final(self).io.token == old(self).io.token,
            old(self).io.source.read_ready ==> r == Async::Ready(()) && *final(self) == *old(self),
            !old(self).io.source.read_ready ==> r == Async::<()>::NotReady && final(self).io.source
                == spec_park_read(old(self).io.source, waker),
    {
        self.io.poll_read(waker)
    }

    /// Whether the stream is ready to write; parks the waker otherwise.
    pub fn poll_write(&mut self, waker: u64) -> (r: Async<()>)
        ensures
            final(self).io.token == old(self).io.token,
            old(self).io.source.write_ready ==> r == Async::Ready(()) && *final(self) == *old(self),
            !old(self).io.source.write_ready ==> r == Async::<()>::NotReady && final(self).io.source == spec_park_write(old(self).io.source, waker),
    {
        self.io.poll_write(waker)
    }

    /// One read attempt: gate on read readiness, drain-and-park on a
    /// would-block outcome, and surface the outcome (a byte count or an
    /// error) verbatim otherwise.
    pub fn read(&mut self, os: Result<usize, IoErrorKind>, waker: u64) -> (r: Result<
        usize,
        IoErrorKind,
    >)
        ensures
            final(self).io.token == old(self).io.token,
            if !old(self).io.source.read_ready {
                r == Err::<usize, IoErrorKind>(IoErrorKind::WouldBlock) && final(self).io.source
                    == spec_park_read(old(self).io.source, waker)
            } else if os == Err::<usize, IoErrorKind>(IoErrorKind::WouldBlock) {
                r == os && final(self).io.source == spec_need_read(old(self).io.source, waker)
            } else {
                r == os && final(self).io == old(self).io
            },
    {
        match self.io.poll_read(waker) {
            Async::NotReady => Err(IoErrorKind::WouldBlock),
            Async::Ready(()) => match os {
                Err(IoErrorKind::WouldBlock) => {
                    self.io.need_read(waker);
                    Err(IoErrorKind::WouldBlock)
                },
                _ => os,
            },
        }
    }

    /// One peek attempt: the read protocol, except that a successful peek
    /// leaves the peeked data (and so the readiness bit) in place.
    pub fn peek(&mut self, os: Result<usize, IoErrorKind>, waker: u64) -> (r: Result<
        usize,
        IoErrorKind,
    >)
        ensures
            final(self).io.token == old(self).io.token,
            if !old(self).io.source.read_ready {
                r == Err::<usize, IoErrorKind>(IoErrorKind::WouldBlock) && final(self).io.source
                    == spec_park_read(old(self).io.source, waker)
            } else if os == Err::<usize, IoErrorKind>(IoErrorKind::WouldBlock) {
                r == os && final(self).io.source == spec_need_read(old(self).io.source, waker)
            } else {
                r == os && final(self).io == old(self).io
            },
    {
        match self.io.poll_read(waker) {
            Async::NotReady => Err(IoErrorKind::WouldBlock),
            Async::Ready(()) => match os {
                Err(IoErrorKind::WouldBlock) => {
                    self.io.need_read(waker);
                    Err(IoErrorKind::WouldBlock)
                },
                _ => os,
            },
        }
    }

    /// One write attempt: gate on write readiness, drain-and-park on a
    /// would-block outcome, and surface the outcome verbatim otherwise.
    pub fn write(&mut self, os: Result<usize, IoErrorKind>, waker: u64) -> (r: Result<
        usize,
        IoErrorKind,
    >)
        ensures
            final(self).io.token == old(self).io.token,
            if !old(self).io.source.write_ready {
                r == Err::<usize, IoErrorKind>(IoErrorKind::WouldBlock) && final(self).io.source
                    == spec_park_write(old(self).io.source, waker)
            } else if os == Err::<usize, IoErrorKind>(IoErrorKind::WouldBlock) {
                r == os && final(self).io.source == spec_need_write(old(self).io.source, waker)
            } else {
                r == os && final(self).io == old(self).io
            },
    {
        match self.io.poll_write(waker) {
            Async::NotReady => Err(IoErrorKind::WouldBlock),
            Async::Ready(()) => match os {
                Err(IoErrorKind::WouldBlock) => {
                    self.io.need_write(waker);
                    Err(IoErrorKind::WouldBlock)
                },
                _ => os,
            },
        }
    }

    /// One flush attempt: the write-side protocol around a flush call.
    pub fn flush(&mut self, os: Result<(), IoErrorKind>, waker: u64) -> (r: Result<
        (),
        IoErrorKind,
    >)
        ensures
            final(self).io.token == old(self).io.token,
            if !old(self).io.source.write_ready {
                r == Err::<(), IoErrorKind>(IoErrorKind::WouldBlock) && final(self).io.source
                    == spec_park_write(old(self).io.source, waker)
            } else if os == Err::<(), IoErrorKind>(IoErrorKind::WouldBlock) {
                r == os && final(self).io.source == spec_need_write(old(self).io.source, waker)
            } else {
                r == os && final(self).io == old(self).io
            },
    {
        match self.io.poll_write(waker) {
            Async::NotReady => Err(IoErrorKind::WouldBlock),
            Async::Ready(()) => match os {
                Err(IoErrorKind::WouldBlock) => {
                    self.io.need_write(waker);
                    Err(IoErrorKind::WouldBlock)
                },
                _ => os,
            },
        }
    }

    /// One vectored-read poll: the read protocol with would-block reported
    /// as not-ready instead of an error. Assembling the buffers and
    /// advancing their cursor by the returned count is the caller's job.
    pub fn read_buf(&mut self, os: Result<usize, IoErrorKind>, waker: u64) -> (r: Result<
        Async<usize>,
        IoErrorKind,
    >)
        ensures
            final(self).io.token == old(self).io.token,
            if !old(self).io.source.read_ready {
                r == Ok::<Async<usize>, IoErrorKind>(Async::NotReady) && final(self).io.source
                    == spec_park_read(old(self).io.source, waker)
            } else if os == Err::<usize, IoErrorKind>(IoErrorKind::WouldBlock) {
                r == Ok::<Async<usize>, IoErrorKind>(Async::NotReady) && final(self).io.source
                    == spec_need_read(old(self).io.source, waker)
            } else {
                final(self).io == old(self).io && match os {
                    Ok(n) => r == Ok::<Async<usize>, IoErrorKind>(Async::Ready(n)),
                    Err(e) => r == Err::<Async<usize>, IoErrorKind>(e),
                }
            },
    {
        match self.io.poll_read(waker) {
            Async::NotReady => Ok(Async::NotReady),
            Async::Ready(()) => match os {
                Ok(n) => Ok(Async::Ready(n)),
                Err(IoErrorKind::WouldBlock) => {
                    self.io.need_read(waker);
                    Ok(Async::NotReady)
                },
                Err(e) => Err(e),
            },
        }
    }

    /// One vectored-write poll: the write protocol with would-block reported
    /// as not-ready instead of an error.
    pub fn write_buf(&mut self, os: Result<usize, IoErrorKind>, waker: u64) -> (r: Result<
        Async<usize>,
        IoErrorKind,
    >)
        ensures
            final(self).io.token == old(self).io.token,
            if !old(self).io.source.write_ready {
                r == Ok::<Async<usize>, IoErrorKind>(Async::NotReady) && final(self).io.source
                    == spec_park_write(old(self).io.source, waker)
            } else if os == Err::<usize, IoErrorKind>(IoErrorKind::WouldBlock) {
                r == Ok::<Async<usize>, IoErrorKind>(Async::NotReady) && final(self).io.source
                    == spec_need_write(old(self).io.source, waker)
            } else {
                final(self).io == old(self).io && match os {
                    Ok(n) => r == Ok::<Async<usize>, IoErrorKind>(Async::Ready(n)),
                    Err(e) => r == Err::<Async<usize>, IoErrorKind>(e),
                }
            },
    {
        match self.io.poll_write(waker) {
            Async::NotReady => Ok(Async::NotReady),
            Async::Ready(()) => match os {
                Ok(n) => Ok(Async::Ready(n)),
                Err(IoErrorKind::WouldBlock) => {
                    self.io.need_write(waker);
                    Ok(Async::NotReady)
                },
                Err(e) => Err(e),
            },
        }
    }

    /// The connection future for a connect call that already produced a
    /// registered socket (still connecting) or an error.
    pub fn connect(initial: TcpStreamNewState) -> (f: TcpStreamNew)
        ensures
            f.inner == initial,
    {
        TcpStreamNew { inner: initial }
    }
}

impl TcpStreamNew {
    /// One poll of a pending connection. A freshly connected socket becomes
    /// writable when the connect completes, so the future waits for write
    /// readiness and then consults the socket's error slot (`socket_error`,
    /// the outcome of the take-error call, consulted only at that point): a
    /// recorded error means the connect failed; none means the stream is
    /// connected. Polling again after the future resolved is a caller bug.
    pub fn poll(&mut self, socket_error: Option<IoErrorKind>, waker: u64) -> (r: Result<
        Async<TcpStream>,
        IoErrorKind,
    >)
        requires
            !(old(self).inner is Empty),
        ensures
            match old(self).inner {
                TcpStreamNewState::Error(e) => r == Err::<Async<TcpStream>, IoErrorKind>(e)
                    && final(self).inner is Empty,
                TcpStreamNewState::Waiting(s) => {
                    if !s.io.source.write_ready {
                        &&& r == Ok::<Async<TcpStream>, IoErrorKind>(Async::NotReady)
                        &&& final(self).inner matches TcpStreamNewState::Waiting(s2)
                            && s2.io.token == s.io.token && s2.io.source == spec_park_write(
                            s.io.source,
                            waker,
                        )
                    } else {
                        match socket_error {
                            Some(e) => r == Err::<Async<TcpStream>, IoErrorKind>(e) && *final(self) == *old(self),
                            None => r == Ok::<Async<TcpStream>, IoErrorKind>(Async::Ready(s))
                                && final(self).inner is Empty,
                        }
                    }
                },
                TcpStreamNewState::Empty => false,
            },
    {
        match self.inner {
            TcpStreamNewState::Error(e) => {
                self.inner = TcpStreamNewState::Empty;
                Err(e)
            },
            TcpStreamNewState::Waiting(mut stream) => {
                match stream.io.poll_write(waker) {
                    Async::NotReady => {
                        self.inner = TcpStreamNewState::Waiting(stream);
                        Ok(Async::NotReady)
                    },
                    Async::Ready(()) => match socket_error {
                        Some(e) => Err(e),
                        None => {
                            self.inner = TcpStreamNewState::Empty;
                            Ok(Async::Ready(stream))
                        },
                    },
                }
            },
            TcpStreamNewState::Empty => Err(IoErrorKind::InvalidState),
        }
    }
}

} // verus!
