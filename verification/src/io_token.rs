//! The I/O token: the identity an adapter holds for one registered source,
//! together with its view of the source's readiness, and the one-shot
//! future through which a registration's reply travels back from the
//! reactor thread.
//!
//! In a running system the readiness word is shared between the token and
//! the reactor's registry slot; this model gives the token sole ownership of
//! the record and the reactor delivers events to it through
//! [`crate::readiness::Source::on_event`].

use vstd::prelude::*;

use crate::reactor::Message;
use crate::readiness::{spec_need_read, spec_need_write, spec_park_read, spec_park_write, Source};
use crate::{Async, IoErrorKind};

verus! {

/// A token identifying one registered source, with the source's readiness
/// record.
#[derive(Clone, Copy, PartialEq, Eq, Debug)]
pub struct IoToken {
    pub token: usize,
    pub source: Source,
}

/// A future resolving to the token of a freshly registered source. On its
/// first poll it hands the caller a registration message to send to the
/// reactor; the reactor's reply arrives through [`IoTokenNew::complete`].
#[derive(Clone, Copy, PartialEq, Eq, Debug)]
pub struct IoTokenNew {
    pub sent: bool,
    pub slot: Option<Result<usize, IoErrorKind>>,
}

impl IoToken {
    /// Begin registering a new source: the returned future drives the
    /// message exchange with the reactor.
    pub fn new() -> (f: IoTokenNew)
        ensures
            !f.sent,
            f.slot is None,
    {
        IoTokenNew { sent: false, slot: None }
    }

    /// A token as the reactor's registration reply creates it: a fresh
    /// record under the allocated slot index.
    pub fn from_reply(token: usize) -> (t: IoToken)
        ensures
            t.token == token,
            t.source == Source::fresh(),
    {
        IoToken { token, source: Source::new() }
    }

    /// Consume the pending readiness notification: the readiness word
    /// (`READ` OR `WRITE`) is returned and reset. Notifications arrive on an
    /// edge basis: after consuming one, no further notification comes for a
    /// direction until the consumer parks again through `need_read` or
    /// `need_write`.
    pub fn take_readiness(&mut self) -> (mask: usize)
        ensures
            mask == old(self).source.ready_mask(),
            final(self).source == (Source {
                read_ready: false,
                write_ready: false,
                ..old(self).source
            }),
            final(self).token == old(self).token,
    {
        self.source.take_ready_mask()
    }

    /// The message that parks `waker` for the next read notification on this
    /// token; the caller sends it to the reactor.
    pub fn schedule_read(&self, waker: u64) -> (m: Message)
        ensures
            m == (Message::ScheduleRead { token: self.token, waker }),
    {
        Message::ScheduleRead { token: self.token, waker }
    }

    /// The message that parks `waker` for the next write notification on
    /// this token; the caller sends it to the reactor.
    pub fn schedule_write(&self, waker: u64) -> (m: Message)
        ensures
            m == (Message::ScheduleWrite { token: self.token, waker }),
    {
        Message::ScheduleWrite { token: self.token, waker }
    }

    /// The message that unregisters this token and releases its slot; the
    /// caller sends it to the reactor when the owning adapter is dropped.
    pub fn drop_source(&self) -> (m: Message)
        ensures
            m == (Message::Deregister { token: self.token }),
    {
        Message::Deregister { token: self.token }
    }

    /// Poll the read direction: ready when the read bit is set, else the
    /// waker is parked.
    pub fn poll_read(&mut self, waker: u64) -> (r: Async<()>)
        ensures
            final(self).token == old(self).token,
            old(self).source.read_ready ==> r == Async::Ready(()) && *final(self) == *old(self),
            !old(self).source.read_ready ==> r == Async::<()>::NotReady
                && final(self).source == spec_park_read(old(self).source, waker),
    {
        self.source.poll_read(waker)
    }

    /// Poll the write direction: ready when the write bit is set, else the
    /// waker is parked.
    pub fn poll_write(&mut self, waker: u64) -> (r: Async<()>)
        ensures
            final(self).token == old(self).token,
            old(self).source.write_ready ==> r == Async::Ready(()) && *final(self) == *old(self),
            !old(self).source.write_ready ==> r == Async::<()>::NotReady
                && final(self).source == spec_park_write(old(self).source, waker),
    {
        self.source.poll_write(waker)
    }

    /// The consumer drained the source to would-block on reads: clear the
    /// read bit and park the waker.
    pub fn need_read(&mut self, waker: u64)
        ensures
            final(self).token == old(self).token,
            final(self).source == spec_need_read(old(self).source, waker),
    {
        self.source.need_read(waker)
    }

    /// The consumer hit would-block on a write: clear the write bit and park
    /// the waker.
    pub fn need_write(&mut self, waker: u64)
        ensures
            final(self).token == old(self).token,
            final(self).source == spec_need_write(old(self).source, waker),
    {
        self.source.need_write(waker)
    }
}

impl IoTokenNew {
    /// One poll of the registration future. On the first poll it returns the
    /// registration message for the caller to send; it stays not-ready until
    /// the reactor fills the reply slot, then resolves to the token (or to
    /// the error the poller reported for the handle).
    pub fn poll(&mut self) -> (r: (Option<Message>, Async<Result<IoToken, IoErrorKind>>))
        ensures
            final(self).sent,
            final(self).slot == old(self).slot,
            r.0 == (if old(self).sent { None::<Message> } else { Some(Message::Register) }),
            match old(self).slot {
                None => r.1 is NotReady,
                Some(Ok(token)) => r.1 == Async::Ready(
                    Ok::<IoToken, IoErrorKind>(IoToken { token, source: Source::fresh() }),
                ),
                Some(Err(e)) => r.1 == Async::Ready(Err::<IoToken, IoErrorKind>(e)),
            },
    {
        let to_send: Option<Message> = if self.sent {
            None
        } else {
            self.sent = true;
            Some(Message::Register)
        };
        match self.slot {
            None => (to_send, Async::NotReady),
            Some(Ok(token)) => (to_send, Async::Ready(Ok(IoToken::from_reply(token)))),
            Some(Err(e)) => (to_send, Async::Ready(Err(e))),
        }
    }

    /// The reactor's side of the reply slot: store the registration's result
    /// (the allocated token, or the poller's error). The stored result is
    /// what the next poll resolves to; the reactor then wakes the future's
    /// task.
    pub fn complete(&mut self, result: Result<usize, IoErrorKind>)
        ensures
            final(self).sent == old(self).sent,
            final(self).slot == Some(result),
    {
        self.slot = Some(result);
    }
}

} // verus!
