//! Core of a single-threaded, poll-based asynchronous I/O runtime.
//!
//! The crate models the three interlocking pieces of such a runtime and
//! verifies their state machines:
//!
//! * a readiness abstraction that bridges edge-triggered readiness events
//!   to suspended tasks ([`readiness`], [`io_token`]);
//! * a source registry and the reactor driver that applies control messages
//!   and dispatches readiness events ([`registry`], [`reactor`]);
//! * the task model: lifecycle state bits, reference counting, wakers and
//!   the join handshake ([`task_state`], [`task`]).
//!
//! Around the core stand the collaborator adapters whose decision logic is
//! verified here: TCP accept/read/write readiness handling ([`tcp`]), a UDP
//! frame codec ([`udp_frame`]), and a file-open future ([`fs`]).
//!
//! The operating system and the embedding executor live outside this crate.
//! Every function that in a running system would issue a syscall instead
//! takes the syscall's outcome as an argument and is verified for every
//! possible outcome; wakers are identified by plain numbers and the caller
//! performs the actual wake-ups returned by the reactor functions.

use vstd::prelude::*;

pub mod fs;
pub mod io_token;
pub mod reactor;
pub mod readiness;
pub mod registry;
pub mod task;
pub mod task_state;
pub mod tcp;
pub mod udp_frame;

verus! {

/// Result of one poll step on a future-like object: either the value is
/// available now, or the caller has been parked and must wait for a wake-up.
#[derive(Clone, Copy, PartialEq, Eq, Debug)]
pub enum Async<T> {
    Ready(T),
    NotReady,
}

/// The error classes that the runtime core distinguishes.
///
/// `WouldBlock` is the internal sentinel of the readiness protocol: an
/// operation could not proceed and the caller has been scheduled for a
/// notification. All other variants are surfaced verbatim to the caller.
#[derive(Clone, Copy, PartialEq, Eq, Structural, Debug)]
pub enum IoErrorKind {
    WouldBlock,
    WriteZero,
    ConnectionRefused,
    ConnectionReset,
    BrokenPipe,
    UnexpectedEof,
    InvalidState,
    Other,
}

/// Whether an outcome is the would-block sentinel, after which an adapter
/// must park through `need_read`/`need_write` before retrying.
pub fn is_wouldblock<T>(r: &Result<T, IoErrorKind>) -> (b: bool)
    ensures
        b == (*r matches Err(IoErrorKind::WouldBlock)),
{
    match r {
        Ok(_) => false,
        Err(e) => matches!(e, IoErrorKind::WouldBlock),
    }
}

/// A socket address held as plain values (an IPv4 address and a port).
///
/// The embedding layer converts between this and the operating system's
/// address representation.
#[derive(Clone, Copy, PartialEq, Eq, Debug)]
pub struct NetAddr {
    pub ip: u32,
    pub port: u16,
}

} // verus!
