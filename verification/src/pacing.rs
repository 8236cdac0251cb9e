//! Waiting for a transport to become readable without consuming from it.
//!
//! The session loop wakes on a schedule while also blocking on the peer's next
//! request. A short read timeout on the socket would be wrong: a deadline that
//! expired between two chunks of one message would desynchronise the framing.
//! So readiness is only observed (by peeking under a short deadline), and
//! this module says which outcomes of that peek mean "nothing yet".

use vstd::prelude::*;
use std::time::Duration;

verus! {

/// An I/O error; opaque here.
#[verifier::external_type_specification]
#[verifier::external_body]
pub struct ExIoError(std::io::Error);

/// A transport that can be polled for readability with a deadline.
pub trait WaitReadable {
    /// Block for at most `slice`. `Ok(true)` means the next read will not
    /// block — data has arrived or the peer has closed, which the caller tells
    /// apart by reading — and `Ok(false)` that the slice expired with nothing
    /// to read. Nothing is consumed from the transport.
    fn wait_readable(&mut self, slice: Duration) -> std::io::Result<bool>;
}

/// How a peek under a receive deadline failed, as far as the wait cares.
#[derive(Debug, Clone, Copy, PartialEq, Eq)]
pub enum PeekErrorKind {
    /// The operation would block (how Unix reports an expired deadline).
    WouldBlock,
    /// The operation timed out (how Windows reports it).
    TimedOut,
    /// Any other failure.
    Other,
}

/// Whether a peek failure is just the deadline expiring: Windows reports
/// `TimedOut` and Unix `WouldBlock`, and both mean nothing arrived.
pub fn is_timeout(kind: PeekErrorKind) -> (b: bool)
    ensures
        b == (kind == PeekErrorKind::WouldBlock || kind == PeekErrorKind::TimedOut),
{
    match kind {
        PeekErrorKind::WouldBlock => true,
        PeekErrorKind::TimedOut => true,
        PeekErrorKind::Other => false,
    }
}

} // verus!
