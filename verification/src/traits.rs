use vstd::prelude::*;

use crate::addr::SockAddr;
use crate::errors::Error;

verus! {

/// The capability through which the reactor reaches its transport. It
/// decouples the reactor from a concrete socket, so that a deterministic
/// substitute can stand in for the operating system during tests, and the
/// real non-blocking UDP socket does so in the binary.
pub trait SocketTrait {
    /// Non-blocking receive of one datagram into `buf`.
    ///
    /// `Ok(Some((count, source)))` says a datagram was copied into the first
    /// `count` bytes of `buf` — truncated silently to the buffer's length if
    /// it was larger. `Ok(None)` says nothing is currently queued, and
    /// `Err(..)` an OS-level failure; in either of those cases the buffer
    /// carries no datagram. An implementation never changes the buffer's
    /// length.
    fn recv_from(&self, buf: &mut Vec<u8>) -> (r: Result<Option<(usize, SockAddr)>, Error>)
        ensures
            final(buf)@.len() == old(buf)@.len(),
            (r matches Ok(Some(p)) ==> p.0 <= final(buf)@.len()),
    ;
}

} // verus!
