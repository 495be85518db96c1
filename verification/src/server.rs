use vstd::prelude::*;
use vstd::slice::slice_subrange;

use crate::addr::SockAddr;
use crate::errors::Error;
use crate::parser::Parser;
use crate::parser::valid_datagram;
use crate::traits::SocketTrait;

verus! {

/// Capacity of the receive buffer: one datagram of at most this many bytes
/// is read per readiness tick.
pub const MAX_DATAGRAM_LEN: usize = 4096;

/// The configured server: it validates the address at construction — IPv6
/// is rejected before any socket work — and records the lifecycle step from
/// "configured" to "bound". The socket work itself (allocation, bind,
/// event-loop registration) belongs to the transport layer around this
/// core, which reports its progress back here.
#[derive(Debug)]
pub struct Server {
    address: SockAddr,
    bound: bool,
}

impl Server {
    /// The stored address, as contracts see it.
    pub closed spec fn spec_address(self) -> SockAddr {
        self.address
    }

    /// Whether a successful bind has been recorded, as contracts see it.
    pub closed spec fn spec_bound(self) -> bool {
        self.bound
    }

    /// Accepts exactly the IPv4 addresses: an IPv6 address is refused with
    /// `Ipv6Unsupported`, and no IPv6 representation is ever stored. A new
    /// server holds the given address and is not yet bound.
    pub fn new(address: SockAddr) -> (r: Result<Server, Error>)
        ensures
            r is Err <==> address is V6,
            r is Err ==> r->Err_0 == Error::Ipv6Unsupported,
            r is Ok ==> r->Ok_0.spec_address() == address && !r->Ok_0.spec_bound(),
    {
        if address.is_v6() {
            return Err(Error::Ipv6Unsupported);
        }
        Ok(Server { address, bound: false })
    }

    /// The address the server was configured with.
    pub fn address(&self) -> (r: SockAddr)
        ensures
            r == self.spec_address(),
    {
        self.address
    }

    /// True once `mark_bound` has recorded a successful bind.
    pub fn is_bound(&self) -> (r: bool)
        ensures
            r == self.spec_bound(),
    {
        self.bound
    }

    /// Records that the transport bound its socket to the stored address;
    /// the address itself never changes.
    pub fn mark_bound(&mut self)
        ensures
            final(self).spec_address() == old(self).spec_address(),
            final(self).spec_bound(),
    {
        self.bound = true;
    }
}

/// One successful read of datagram `d`, seen on the counters: `bytes_read`
/// grows by the payload length, and `datagrams_invalid` by one exactly when
/// the datagram is structurally invalid.
pub open spec fn read_step(
    pre_bytes: int,
    pre_invalid: int,
    post_bytes: int,
    post_invalid: int,
    d: Seq<u8>,
) -> bool {
    &&& d.len() <= MAX_DATAGRAM_LEN
    &&& post_bytes == pre_bytes + d.len()
    &&& post_invalid == pre_invalid + (if valid_datagram(d) { 0int } else { 1int })
}

/// The readiness handler: on each tick it drains one datagram from the
/// socket, runs it through the validator, and updates its own counters.
/// The counters are the only state — there is no blocking, retry or
/// backoff in the handler itself.
#[derive(Debug)]
pub struct InnerServer<'a, S: SocketTrait> {
    /// Running total of payload bytes over all successful reads (the
    /// accumulate policy: each read adds its length, valid or not).
    pub bytes_read: usize,
    /// How many datagrams failed structural validation.
    pub datagrams_invalid: usize,
    /// The transport capability the reactor reads from.
    pub socket: &'a S,
    /// How many readiness notifications have been handled.
    pub tick_counter: usize,
}

impl<'a, S: SocketTrait> InnerServer<'a, S> {
    /// A fresh reactor reading from `socket`, with every counter at zero.
    pub fn new(socket: &'a S) -> (r: InnerServer<'a, S>)
        ensures
            r.tick_counter == 0,
            r.bytes_read == 0,
            r.datagrams_invalid == 0,
            r.socket == socket,
    {
        InnerServer { tick_counter: 0, bytes_read: 0, datagrams_invalid: 0, socket }
    }

    /// Accounts one received datagram: its length is added to `bytes_read`
    /// whatever its shape, and `datagrams_invalid` grows by one exactly when
    /// it fails structural validation. The tick counter is untouched.
    pub fn record_datagram(&mut self, data: &[u8])
        requires
            old(self).bytes_read + data@.len() <= usize::MAX,
            old(self).datagrams_invalid < usize::MAX,
        ensures
            final(self).tick_counter == old(self).tick_counter,
            final(self).bytes_read == old(self).bytes_read + data@.len(),
            valid_datagram(data@) ==> final(self).datagrams_invalid == old(self).datagrams_invalid,
            !valid_datagram(data@) ==> final(self).datagrams_invalid == old(self).datagrams_invalid + 1,
    {
        self.bytes_read = self.bytes_read + data.len();
        match Parser::parse(data) {
            Ok(()) => {},
            Err(_) => {
                self.datagrams_invalid = self.datagrams_invalid + 1;
            },
        }
    }

    /// Accounts the outcome of one receive call. `None` — the socket had
    /// nothing queued, or its read failed — leaves `bytes_read` and
    /// `datagrams_invalid` exactly as they were: an idle or failing tick is
    /// never counted as an invalid datagram. `Some(data)` performs the read
    /// step for `data`. The tick counter is untouched either way.
    pub fn account(&mut self, received: Option<&[u8]>)
        requires
            received matches Some(data) ==> old(self).bytes_read + data@.len() <= usize::MAX
                && old(self).datagrams_invalid < usize::MAX,
        ensures
            final(self).tick_counter == old(self).tick_counter,
            received is None ==> final(self).bytes_read == old(self).bytes_read
                && final(self).datagrams_invalid == old(self).datagrams_invalid,
            received matches Some(data) ==> final(self).bytes_read == old(self).bytes_read
                + data@.len(),
            received matches Some(data) && valid_datagram(data@) ==> final(self).datagrams_invalid
                == old(self).datagrams_invalid,
            received matches Some(data) && !valid_datagram(data@) ==> final(self).datagrams_invalid
                == old(self).datagrams_invalid + 1,
    {
        match received {
            Some(data) => {
                self.record_datagram(data);
            },
            None => {},
        }
    }

    /// One readiness notification: the tick counter grows by exactly one,
    /// regardless of datagram presence. At most one datagram is read per
    /// tick (the one-read-per-tick policy; anything still queued waits for
    /// the next notification). When the socket handed over a datagram, the
    /// other counters move by one read step for it; when it had nothing
    /// queued, or failed, they stay as they were — a transient read error
    /// is contained in the tick and never escapes.
    pub fn ready(&mut self)
        requires
            old(self).tick_counter < usize::MAX,
            old(self).bytes_read + MAX_DATAGRAM_LEN <= usize::MAX,
            old(self).datagrams_invalid < usize::MAX,
        ensures
            final(self).tick_counter == old(self).tick_counter + 1,
            (final(self).bytes_read == old(self).bytes_read && final(self).datagrams_invalid
                == old(self).datagrams_invalid) || (exists|d: Seq<u8>|
                #[trigger] read_step(
                    old(self).bytes_read as int,
                    old(self).datagrams_invalid as int,
                    final(self).bytes_read as int,
                    final(self).datagrams_invalid as int,
                    d,
                )),
    {
        self.tick_counter = self.tick_counter + 1;
        let mut buffer: Vec<u8> = make_buffer();
        let socket: &S = self.socket;
        match socket.recv_from(&mut buffer) {
            Ok(Some((count, _source))) => {
                let data: &[u8] = slice_subrange(buffer.as_slice(), 0, count);
                self.account(Some(data));
                proof {
                    assert(read_step(
                        old(self).bytes_read as int,
                        old(self).datagrams_invalid as int,
                        self.bytes_read as int,
                        self.datagrams_invalid as int,
                        data@,
                    ));
                }
            },
            _ => {
                self.account(None);
            },
        }
    }
}

/// A zeroed receive buffer of the fixed datagram capacity.
fn make_buffer() -> (r: Vec<u8>)
    ensures
        r@.len() == MAX_DATAGRAM_LEN,
{
    let mut buffer: Vec<u8> = Vec::new();
    let mut i: usize = 0;
    while i < MAX_DATAGRAM_LEN
        invariant
            buffer@.len() == i,
            i <= MAX_DATAGRAM_LEN,
        decreases MAX_DATAGRAM_LEN - i,
    {
        buffer.push(0u8);
        i = i + 1;
    }
    buffer
}

} // verus!
