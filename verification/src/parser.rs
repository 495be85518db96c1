pub mod dhcp_message;

use vstd::prelude::*;
use vstd::slice::slice_index_get;

use crate::errors::Error;

verus! {

/// Length of the fixed BOOTP header: every well-formed datagram carries at
/// least these 236 bytes before the options area.
pub const BOOTP_HEADER_LEN: usize = 236;

/// The canonical magic cookie closes the datagram: its last four bytes must
/// be 99, 130, 83, 99 (0x63825363), the sentinel that marks the start of the
/// options area.
pub open spec fn has_magic_cookie(b: Seq<u8>) -> bool {
    &&& b.len() >= 4
    &&& b[b.len() - 4] == 99
    &&& b[b.len() - 3] == 130
    &&& b[b.len() - 2] == 83
    &&& b[b.len() - 1] == 99
}

/// A structurally valid BOOTP datagram: at least the fixed 236-byte header,
/// closed by the canonical magic cookie.
pub open spec fn valid_datagram(b: Seq<u8>) -> bool {
    b.len() >= BOOTP_HEADER_LEN && has_magic_cookie(b)
}

/// The structural datagram validator and message-type classifier. Pure
/// functions over byte sequences: no I/O and no mutable state.
pub struct Parser {}

impl Parser {
    /// Structural validation of one received datagram: succeeds exactly when
    /// the buffer holds at least the fixed 236-byte BOOTP header and ends in
    /// the canonical magic cookie. Every rejection — the empty buffer as the
    /// minimum baseline, a short buffer, or a cookie mismatch — is
    /// `BadInputDatagram`.
    pub fn parse(buffer: &[u8]) -> (r: Result<(), Error>)
        ensures
            r is Ok <==> valid_datagram(buffer@),
            r is Err ==> r->Err_0 == Error::BadInputDatagram,
            buffer@.len() == 0 ==> r is Err,
    {
        let n: usize = buffer.len();
        if n < BOOTP_HEADER_LEN {
            return Err(Error::BadInputDatagram);
        }
        let c0: u8 = *slice_index_get(buffer, n - 4);
        let c1: u8 = *slice_index_get(buffer, n - 3);
        let c2: u8 = *slice_index_get(buffer, n - 2);
        let c3: u8 = *slice_index_get(buffer, n - 1);
        if c0 == 99 && c1 == 130 && c2 == 83 && c3 == 99 {
            Ok(())
        } else {
            Err(Error::BadInputDatagram)
        }
    }

    /// Classification of the message type from the `op` byte alone: `1` is a
    /// boot request, every other value a boot reply. Total — it never fails,
    /// whatever the rest of the datagram looks like.
    pub fn parse_message_type(buffer: u8) -> (r: Result<dhcp_message::Type, Error>)
        ensures
            r is Ok,
            buffer == 1 ==> r->Ok_0 == dhcp_message::Type::BootRequest,
            buffer != 1 ==> r->Ok_0 == dhcp_message::Type::BootReply,
    {
        if buffer == 1 {
            Ok(dhcp_message::Type::BootRequest)
        } else {
            Ok(dhcp_message::Type::BootReply)
        }
    }
}

} // verus!
