use vstd::prelude::*;

verus! {

/// A socket address as the server core reads it: the IP version, the
/// address bytes and the port, held as plain values. The core only ever
/// decides on the version tag; the bytes and port are carried through to
/// the transport layer unchanged.
#[derive(Clone, Copy, Debug, PartialEq, Eq)]
pub enum SockAddr {
    V4 { octets: [u8; 4], port: u16 },
    V6 { segments: [u16; 8], port: u16 },
}

impl SockAddr {
    /// True exactly when the address is an IPv6 address.
    pub fn is_v6(&self) -> (r: bool)
        ensures
            r == (self is V6),
    {
        match self {
            SockAddr::V6 { .. } => true,
            SockAddr::V4 { .. } => false,
        }
    }
}

} // verus!
