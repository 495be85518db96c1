use vstd::prelude::*;

verus! {

/// The error taxonomy of the server core.
///
/// `Ipv6Unsupported` rejects a construction attempt with an IPv6 address;
/// `BadInputDatagram` marks a datagram that fails structural validation;
/// `InnerIo` stands for an operating-system level failure reported by the
/// transport. The OS detail stays with the caller that performed the I/O.
#[derive(Clone, Copy, Debug, PartialEq, Eq, Structural)]
pub enum Error {
    Ipv6Unsupported,
    BadInputDatagram,
    InnerIo,
}

} // verus!
