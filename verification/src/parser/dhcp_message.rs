use vstd::prelude::*;

verus! {

/// The BOOTP message class, derived from the `op` field of a datagram.
#[derive(Clone, Copy, Debug, PartialEq, Eq, Structural)]
pub enum Type {
    BootRequest,
    BootReply,
}

} // verus!
