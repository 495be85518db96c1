//! Core of a UDP BOOTP/DHCP message server: address validation, the
//! structural datagram validator and message-type classifier, and the
//! reactor that accounts readiness ticks, bytes read and invalid datagrams.
//! The transport behind the reactor is a capability trait, so the event
//! loop and the real socket live with the binary, not here.

pub mod addr;
pub mod errors;
pub mod parser;
pub mod server;
pub mod traits;
