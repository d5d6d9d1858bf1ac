//! Server-side core of the SOCKS5 proxy protocol (RFC 1928): the wire codec,
//! the per-connection session state machine and the relay's decisions.
//!
//! Nothing here touches a socket. Decoders read from an in-memory
//! [`socket5::ByteStream`], encoders append to a `Vec<u8>`, and the state
//! machines map an event to the next action for a driver to perform.
pub mod opt;
pub mod relay;
pub mod session;
pub mod socket5;
