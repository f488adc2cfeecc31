//! Client side of the SOCKS5 handshake (RFC 1928, "socks5h" flavour: the proxy
//! resolves host names).
//!
//! Everything here is pure protocol logic: code tables, error vocabulary,
//! request encoding, reply decoding and the handshake state machine. The
//! transport that carries the bytes is supplied by the caller.

mod digits;
pub mod error;
pub mod handshake;
pub mod method;
pub mod reply;
pub mod request;
