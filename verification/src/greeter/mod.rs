//! The client side of the greeter protocol.

pub mod handshake;
