//! Helpers shared by the protocol and session code: byte layout, the `bytes` buffer,
//! text and path handling, and the sources of randomness.

pub mod wire;
pub mod buffer;
pub mod text;
pub mod paths;
pub mod entropy;
