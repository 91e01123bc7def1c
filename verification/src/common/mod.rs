//! What the daemon and the greeter share: the IPC wire format and its errors.

pub mod error;
pub mod ipc;
