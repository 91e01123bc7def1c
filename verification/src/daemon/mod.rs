//! The display manager daemon: seats, the greeter socket and the X server it runs.

pub mod constants;
pub mod seat;
pub mod seatmanager;
pub mod ipc;
pub mod server;
pub mod event_loop;
