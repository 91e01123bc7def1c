//! The single-process display manager: it starts X, shows the login window itself and
//! answers a raw greeter socket.

pub mod constants;
pub mod ipc;
pub mod manager;
pub mod server;
pub mod ui;
