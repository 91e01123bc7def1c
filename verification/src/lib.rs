//! Protocol logic, session decisions and path handling of the rdm display manager.

pub mod support;
pub mod common;
pub mod standalone;
pub mod daemon;
pub mod greeter;
