//! How the daemon's event loop reacts to what happens first.
use vstd::prelude::*;

verus! {

/// What the daemon's event loop woke up for.
#[derive(Debug, PartialEq, Eq, Structural)]
pub enum LoopEvent {
    /// The D-Bus task finished.
    BusFinished,
    /// The greeter socket task finished.
    IpcFinished,
    /// `SIGHUP` arrived: the configuration is to be reloaded.
    Hangup,
    /// `SIGINT` arrived.
    Interrupt,
}

/// Whether the loop goes on after `event`: only a hangup keeps it running; the end of either
/// task or an interrupt ends it.
pub fn continues_after(event: LoopEvent) -> (b: bool)
    ensures
        b == (event is Hangup),
{
    match event {
        LoopEvent::Hangup => true,
        _ => false,
    }
}

} // verus!
