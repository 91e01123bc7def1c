//! How the daemon answers a greeter on the IPC socket.
use vstd::prelude::*;
use crate::common::ipc::{IpcError, IpcMessage};

verus! {

/// The daemon's answer to what it read first from a new greeter: nothing when the greeter
/// hung up, its error when reading failed, a `ServerHello` to a `ClientHello`, and a refusal
/// of anything else.
pub open spec fn spec_response(req: Option<Result<IpcMessage, IpcError>>) -> Result<Option<IpcMessage>, IpcError> {
    match req {
        None => Ok(None),
        Some(Err(e)) => Err(e),
        Some(Ok(IpcMessage::ClientHello)) => Ok(Some(IpcMessage::ServerHello)),
        Some(Ok(_)) => Err(IpcError::UnknownMessageType),
    }
}

/// Decides what to send back for the first message read from a greeter; `Ok(None)` means
/// that the connection ends without an answer.
pub fn response_to(req: Option<Result<IpcMessage, IpcError>>) -> (r: Result<Option<IpcMessage>, IpcError>)
    ensures
        r == spec_response(req),
{
    let req = match req {
        Some(m) => m,
        None => return Ok(None),
    };
    match req {
        Ok(IpcMessage::ClientHello) => Ok(Some(IpcMessage::ServerHello)),
        Ok(_) => Err(IpcError::UnknownMessageType),
        Err(e) => Err(e),
    }
}

} // verus!
