//! The handshake with which a greeter opens its connection to the daemon.
use vstd::prelude::*;
use crate::common::ipc::{
    IpcError, IpcMessage, MessageView, HEADER_SIZE, encode_frame, decode_frame, lemma_encode_decode_roundtrip,
};
use crate::daemon::ipc::spec_response;

verus! {

/// Why a greeter could not connect to the daemon.
#[derive(Debug)]
pub enum RdmGreeterError {
    /// A frame could not be read or written.
    Ipc(IpcError),
    /// The socket failed.
    Io(std::io::Error),
    /// The daemon hung up or did not answer with a `ServerHello`.
    FailedHandshake,
}

impl From<std::io::Error> for RdmGreeterError {
    fn from(err: std::io::Error) -> (r: RdmGreeterError) {
        RdmGreeterError::Io(err)
    }
}

impl vstd::std_specs::convert::FromSpecImpl<std::io::Error> for RdmGreeterError {
    open spec fn obeys_from_spec() -> bool {
        true
    }

    open spec fn from_spec(err: std::io::Error) -> Self {
        RdmGreeterError::Io(err)
    }
}

impl From<IpcError> for RdmGreeterError {
    fn from(err: IpcError) -> (r: RdmGreeterError) {
        RdmGreeterError::Ipc(err)
    }
}

impl vstd::std_specs::convert::FromSpecImpl<IpcError> for RdmGreeterError {
    open spec fn obeys_from_spec() -> bool {
        true
    }

    open spec fn from_spec(err: IpcError) -> Self {
        RdmGreeterError::Ipc(err)
    }
}

/// How the daemon's answer to `ClientHello` ends the handshake: only a `ServerHello`
/// completes it.
pub open spec fn spec_handshake(resp: Option<Result<IpcMessage, IpcError>>) -> Result<(), RdmGreeterError> {
    match resp {
        None => Err(RdmGreeterError::FailedHandshake),
        Some(Err(e)) => Err(RdmGreeterError::Ipc(e)),
        Some(Ok(IpcMessage::ServerHello)) => Ok(()),
        Some(Ok(_)) => Err(RdmGreeterError::FailedHandshake),
    }
}

/// Judges the daemon's answer to the greeter's `ClientHello`; `None` means that the
/// connection closed before an answer came.
pub fn handshake_outcome(resp: Option<Result<IpcMessage, IpcError>>) -> (r: Result<(), RdmGreeterError>)
    ensures
        r == spec_handshake(resp),
        r is Ok <==> (resp matches Some(Ok(m)) && m is ServerHello),
        resp matches Some(Ok(m)) && !(m is ServerHello) ==> r matches Err(
            RdmGreeterError::FailedHandshake,
        ),
{
    let resp = match resp {
        Some(m) => m,
        None => return Err(RdmGreeterError::FailedHandshake),
    };
    match resp {
        Ok(IpcMessage::ServerHello) => Ok(()),
        Ok(_) => Err(RdmGreeterError::FailedHandshake),
        Err(e) => Err(RdmGreeterError::Ipc(e)),
    }
}

/// A handshake carried over the wire succeeds: the daemon decodes the greeter's
/// `ClientHello`, answers `ServerHello`, and the greeter decodes that answer and accepts it.
pub proof fn lemma_handshake_over_the_wire(rest_to_daemon: Seq<u8>, rest_to_greeter: Seq<u8>)
    ensures
        decode_frame(encode_frame(IpcMessage::ClientHello) + rest_to_daemon)
            == Ok::<Option<(MessageView, usize)>, IpcError>(Some((MessageView::ClientHello, HEADER_SIZE))),
        spec_response(Some(Ok(IpcMessage::ClientHello)))
            == Ok::<Option<IpcMessage>, IpcError>(Some(IpcMessage::ServerHello)),
        decode_frame(encode_frame(IpcMessage::ServerHello) + rest_to_greeter)
            == Ok::<Option<(MessageView, usize)>, IpcError>(Some((MessageView::ServerHello, HEADER_SIZE))),
        spec_handshake(Some(Ok(IpcMessage::ServerHello))) is Ok,
{
    lemma_encode_decode_roundtrip(IpcMessage::ClientHello, rest_to_daemon);
    lemma_encode_decode_roundtrip(IpcMessage::ServerHello, rest_to_greeter);
}

/// Whatever the daemon answers to a `ClientHello` completes the greeter's handshake, and
/// the daemon never answers a greeter with something that the greeter accepts unless the
/// greeter said `ClientHello`.
pub proof fn lemma_daemon_answer_accepted(req: Option<Result<IpcMessage, IpcError>>)
    ensures
        spec_response(req) matches Ok(Some(answer)) ==> {
            &&& req == Some(Ok::<IpcMessage, IpcError>(IpcMessage::ClientHello))
            &&& spec_handshake(Some(Ok(answer))) is Ok
        },
{
}

/// The handshake is completed by exactly one answer, a `ServerHello`, which is what the
/// daemon answers to a `ClientHello`: any other message, a closed connection or a read error
/// fails it.
pub proof fn lemma_handshake_accepts_only_server_hello(resp: Option<Result<IpcMessage, IpcError>>)
    ensures
        spec_handshake(resp) is Ok <==> (resp matches Some(Ok(m)) && m is ServerHello),
        spec_handshake(resp) is Ok <==> (resp matches Some(Ok(m)) && spec_response(
            Some(Ok(IpcMessage::ClientHello)),
        ) == Ok::<Option<IpcMessage>, IpcError>(Some(m))),
        resp matches Some(Ok(m)) && !(m is ServerHello) ==> spec_handshake(resp) matches Err(
            RdmGreeterError::FailedHandshake,
        ),
        resp is None ==> spec_handshake(resp) matches Err(RdmGreeterError::FailedHandshake),
{
}

} // verus!
