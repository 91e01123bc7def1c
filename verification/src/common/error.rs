//! Errors of the IPC layer.
use vstd::prelude::*;

verus! {

#[verifier::external_type_specification]
#[verifier::external_body]
pub struct ExIoError(std::io::Error);

/// Why a frame could not be read or written.
#[derive(Debug)]
pub enum IpcError {
    /// The underlying socket failed.
    IO(std::io::Error),
    /// Fewer bytes than a frame header were available.
    HeaderTooShort,
    /// The frame did not start with the magic bytes `1w`.
    WrongMagic,
    /// The frame's type tag is not one the decoder knows.
    UnknownMessageType,
    /// The body of an authentication request does not hold two length-prefixed UTF-8
    /// strings that fill it exactly.
    MalformedBody,
}

impl IpcError {
    /// The short description that the error reports for itself.
    pub fn description(&self) -> (s: &'static str)
        ensures
            s@ == "test"@,
    {
        "test"
    }

    /// The socket error underneath, if this is one.
    pub fn cause(&self) -> (c: Option<&std::io::Error>)
        ensures
            match self {
                IpcError::IO(e) => c == Some(e),
                _ => c is None,
            },
    {
        match self {
            IpcError::IO(e) => Some(e),
            _ => None,
        }
    }
}

impl From<std::io::Error> for IpcError {
    fn from(error: std::io::Error) -> (r: Self) {
        IpcError::IO(error)
    }
}

impl vstd::std_specs::convert::FromSpecImpl<std::io::Error> for IpcError {
    open spec fn obeys_from_spec() -> bool {
        true
    }

    open spec fn from_spec(error: std::io::Error) -> Self {
        IpcError::IO(error)
    }
}

} // verus!
