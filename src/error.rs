//! Failure kinds of the framing layer and of a command/response exchange.
use vstd::prelude::*;

use crate::response::Response;

verus! {

/// Why bytes do not decode. Every error that framing reports is fatal to
/// the connection: more bytes cannot mend it. A record parser used on its
/// own also reports `Truncated` for a record that has not fully arrived.
#[derive(Debug, Clone, Copy, PartialEq, Eq, Structural)]
pub enum DecodeError {
    /// The byte after the status digit is not a carriage return.
    MissingStatusTerminator,
    /// The status digit is none of `0`, `1`, `2`, `5`.
    UnknownStatus(u8),
    /// A success status arrived while no command was outstanding.
    NoCommandOutstanding,
    /// A binary record does not start with the `#0` marker.
    BadMarker,
    /// A binary record is shorter than its header, reading count and name
    /// demand.
    Truncated,
    /// A text payload is not valid UTF-8.
    InvalidUtf8,
    /// A number field is not a decimal integer in range.
    InvalidNumber,
    /// The identification line does not hold exactly three fields.
    InvalidIdent,
    /// The memory statistics line does not hold exactly four counts.
    InvalidMemoryStat,
    /// A map table's leading count differs from the number of its entries.
    MapCountMismatch,
    /// A setting came back with a value that has no meaning here.
    UnknownSetting,
}

/// A code that a value map cannot translate: the device's firmware broke
/// its own contract.
#[derive(Debug, Clone, Copy, PartialEq, Eq, Structural)]
pub enum TranslateError {
    /// The value map has no entry for the code.
    UnknownCode(u16),
    /// The value map names the code with a name that has no meaning here.
    UnknownName(u16),
}

/// Why an operation of the session failed.
#[derive(Debug, Clone)]
pub enum ProtoError {
    /// The inbound bytes can never form a frame.
    Decode(DecodeError),
    /// The device did not recognise the command.
    SyntaxError,
    /// The device understood the command but refused to carry it out.
    ExecutionError,
    /// The byte stream ended while a response was still expected.
    Abort,
    /// The response does not fit the command that was sent.
    Unexpected(Box<Response>),
    /// A command was issued while another one still awaits its response.
    Busy,
}

/// The failure that a response stands for when it is not the one the
/// command expects: the device's own rejections keep their kind, anything
/// else is unexpected.
pub open spec fn error_of(resp: Response) -> ProtoError {
    match resp {
        Response::SyntaxError => ProtoError::SyntaxError,
        Response::ExecutionError => ProtoError::ExecutionError,
        _ => ProtoError::Unexpected(Box::new(resp)),
    }
}

impl ProtoError {
    /// The failure that `resp` stands for, for a command that expected
    /// another response.
    pub fn from_response(resp: Response) -> (r: ProtoError)
        ensures
            r == error_of(resp),
    {
        match resp {
            Response::SyntaxError => ProtoError::SyntaxError,
            Response::ExecutionError => ProtoError::ExecutionError,
            _ => ProtoError::Unexpected(Box::new(resp)),
        }
    }
}

} // verus!
