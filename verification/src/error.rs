//! Errors of the codec.

use vstd::prelude::*;

verus! {

/// What went wrong while bytes were turned into a message.
#[derive(Debug, Clone, PartialEq, Eq)]
pub enum Error {
    /// The transport frame could not be located; the text says what was found instead.
    Frame(String),
    /// The PDU ends before its last field.
    UnexpectedEof,
    /// The PDU holds fewer payload bytes than its byte count announces.
    TooShort,
    /// The function code is not that of a request.
    InvalidFunctionCode(u8),
    /// The value of a coil is neither on (`0xFF00`) nor off (`0x0000`).
    InvalidCoilValue(u16),
    /// The exception code is not assigned.
    InvalidExceptionCode(u8),
}

/// The two classes into which errors fall.
#[derive(Debug, Clone, Copy, PartialEq, Eq, Structural)]
pub enum ErrorKind {
    /// The bytes are there, but they are no message.
    InvalidData,
    /// Bytes are missing.
    UnexpectedEof,
}

impl Error {
    /// The class of an error: bytes are missing only for `UnexpectedEof`.
    pub open spec fn spec_kind(&self) -> ErrorKind {
        if *self is UnexpectedEof {
            ErrorKind::UnexpectedEof
        } else {
            ErrorKind::InvalidData
        }
    }

    /// Classifies the error.
    pub fn kind(&self) -> (kind: ErrorKind)
        ensures
            kind == self.spec_kind(),
    {
        match self {
            Error::UnexpectedEof => ErrorKind::UnexpectedEof,
            _ => ErrorKind::InvalidData,
        }
    }
}

} // verus!
