//! The closed set of errors of the server.

use vstd::prelude::*;

verus! {

/// Everything that can go wrong while a connection is served.
#[derive(Clone, Copy, Debug, PartialEq, Eq, Structural)]
pub enum ServerError {
    /// The frame header is malformed, or the frame is shorter than it declares.
    Framing,
    /// The function code is none of the eight that the server supports.
    UnsupportedFunction,
    /// The addressed range does not fit in the table.
    Range,
    /// The payload of a request contradicts itself or holds an illegal value.
    MalformedPayload,
    /// Reading from or writing to the connection failed.
    Io,
}

/// Exception code "illegal function".
pub const ILLEGAL_FUNCTION: u8 = 1;

/// Exception code "illegal data address".
pub const ILLEGAL_DATA_ADDRESS: u8 = 2;

/// Exception code "illegal data value".
pub const ILLEGAL_DATA_VALUE: u8 = 3;

impl ServerError {
    /// The exception code that answers this error, if the protocol can answer it.
    pub open spec fn code(self) -> Option<u8> {
        match self {
            ServerError::UnsupportedFunction => Some(ILLEGAL_FUNCTION),
            ServerError::Range => Some(ILLEGAL_DATA_ADDRESS),
            ServerError::MalformedPayload => Some(ILLEGAL_DATA_VALUE),
            ServerError::Framing => None,
            ServerError::Io => None,
        }
    }

    /// An error is fatal to its connection when no exception response can answer it.
    pub open spec fn fatal(self) -> bool {
        self.code() is None
    }

    /// The exception code sent to the client, or `None` for an error that closes
    /// the connection.
    pub fn exception_code(&self) -> (c: Option<u8>)
        ensures
            c == self.code(),
    {
        match self {
            ServerError::UnsupportedFunction => Some(ILLEGAL_FUNCTION),
            ServerError::Range => Some(ILLEGAL_DATA_ADDRESS),
            ServerError::MalformedPayload => Some(ILLEGAL_DATA_VALUE),
            ServerError::Framing => None,
            ServerError::Io => None,
        }
    }

    /// Whether the connection has to be closed on this error.
    pub fn is_fatal(&self) -> (b: bool)
        ensures
            b == self.fatal(),
            b <==> (*self == ServerError::Framing || *self == ServerError::Io),
    {
        match self {
            ServerError::Framing => true,
            ServerError::Io => true,
            _ => false,
        }
    }
}

} // verus!
