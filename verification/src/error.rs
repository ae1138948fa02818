//! Errors of the library.

use vstd::prelude::*;
use vstd::std_specs::convert::FromSpecImpl;

verus! {

/// Why a [`crate::parse_buffer::ParseBuffer`] could not hand out what was asked.
#[derive(Debug, Clone, Copy, PartialEq, Eq, Structural)]
pub enum ParseError {
    /// Fewer bytes are left than were asked for.
    InsufficientBytes,
}

/// Why an operation on a connection failed.
#[derive(Debug, Clone, Copy, PartialEq, Eq, Structural)]
pub enum TlsError {
    /// The peer closed the connection.
    ConnectionClosed,
    /// The connection is not in a state that allows the operation, or a message
    /// came that has no place there.
    InternalError,
    /// The nonce of a session ticket is cut short.
    InvalidNonceLength,
    /// A session ticket is cut short.
    InvalidTicketLength,
    /// The length of an extension block is cut short.
    InvalidExtensionsLength,
    /// A field of a message is cut short.
    ParseError(ParseError),
    /// A cryptographic primitive refused its input.
    CryptoError,
    /// A message holds more than may be in it.
    DecodeError,
}

impl From<ParseError> for TlsError {
    fn from(error: ParseError) -> (r: TlsError) {
        TlsError::ParseError(error)
    }
}

impl FromSpecImpl<ParseError> for TlsError {
    open spec fn obeys_from_spec() -> bool {
        true
    }

    open spec fn from_spec(error: ParseError) -> TlsError {
        TlsError::ParseError(error)
    }
}

} // verus!
