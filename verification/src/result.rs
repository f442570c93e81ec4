//! Common `Result` and error types.
//!
//! The crate distinguishes between two broad categories of failure:
//! - [`ParseError`]: the input bytes are incomplete or structurally inconsistent (e.g. truncated
//!   header, declared length mismatch, missing payload fields).
//! - [`ProtocolError`]: the bytes are well-formed enough to parse, but represent an unsupported
//!   or invalid protocol value (e.g. unsupported PTP version, unknown message type nibble, invalid
//!   timestamp encoding) or an integration-level mismatch (e.g. an incoming domain number is not
//!   configured locally).
use vstd::prelude::*;

verus! {

/// Crate-wide `Result` type using [`Error`] as the error variant.
pub type Result<T> = core::result::Result<T, Error>;

/// Top-level error type for fallible operations.
#[derive(Debug, PartialEq, Eq)]
pub enum Error {
    /// The input bytes could not be parsed into a valid PTP message/field.
    Parse(ParseError),
    /// The input was parsed but rejected as unsupported or invalid.
    Protocol(ProtocolError),
}

/// Errors caused by malformed or incomplete input buffers.
#[derive(Debug, PartialEq, Eq)]
pub enum ParseError {
    /// Not enough bytes were provided to even read the common PTP header.
    HeaderTooShort {
        /// The number of bytes available.
        found: usize,
    },
    /// The header's declared message length does not match the received buffer length.
    LengthMismatch {
        /// The length declared in the message header.
        declared: usize,
        /// The number of bytes actually available.
        actual: usize,
    },
    /// The payload did not contain enough bytes to read a required field.
    PayloadTooShort {
        /// A human-readable field name.
        field: &'static str,
        /// The required size for the field.
        expected: usize,
        /// The number of bytes available in the payload slice.
        found: usize,
    },
}

/// Errors caused by unsupported or semantically invalid protocol values.
#[derive(Debug, PartialEq, Eq)]
pub enum ProtocolError {
    /// The PTP version field in the header is not supported.
    UnsupportedPtpVersion(u8),
    /// The incoming message's domain number does not match any configured local domain.
    DomainNotFound(u8),
    /// A wire timestamp field uses a nanosecond value outside `[0, 1_000_000_000)`.
    InvalidTimestamp { nanos: u32 },
    /// The message type nibble in the header does not map to a known message class.
    UnknownMessageType(u8),
}

impl From<ParseError> for Error {
    fn from(err: ParseError) -> (e: Error) {
        Error::Parse(err)
    }
}

impl vstd::std_specs::convert::FromSpecImpl<ParseError> for Error {
    open spec fn obeys_from_spec() -> bool {
        true
    }

    open spec fn from_spec(err: ParseError) -> Error {
        Error::Parse(err)
    }
}

impl From<ProtocolError> for Error {
    fn from(err: ProtocolError) -> (e: Error) {
        Error::Protocol(err)
    }
}

impl vstd::std_specs::convert::FromSpecImpl<ProtocolError> for Error {
    open spec fn obeys_from_spec() -> bool {
        true
    }

    open spec fn from_spec(err: ProtocolError) -> Error {
        Error::Protocol(err)
    }
}

} // verus!
