//! The failures that end a session, and the words they are reported in.

use vstd::prelude::*;
use crate::wire::ReplyCode;

verus! {

/// Every way in which a session can fail.
#[derive(Clone, Copy, Debug, PartialEq, Eq, Structural)]
pub enum ErrorKind {
    /// The first byte of the connection was not the protocol version.
    UnsupportedVersion,
    /// The client offered no method that this server accepts.
    NoAcceptableAuth,
    /// The request header did not start with the protocol version.
    InvalidVersion,
    /// The request asked for a command other than CONNECT.
    UnsupportedCommand,
    /// The reserved byte of the request was not zero.
    MalformedRequest,
    /// The request named an address type other than IPv4 or IPv6.
    UnsupportedAddressType,
    /// The stream ended before a message was complete.
    TruncatedInput,
    /// The outbound connection could not be opened.
    ConnectFailed,
    /// A read or a write failed while relaying.
    RelayError,
}

/// The families of failure, by what the client is told and how the session
/// goes on.
#[derive(Clone, Copy, Debug, PartialEq, Eq, Structural)]
pub enum ErrorClass {
    /// A message with an unsupported version, command, reserved byte or
    /// address type.
    ProtocolError,
    /// The peer closed in the middle of a message: no reply is possible.
    TruncatedInput,
    /// No usable method was offered: the client has been told so.
    NoAcceptableAuth,
    /// The target could not be reached: the client has been told so.
    ConnectFailed,
    /// A failure while relaying: the client only sees the connection close.
    RelayError,
}

impl ErrorKind {
    /// The family that this kind of failure belongs to.
    pub open spec fn spec_class(self) -> ErrorClass {
        match self {
            ErrorKind::UnsupportedVersion => ErrorClass::ProtocolError,
            ErrorKind::InvalidVersion => ErrorClass::ProtocolError,
            ErrorKind::UnsupportedCommand => ErrorClass::ProtocolError,
            ErrorKind::MalformedRequest => ErrorClass::ProtocolError,
            ErrorKind::UnsupportedAddressType => ErrorClass::ProtocolError,
            ErrorKind::TruncatedInput => ErrorClass::TruncatedInput,
            ErrorKind::NoAcceptableAuth => ErrorClass::NoAcceptableAuth,
            ErrorKind::ConnectFailed => ErrorClass::ConnectFailed,
            ErrorKind::RelayError => ErrorClass::RelayError,
        }
    }

    /// The family that this kind of failure belongs to.
    #[verifier::when_used_as_spec(spec_class)]
    pub fn class(self) -> (class: ErrorClass)
        ensures
            class == self.spec_class(),
    {
        match self {
            ErrorKind::UnsupportedVersion => ErrorClass::ProtocolError,
            ErrorKind::InvalidVersion => ErrorClass::ProtocolError,
            ErrorKind::UnsupportedCommand => ErrorClass::ProtocolError,
            ErrorKind::MalformedRequest => ErrorClass::ProtocolError,
            ErrorKind::UnsupportedAddressType => ErrorClass::ProtocolError,
            ErrorKind::TruncatedInput => ErrorClass::TruncatedInput,
            ErrorKind::NoAcceptableAuth => ErrorClass::NoAcceptableAuth,
            ErrorKind::ConnectFailed => ErrorClass::ConnectFailed,
            ErrorKind::RelayError => ErrorClass::RelayError,
        }
    }

    /// The reply code that tells the client of this failure, where the
    /// protocol has one for it.
    pub open spec fn spec_reply_code(self) -> Option<ReplyCode> {
        match self {
            ErrorKind::UnsupportedCommand => Some(ReplyCode::CommandNotSupported),
            ErrorKind::MalformedRequest => Some(ReplyCode::GeneralFailure),
            ErrorKind::UnsupportedAddressType => Some(ReplyCode::AddressTypeNotSupported),
            ErrorKind::ConnectFailed => Some(ReplyCode::HostUnreachable),
            _ => None,
        }
    }

    /// The reply code that tells the client of this failure, where the
    /// protocol has one for it: for a refused command, a reserved byte that
    /// is not zero, a refused address type and a target out of reach.
    #[verifier::when_used_as_spec(spec_reply_code)]
    pub fn reply_code(self) -> (code: Option<ReplyCode>)
        ensures
            code == self.spec_reply_code(),
    {
        match self {
            ErrorKind::UnsupportedCommand => Some(ReplyCode::CommandNotSupported),
            ErrorKind::MalformedRequest => Some(ReplyCode::GeneralFailure),
            ErrorKind::UnsupportedAddressType => Some(ReplyCode::AddressTypeNotSupported),
            ErrorKind::ConnectFailed => Some(ReplyCode::HostUnreachable),
            _ => None,
        }
    }
}

/// A failure together with its description.
#[derive(Clone, Copy, Debug, PartialEq, Eq)]
pub struct Error {
    pub kind: ErrorKind,
    pub message: &'static str,
}

/// The description that goes with each kind of failure.
pub open spec fn spec_message(kind: ErrorKind) -> &'static str {
    match kind {
        ErrorKind::UnsupportedVersion => "Invalid protocol version",
        ErrorKind::NoAcceptableAuth => "No acceptable authentication method sent",
        ErrorKind::InvalidVersion => "Request, invalid protocol version",
        ErrorKind::UnsupportedCommand => "Request, Invalid command",
        ErrorKind::MalformedRequest => "Request, Invalid reserved",
        ErrorKind::UnsupportedAddressType => "Request, address type not supported",
        ErrorKind::TruncatedInput => "Connection closed before the message was complete",
        ErrorKind::ConnectFailed => "Request, connection failed",
        ErrorKind::RelayError => "Relay, transfer failed",
    }
}

/// The error value of a given kind.
pub open spec fn spec_error(kind: ErrorKind) -> Error {
    Error { kind, message: spec_message(kind) }
}

/// Builds the error of the given kind, with its description.
pub fn error(kind: ErrorKind) -> (e: Error)
    ensures
        e == spec_error(kind),
{
    let message = match kind {
        ErrorKind::UnsupportedVersion => "Invalid protocol version",
        ErrorKind::NoAcceptableAuth => "No acceptable authentication method sent",
        ErrorKind::InvalidVersion => "Request, invalid protocol version",
        ErrorKind::UnsupportedCommand => "Request, Invalid command",
        ErrorKind::MalformedRequest => "Request, Invalid reserved",
        ErrorKind::UnsupportedAddressType => "Request, address type not supported",
        ErrorKind::TruncatedInput => "Connection closed before the message was complete",
        ErrorKind::ConnectFailed => "Request, connection failed",
        ErrorKind::RelayError => "Relay, transfer failed",
    };
    Error { kind, message }
}

} // verus!
