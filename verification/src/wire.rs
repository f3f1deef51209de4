//! The byte values that the protocol fixes: version, command, methods, reply
//! codes and address types.

use vstd::prelude::*;

verus! {

/// The protocol version that opens every message of either side.
pub const VERSION: u8 = 5;

/// The only command that is served: open a TCP connection.
pub const CONNECT: u8 = 1;

/// The value that the reserved byte of a request must hold.
pub const RESERVED: u8 = 0;

/// The only method that is accepted: no authentication.
pub const NO_AUTHENTICATION: u8 = 0;

/// The method byte that tells the client that none of its methods is accepted.
pub const NO_ACCEPTABLE_METHOD: u8 = 255;

/// The second byte of the reply to a request.
#[derive(Clone, Copy, Debug, PartialEq, Eq, Structural)]
pub enum ReplyCode {
    Succeeded,
    GeneralFailure,
    HostUnreachable,
    CommandNotSupported,
    AddressTypeNotSupported,
}

impl ReplyCode {
    /// The byte that stands for this code on the wire.
    pub open spec fn spec_code(self) -> u8 {
        match self {
            ReplyCode::Succeeded => 0,
            ReplyCode::GeneralFailure => 1,
            ReplyCode::HostUnreachable => 5,
            ReplyCode::CommandNotSupported => 7,
            ReplyCode::AddressTypeNotSupported => 8,
        }
    }

    /// The byte that stands for this code on the wire.
    #[verifier::when_used_as_spec(spec_code)]
    pub fn code(self) -> (byte: u8)
        ensures
            byte == self.spec_code(),
    {
        match self {
            ReplyCode::Succeeded => 0,
            ReplyCode::GeneralFailure => 1,
            ReplyCode::HostUnreachable => 5,
            ReplyCode::CommandNotSupported => 7,
            ReplyCode::AddressTypeNotSupported => 8,
        }
    }
}

/// The two kinds of address that a request or a reply can carry.
#[derive(Clone, Copy, Debug, PartialEq, Eq, Structural)]
pub enum AddressType {
    IPv4,
    IPv6,
}

impl AddressType {
    /// The byte that announces this kind of address.
    pub open spec fn spec_code(self) -> u8 {
        match self {
            AddressType::IPv4 => 1,
            AddressType::IPv6 => 4,
        }
    }

    /// The byte that announces this kind of address.
    #[verifier::when_used_as_spec(spec_code)]
    pub fn code(self) -> (byte: u8)
        ensures
            byte == self.spec_code(),
    {
        match self {
            AddressType::IPv4 => 1,
            AddressType::IPv6 => 4,
        }
    }

    /// The kind of address that a byte announces, if any.
    pub open spec fn spec_from_code(byte: u8) -> Option<AddressType> {
        if byte == 1 {
            Some(AddressType::IPv4)
        } else if byte == 4 {
            Some(AddressType::IPv6)
        } else {
            None
        }
    }

    /// The kind of address that a byte announces: IPv4 for 1, IPv6 for 4, none
    /// for any other byte.
    #[verifier::when_used_as_spec(spec_from_code)]
    pub fn from_code(byte: u8) -> (kind: Option<AddressType>)
        ensures
            kind == AddressType::spec_from_code(byte),
    {
        if byte == 1 {
            Some(AddressType::IPv4)
        } else if byte == 4 {
            Some(AddressType::IPv6)
        } else {
            None
        }
    }

    /// How many bytes an address of this kind takes with its port.
    pub open spec fn spec_wire_len(self) -> usize {
        match self {
            AddressType::IPv4 => 6,
            AddressType::IPv6 => 18,
        }
    }

    /// How many bytes an address of this kind takes with its port: 4 and 2, or
    /// 16 and 2.
    #[verifier::when_used_as_spec(spec_wire_len)]
    pub fn wire_len(self) -> (len: usize)
        ensures
            len == self.spec_wire_len(),
    {
        match self {
            AddressType::IPv4 => 6,
            AddressType::IPv6 => 18,
        }
    }
}

} // verus!
