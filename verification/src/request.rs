//! The request header: version, command, reserved byte and address type.

use vstd::prelude::*;
use crate::error::{spec_error, Error, ErrorKind};
use crate::outcome::{refused, spec_accepted, spec_refused, Outcome, OutcomeView};
use crate::wire::{AddressType, CONNECT, RESERVED, VERSION};

verus! {

/// How many bytes the header of a request takes.
pub const HEADER_LEN: usize = 4;

/// What the header check makes of the bytes read for it. The four fields are
/// tested in the order in which they stand, and the first that fails decides.
pub open spec fn spec_parse_request(header: Seq<u8>) -> OutcomeView<AddressType> {
    if header.len() < HEADER_LEN {
        spec_refused(ErrorKind::TruncatedInput)
    } else if header[0] != VERSION {
        spec_refused(ErrorKind::InvalidVersion)
    } else if header[1] != CONNECT {
        spec_refused(ErrorKind::UnsupportedCommand)
    } else if header[2] != RESERVED {
        spec_refused(ErrorKind::MalformedRequest)
    } else {
        match AddressType::spec_from_code(header[3]) {
            Some(address_type) => spec_accepted(Seq::empty(), address_type),
            None => spec_refused(ErrorKind::UnsupportedAddressType),
        }
    }
}

/// Checks the header of a request. `header` holds what a read of 4 bytes
/// gave: version, command, reserved byte, address type. Bytes after those
/// are not looked at.
///
/// - Fewer than 4 bytes: `TruncatedInput`, nothing is sent.
/// - A version other than 5: `InvalidVersion`, nothing is sent.
/// - A command other than 1: `UnsupportedCommand`, `[5, 7]` is sent.
/// - A reserved byte other than 0: `MalformedRequest`, `[5, 1]` is sent.
/// - An address type other than 1 and 4: `UnsupportedAddressType`, `[5, 8]`
///   is sent.
///
/// The first of these that applies decides. Otherwise the result is the kind
/// of address that follows the header, and nothing is sent yet.
pub fn parse_request(header: &[u8]) -> (outcome: Outcome<AddressType>)
    ensures
        outcome@ == spec_parse_request(header@),
        header@.len() >= 4 && header@[0] == 5 && header@[1] != 1 ==> outcome.reply@
            == seq![5u8, 7u8] && outcome.result == Err::<AddressType, Error>(
            spec_error(ErrorKind::UnsupportedCommand),
        ),
        header@.len() >= 4 && header@[0] == 5 && header@[1] == 1 && header@[2] != 0
            ==> outcome.reply@ == seq![5u8, 1u8] && outcome.result == Err::<AddressType, Error>(
            spec_error(ErrorKind::MalformedRequest),
        ),
        header@.len() >= 4 && header@[0] == 5 && header@[1] == 1 && header@[2] == 0 && header@[3]
            != 1 && header@[3] != 4 ==> outcome.reply@ == seq![5u8, 8u8] && outcome.result
            == Err::<AddressType, Error>(spec_error(ErrorKind::UnsupportedAddressType)),
        outcome.result is Ok <==> header@.len() >= 4 && header@[0] == 5 && header@[1] == 1
            && header@[2] == 0 && (header@[3] == 1 || header@[3] == 4),
        outcome.result is Ok ==> outcome.reply@.len() == 0,
{
    if header.len() < HEADER_LEN {
        return refused(ErrorKind::TruncatedInput);
    }
    if header[0] != VERSION {
        return refused(ErrorKind::InvalidVersion);
    }
    if header[1] != CONNECT {
        return refused(ErrorKind::UnsupportedCommand);
    }
    if header[2] != RESERVED {
        return refused(ErrorKind::MalformedRequest);
    }
    match AddressType::from_code(header[3]) {
        Some(address_type) => Outcome { reply: Vec::new(), result: Ok(address_type) },
        None => refused(ErrorKind::UnsupportedAddressType),
    }
}

} // verus!
