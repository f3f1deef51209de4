//! The opening of a connection: the version byte, then the choice of an
//! authentication method.

use vstd::prelude::*;
use crate::error::{error, spec_error, Error, ErrorKind};
use crate::outcome::{refused, spec_accepted, spec_refused, Outcome, OutcomeView};
use crate::wire::{NO_AUTHENTICATION, VERSION};

verus! {

/// What the version check makes of the bytes read for it.
pub open spec fn spec_connection_handshake(bytes: Seq<u8>) -> Result<(), Error> {
    if bytes.len() < 1 {
        Err(spec_error(ErrorKind::TruncatedInput))
    } else if bytes[0] != VERSION {
        Err(spec_error(ErrorKind::UnsupportedVersion))
    } else {
        Ok(())
    }
}

/// Checks the first byte of a connection. `bytes` holds what a read of one
/// byte gave: nothing where the stream had ended, which is `TruncatedInput`.
/// A byte other than 5 is `UnsupportedVersion`. Nothing is ever sent back at
/// this stage.
pub fn connection_handshake(bytes: &[u8]) -> (result: Result<(), Error>)
    ensures
        result == spec_connection_handshake(bytes@),
{
    if bytes.len() < 1 {
        Err(error(ErrorKind::TruncatedInput))
    } else if bytes[0] != VERSION {
        Err(error(ErrorKind::UnsupportedVersion))
    } else {
        Ok(())
    }
}

/// Whether `method` is among the methods that a client offers: the first
/// `count` bytes of what was read.
pub open spec fn spec_offers(count: u8, methods: Seq<u8>, method: u8) -> bool {
    exists|i: int| 0 <= i < count && #[trigger] methods[i] == method
}

/// What the method negotiation makes of the bytes read for it.
pub open spec fn spec_authentication_negotiation(count: u8, methods: Seq<u8>) -> OutcomeView<()> {
    if methods.len() < count {
        spec_refused(ErrorKind::TruncatedInput)
    } else if spec_offers(count, methods, NO_AUTHENTICATION) {
        spec_accepted(seq![VERSION, NO_AUTHENTICATION], ())
    } else {
        spec_refused(ErrorKind::NoAcceptableAuth)
    }
}

/// Chooses the authentication method. `count` is the method count that the
/// client sent and `methods` what a read of `count` bytes gave. Where the
/// stream ended before the list was complete, the stage fails with
/// `TruncatedInput` and sends nothing. Where the list holds method 0, it
/// succeeds and sends `[5, 0]`. Otherwise it fails with `NoAcceptableAuth` and
/// sends `[5, 255]`.
pub fn authentication_negotiation(count: u8, methods: &[u8]) -> (outcome: Outcome<()>)
    ensures
        outcome@ == spec_authentication_negotiation(count, methods@),
        methods@.len() >= count && spec_offers(count, methods@, 0) ==> outcome.result is Ok
            && outcome.reply@ == seq![5u8, 0u8],
        methods@.len() >= count && !spec_offers(count, methods@, 0) ==> outcome.result == Err::<
            (),
            Error,
        >(spec_error(ErrorKind::NoAcceptableAuth)) && outcome.reply@ == seq![5u8, 255u8],
        methods@.len() < count ==> outcome.result == Err::<(), Error>(
            spec_error(ErrorKind::TruncatedInput),
        ) && outcome.reply@.len() == 0,
{
    if methods.len() < count as usize {
        return refused(ErrorKind::TruncatedInput);
    }
    let mut i: usize = 0;
    while i < count as usize
        invariant
            i <= count <= methods@.len(),
            forall|j: int| 0 <= j < i ==> methods@[j] != NO_AUTHENTICATION,
        decreases count - i,
    {
        if methods[i] == NO_AUTHENTICATION {
            return Outcome { reply: vec![VERSION, NO_AUTHENTICATION], result: Ok(()) };
        }
        i += 1;
    }
    refused(ErrorKind::NoAcceptableAuth)
}

} // verus!
