//! The reply that follows the attempt to reach the target.

use vstd::prelude::*;
use crate::endpoint::{append, encode, lemma_decode_encode, spec_decode, spec_encode, Endpoint};
use crate::error::{spec_error, Error, ErrorKind};
use crate::outcome::{refused, spec_accepted, spec_refused, Outcome, OutcomeView};
use crate::wire::{AddressType, ReplyCode, RESERVED, VERSION};

verus! {

/// The reply to a request that was served: version, `Succeeded`, the reserved
/// byte, then the address from which the proxy went out, with its type, its
/// bytes and its port, the high byte first.
pub open spec fn spec_success_reply(bound: Endpoint) -> Seq<u8> {
    seq![VERSION, ReplyCode::Succeeded.spec_code(), RESERVED, bound.spec_address_type().spec_code()]
        + spec_encode(bound)
}

/// What follows the attempt to reach the target, for either end of it.
pub open spec fn spec_remote_request(connected: Option<Endpoint>) -> OutcomeView<()> {
    match connected {
        Some(bound) => spec_accepted(spec_success_reply(bound), ()),
        None => spec_refused(ErrorKind::ConnectFailed),
    }
}

/// Answers the request once the attempt to reach the target is over.
/// `connected` is the local endpoint of the new outbound connection, or
/// nothing where the attempt failed.
///
/// - Connected: the stage succeeds and sends `[5, 0, 0]`, the address type of
///   the local endpoint (1 or 4), its address and its port, the high byte
///   first. This reply goes out before any relayed byte.
/// - Not connected: the stage fails with `ConnectFailed` and sends `[5, 5]`.
pub fn remote_request(connected: Option<Endpoint>) -> (outcome: Outcome<()>)
    ensures
        outcome@ == spec_remote_request(connected),
        connected is Some ==> outcome.result is Ok && outcome.reply@.len() == 4
            + connected.unwrap().spec_address_type().spec_wire_len(),
        connected is None ==> outcome.reply@ == seq![5u8, 5u8] && outcome.result == Err::<
            (),
            Error,
        >(spec_error(ErrorKind::ConnectFailed)),
{
    match connected {
        Some(bound) => {
            let mut reply: Vec<u8> = vec![
                VERSION,
                ReplyCode::Succeeded.code(),
                RESERVED,
                bound.address_type().code(),
            ];
            let address: Vec<u8> = encode(&bound);
            append(&mut reply, address.as_slice());
            Outcome { reply, result: Ok(()) }
        },
        None => refused(ErrorKind::ConnectFailed),
    }
}

/// The success reply names the local end of the outbound connection in the
/// form in which a request names its target: after `[5, 0, 0]` comes the byte
/// of its address type, and what follows decodes to that endpoint again, port
/// and all.
pub proof fn lemma_success_reply_names_bound(bound: Endpoint)
    ensures
        ({
            let reply = spec_success_reply(bound);
            let address_type = bound.spec_address_type();
            &&& reply.len() == 4 + address_type.spec_wire_len()
            &&& reply.subrange(0, 3) == seq![5u8, 0u8, 0u8]
            &&& AddressType::spec_from_code(reply[3]) == Some(address_type)
            &&& spec_decode(reply.subrange(4, reply.len() as int), address_type) == Ok::<
                Endpoint,
                Error,
            >(bound)
        }),
{
    let reply = spec_success_reply(bound);
    assert(reply.subrange(0, 3) =~= seq![5u8, 0u8, 0u8]);
    assert(reply.subrange(4, reply.len() as int) =~= spec_encode(bound) + Seq::<u8>::empty());
    lemma_decode_encode(bound, Seq::empty());
}

} // verus!
