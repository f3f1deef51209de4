//! What one stage of the protocol hands back: the bytes to send to the client,
//! and how the stage ended.

use vstd::prelude::*;
use crate::error::{error, spec_error, Error, ErrorKind};
use crate::wire::{NO_ACCEPTABLE_METHOD, VERSION};

verus! {

/// The end of one stage: `reply` is written to the client in full, then
/// `result` decides whether the session goes on.
#[derive(Debug, PartialEq, Eq)]
pub struct Outcome<T> {
    /// The bytes that the client is sent, possibly none.
    pub reply: Vec<u8>,
    /// What the stage found, or why the session ends here.
    pub result: Result<T, Error>,
}

/// An outcome with its reply as a sequence.
pub struct OutcomeView<T> {
    pub reply: Seq<u8>,
    pub result: Result<T, Error>,
}

impl<T> View for Outcome<T> {
    type V = OutcomeView<T>;

    open spec fn view(&self) -> OutcomeView<T> {
        OutcomeView { reply: self.reply@, result: self.result }
    }
}

/// The bytes that tell the client of a failure before the session closes:
/// the version and the reply code where the failure has one, the version and
/// 255 where no method was acceptable, and nothing otherwise.
pub open spec fn spec_last_reply(kind: ErrorKind) -> Seq<u8> {
    match kind.spec_reply_code() {
        Some(code) => seq![VERSION, code.spec_code()],
        None => if kind == ErrorKind::NoAcceptableAuth {
            seq![VERSION, NO_ACCEPTABLE_METHOD]
        } else {
            Seq::empty()
        },
    }
}

/// The failure of a stage: the client is told as the kind of the failure
/// asks, and the session ends with the error of that kind.
pub open spec fn spec_refused<T>(kind: ErrorKind) -> OutcomeView<T> {
    OutcomeView { reply: spec_last_reply(kind), result: Err(spec_error(kind)) }
}

/// The success of a stage that found `value` and sends `reply`.
pub open spec fn spec_accepted<T>(reply: Seq<u8>, value: T) -> OutcomeView<T> {
    OutcomeView { reply, result: Ok(value) }
}

/// Ends a stage with a failure of the given kind. The reply is `[5, code]`
/// where the kind has a reply code, `[5, 255]` for `NoAcceptableAuth`, and
/// empty for every other kind.
pub fn refused<T>(kind: ErrorKind) -> (outcome: Outcome<T>)
    ensures
        outcome@ == spec_refused::<T>(kind),
{
    let reply: Vec<u8> = match kind.reply_code() {
        Some(code) => vec![VERSION, code.code()],
        None => match kind {
            ErrorKind::NoAcceptableAuth => vec![VERSION, NO_ACCEPTABLE_METHOD],
            _ => Vec::new(),
        },
    };
    Outcome { reply, result: Err(error(kind)) }
}

} // verus!
