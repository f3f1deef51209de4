//! One proxied connection from its first byte to its end, as a state machine:
//! it is told what happened, and says what is sent to the client and what is
//! done next.

use vstd::prelude::*;
use crate::connector::{remote_request, spec_remote_request, spec_success_reply};
use crate::endpoint::{decode, spec_decode, Endpoint};
use crate::error::{error, spec_error, Error, ErrorKind};
use crate::negotiator::{
    authentication_negotiation,
    connection_handshake,
    spec_authentication_negotiation,
    spec_connection_handshake,
    spec_offers,
};
use crate::outcome::{spec_last_reply, Outcome};
use crate::relay::{join, spec_ended_cleanly, spec_join, Pipe};
use crate::request::{parse_request, spec_parse_request, HEADER_LEN};
use crate::wire::AddressType;

verus! {

/// How far a session has come.
#[derive(Clone, Copy, Debug, PartialEq, Eq)]
pub enum Phase {
    /// Waiting for the version byte that opens the connection.
    AwaitingVersion,
    /// Waiting for the byte that counts the client's methods.
    AwaitingMethodCount,
    /// Waiting for the `count` methods of the client.
    AwaitingMethods { count: u8 },
    /// Waiting for the four bytes of the request header.
    AwaitingRequest,
    /// Waiting for the address and port that follow the header.
    AwaitingAddress { address_type: AddressType },
    /// Waiting for the outbound connection to `target` to open or fail.
    Connecting { target: Endpoint },
    /// Both sockets are live and the two directions of the relay run.
    Relaying,
    /// The session is over, with this result.
    Closed { result: Result<(), Error> },
}

/// What the session is told.
#[derive(Debug, PartialEq, Eq)]
pub enum Event {
    /// What a read of the number of bytes asked for gave: those bytes, or
    /// fewer where the stream ended first.
    Received(Vec<u8>),
    /// The outbound connection is open; its local end is this endpoint.
    Connected(Endpoint),
    /// The outbound connection could not be opened.
    ConnectFailed,
    /// Both loops of the relay have been waited for. `upstream` is the last
    /// state of the copy from the client to the target, `downstream` that of
    /// the copy from the target to the client; nothing stands for a loop
    /// that ended without handing in its state.
    RelayFinished { upstream: Option<Pipe>, downstream: Option<Pipe> },
}

/// An event with its bytes as a sequence.
pub enum EventView {
    Received(Seq<u8>),
    Connected(Endpoint),
    ConnectFailed,
    RelayFinished { upstream: Option<Pipe>, downstream: Option<Pipe> },
}

impl View for Event {
    type V = EventView;

    open spec fn view(&self) -> EventView {
        match *self {
            Event::Received(bytes) => EventView::Received(bytes@),
            Event::Connected(bound) => EventView::Connected(bound),
            Event::ConnectFailed => EventView::ConnectFailed,
            Event::RelayFinished { upstream, downstream } => EventView::RelayFinished {
                upstream,
                downstream,
            },
        }
    }
}

/// What is done once the reply has been sent.
#[derive(Clone, Copy, Debug, PartialEq, Eq)]
pub enum Next {
    /// Read this many bytes from the client and hand them in as `Received`.
    Read(usize),
    /// Open a TCP connection to this endpoint and hand in `Connected` or
    /// `ConnectFailed`.
    Connect(Endpoint),
    /// Run both directions of the relay to their end and hand in
    /// `RelayFinished`.
    Relay,
    /// Close every socket of the session: it is over.
    Close,
}

/// What the session asks for: `reply` is sent to the client in full, and only
/// then `next` is done.
#[derive(Debug, PartialEq, Eq)]
pub struct Action {
    pub reply: Vec<u8>,
    pub next: Next,
}

/// One proxied connection.
#[derive(Clone, Copy, Debug, PartialEq, Eq)]
pub struct Session {
    pub phase: Phase,
}

/// A step of the machine: the phase that follows, and what is sent on the way.
pub struct Step {
    pub phase: Phase,
    pub reply: Seq<u8>,
}

/// A step that sends nothing.
pub open spec fn spec_silent(phase: Phase) -> Step {
    Step { phase, reply: Seq::empty() }
}

/// The end of the session on a failure: `reply` is sent first.
pub open spec fn spec_failed(reply: Seq<u8>, error: Error) -> Step {
    Step { phase: Phase::Closed { result: Err(error) }, reply }
}

/// What a session in `phase` waits for.
pub open spec fn spec_pending(phase: Phase) -> Next {
    match phase {
        Phase::AwaitingVersion => Next::Read(1),
        Phase::AwaitingMethodCount => Next::Read(1),
        Phase::AwaitingMethods { count } => Next::Read(count as usize),
        Phase::AwaitingRequest => Next::Read(HEADER_LEN),
        Phase::AwaitingAddress { address_type } => Next::Read(address_type.spec_wire_len()),
        Phase::Connecting { target } => Next::Connect(target),
        Phase::Relaying => Next::Relay,
        Phase::Closed { .. } => Next::Close,
    }
}

/// The step that `event` makes a session in `phase` take.
///
/// Each phase is answered by one kind of event: the reading phases by
/// `Received`, `Connecting` by `Connected` or `ConnectFailed`, `Relaying` by
/// `RelayFinished`. Any other event changes nothing and sends nothing, and a
/// closed session stays as it is.
pub open spec fn spec_step(phase: Phase, event: EventView) -> Step {
    match (phase, event) {
        (Phase::AwaitingVersion, EventView::Received(bytes)) => {
            match spec_connection_handshake(bytes) {
                Ok(_) => spec_silent(Phase::AwaitingMethodCount),
                Err(error) => spec_failed(Seq::empty(), error),
            }
        },
        (Phase::AwaitingMethodCount, EventView::Received(bytes)) => {
            if bytes.len() < 1 {
                spec_failed(Seq::empty(), spec_error(ErrorKind::TruncatedInput))
            } else {
                spec_silent(Phase::AwaitingMethods { count: bytes[0] })
            }
        },
        (Phase::AwaitingMethods { count }, EventView::Received(bytes)) => {
            let outcome = spec_authentication_negotiation(count, bytes);
            match outcome.result {
                Ok(_) => Step { phase: Phase::AwaitingRequest, reply: outcome.reply },
                Err(error) => spec_failed(outcome.reply, error),
            }
        },
        (Phase::AwaitingRequest, EventView::Received(bytes)) => {
            let outcome = spec_parse_request(bytes);
            match outcome.result {
                Ok(address_type) => Step {
                    phase: Phase::AwaitingAddress { address_type },
                    reply: outcome.reply,
                },
                Err(error) => spec_failed(outcome.reply, error),
            }
        },
        (Phase::AwaitingAddress { address_type }, EventView::Received(bytes)) => {
            match spec_decode(bytes, address_type) {
                Ok(target) => spec_silent(Phase::Connecting { target }),
                Err(error) => spec_failed(Seq::empty(), error),
            }
        },
        (Phase::Connecting { .. }, EventView::Connected(bound)) => Step {
            phase: Phase::Relaying,
            reply: spec_remote_request(Some(bound)).reply,
        },
        (Phase::Connecting { .. }, EventView::ConnectFailed) => spec_failed(
            spec_remote_request(None).reply,
            spec_error(ErrorKind::ConnectFailed),
        ),
        (Phase::Relaying, EventView::RelayFinished { upstream, downstream }) => spec_silent(
            Phase::Closed { result: spec_join(upstream, downstream) },
        ),
        _ => spec_silent(phase),
    }
}

impl Session {
    /// A session at its start: nothing read yet.
    pub fn new() -> (session: Session)
        ensures
            session.phase == Phase::AwaitingVersion,
    {
        Session { phase: Phase::AwaitingVersion }
    }

    /// What the session waits for: the read, the connection attempt or the
    /// relay that its phase calls for, or the close once it is over.
    pub fn pending(&self) -> (next: Next)
        ensures
            next == spec_pending(self.phase),
    {
        match self.phase {
            Phase::AwaitingVersion => Next::Read(1),
            Phase::AwaitingMethodCount => Next::Read(1),
            Phase::AwaitingMethods { count } => Next::Read(count as usize),
            Phase::AwaitingRequest => Next::Read(HEADER_LEN),
            Phase::AwaitingAddress { address_type } => Next::Read(address_type.wire_len()),
            Phase::Connecting { target } => Next::Connect(target),
            Phase::Relaying => Next::Relay,
            Phase::Closed { .. } => Next::Close,
        }
    }

    /// How the session ended, once it is over.
    pub fn outcome(&self) -> (result: Option<Result<(), Error>>)
        ensures
            result == match self.phase {
                Phase::Closed { result } => Some(result),
                _ => None,
            },
    {
        match self.phase {
            Phase::Closed { result } => Some(result),
            _ => None,
        }
    }
}

/// The phase that follows a stage, and the reply of the stage with it.
fn after<T>(outcome: Outcome<T>, phase: Phase) -> (step: (Phase, Vec<u8>))
    ensures
        step.0 == match outcome.result {
            Ok(_) => phase,
            Err(error) => Phase::Closed { result: Err(error) },
        },
        step.1@ == outcome.reply@,
{
    match outcome.result {
        Ok(_) => (phase, outcome.reply),
        Err(error) => (Phase::Closed { result: Err(error) }, outcome.reply),
    }
}

/// Moves a session on by one event and says what to do: the bytes to send to
/// the client now, and what to do once they are sent.
///
/// - `AwaitingVersion`: a byte other than 5 closes the session with
///   `UnsupportedVersion` and sends nothing.
/// - `AwaitingMethodCount`, `AwaitingMethods`: a list with method 0 is
///   answered with `[5, 0]`; any other with `[5, 255]`, and the session
///   closes with `NoAcceptableAuth`.
/// - `AwaitingRequest`: the header is checked field by field; a refused
///   request is answered with its reply code and closes the session.
/// - `AwaitingAddress`: the target is read and the session asks for the
///   outbound connection.
/// - `Connecting`: a connection is answered with the success reply and the
///   relay starts; a failure is answered with `[5, 5]` and closes the session
///   with `ConnectFailed`.
/// - `Relaying`: the two directions are joined and the session closes,
///   cleanly where both ended cleanly, else with the first failure.
///
/// In every reading phase, fewer bytes than were asked for close the session
/// with `TruncatedInput` and send nothing.
pub fn handle_connection(session: &mut Session, event: Event) -> (action: Action)
    ensures
        final(session).phase == spec_step(old(session).phase, event@).phase,
        action.reply@ == spec_step(old(session).phase, event@).reply,
        action.next == spec_pending(final(session).phase),
{
    let step: (Phase, Vec<u8>) = match (session.phase, event) {
        (Phase::AwaitingVersion, Event::Received(bytes)) => {
            match connection_handshake(bytes.as_slice()) {
                Ok(_) => (Phase::AwaitingMethodCount, Vec::new()),
                Err(error) => (Phase::Closed { result: Err(error) }, Vec::new()),
            }
        },
        (Phase::AwaitingMethodCount, Event::Received(bytes)) => {
            if bytes.len() < 1 {
                (Phase::Closed { result: Err(error(ErrorKind::TruncatedInput)) }, Vec::new())
            } else {
                (Phase::AwaitingMethods { count: bytes[0] }, Vec::new())
            }
        },
        (Phase::AwaitingMethods { count }, Event::Received(bytes)) => {
            after(authentication_negotiation(count, bytes.as_slice()), Phase::AwaitingRequest)
        },
        (Phase::AwaitingRequest, Event::Received(bytes)) => {
            let outcome: Outcome<AddressType> = parse_request(bytes.as_slice());
            match outcome.result {
                Ok(address_type) => (Phase::AwaitingAddress { address_type }, outcome.reply),
                Err(error) => (Phase::Closed { result: Err(error) }, outcome.reply),
            }
        },
        (Phase::AwaitingAddress { address_type }, Event::Received(bytes)) => {
            match decode(bytes.as_slice(), address_type) {
                Ok(target) => (Phase::Connecting { target }, Vec::new()),
                Err(error) => (Phase::Closed { result: Err(error) }, Vec::new()),
            }
        },
        (Phase::Connecting { .. }, Event::Connected(bound)) => {
            after(remote_request(Some(bound)), Phase::Relaying)
        },
        (Phase::Connecting { .. }, Event::ConnectFailed) => {
            after(remote_request(None), Phase::Relaying)
        },
        (Phase::Relaying, Event::RelayFinished { upstream, downstream }) => {
            (Phase::Closed { result: join(upstream, downstream) }, Vec::new())
        },
        (phase, _) => (phase, Vec::new()),
    };
    session.phase = step.0;
    Action { reply: step.1, next: session.pending() }
}

/// The phase of a session after a run of events, taken one after the other.
pub open spec fn spec_run(phase: Phase, events: Seq<EventView>) -> Phase
    decreases events.len(),
{
    if events.len() == 0 {
        phase
    } else {
        spec_step(spec_run(phase, events.drop_last()), events.last()).phase
    }
}

/// All that a session sends to the client over a run of events, in order.
pub open spec fn spec_sent(phase: Phase, events: Seq<EventView>) -> Seq<u8>
    decreases events.len(),
{
    if events.len() == 0 {
        Seq::empty()
    } else {
        spec_sent(phase, events.drop_last()) + spec_step(
            spec_run(phase, events.drop_last()),
            events.last(),
        ).reply
    }
}

/// The place of a phase in the order of a session.
pub open spec fn spec_rank(phase: Phase) -> nat {
    match phase {
        Phase::AwaitingVersion => 0,
        Phase::AwaitingMethodCount => 1,
        Phase::AwaitingMethods { .. } => 2,
        Phase::AwaitingRequest => 3,
        Phase::AwaitingAddress { .. } => 4,
        Phase::Connecting { .. } => 5,
        Phase::Relaying => 6,
        Phase::Closed { .. } => 7,
    }
}

/// A closed session stays closed with the result it has, sends nothing more
/// and asks for nothing but the close, whatever it is told and however often.
pub proof fn lemma_closed_is_final(result: Result<(), Error>, events: Seq<EventView>)
    ensures
        spec_run(Phase::Closed { result }, events) == (Phase::Closed { result }),
        spec_sent(Phase::Closed { result }, events) == Seq::<u8>::empty(),
        spec_pending(spec_run(Phase::Closed { result }, events)) == Next::Close,
    decreases events.len(),
{
    if events.len() > 0 {
        lemma_closed_is_final(result, events.drop_last());
    }
}

/// The stages follow one another in a fixed order: a step leaves the phase as
/// it is, moves it to the next one, or closes the session. No stage is
/// skipped and none comes again.
pub proof fn lemma_phases_in_order(phase: Phase, event: EventView)
    ensures
        ({
            let next = spec_step(phase, event).phase;
            ||| next == phase
            ||| spec_rank(next) == spec_rank(phase) + 1
            ||| next is Closed
        }),
{
}

/// A session never goes back: at every point of a run, it had come no
/// further than it has come at the end of the run.
pub proof fn lemma_run_in_order(phase: Phase, events: Seq<EventView>, i: int)
    requires
        0 <= i <= events.len(),
    ensures
        spec_rank(spec_run(phase, events.take(i))) <= spec_rank(spec_run(phase, events)),
    decreases events.len(),
{
    if i == events.len() {
        assert(events.take(i) =~= events);
    } else {
        let earlier = events.drop_last();
        assert(events.take(i) =~= earlier.take(i));
        lemma_run_in_order(phase, earlier, i);
        lemma_phases_in_order(spec_run(phase, earlier), events.last());
    }
}

/// A session that still waits for bytes of the client has asked for nothing
/// but such bytes so far: no outbound connection was attempted and no relay
/// was started at any point before.
pub proof fn lemma_only_reads_while_reading(events: Seq<EventView>, i: int)
    requires
        0 <= i <= events.len(),
        spec_pending(spec_run(Phase::AwaitingVersion, events)) is Read,
    ensures
        spec_pending(spec_run(Phase::AwaitingVersion, events.take(i))) is Read,
{
    lemma_run_in_order(Phase::AwaitingVersion, events, i);
}

/// A connection that opens with a byte other than 5 is closed with
/// `UnsupportedVersion`, and nothing is sent to the client then or later.
pub proof fn lemma_wrong_version(bytes: Seq<u8>, events: Seq<EventView>)
    requires
        bytes.len() >= 1,
        bytes[0] != 5,
    ensures
        ({
            let step = spec_step(Phase::AwaitingVersion, EventView::Received(bytes));
            &&& step.phase == Phase::Closed {
                result: Err(spec_error(ErrorKind::UnsupportedVersion)),
            }
            &&& step.reply == Seq::<u8>::empty()
            &&& spec_sent(step.phase, events) == Seq::<u8>::empty()
            &&& spec_pending(spec_run(step.phase, events)) == Next::Close
        }),
{
    lemma_closed_is_final(Err(spec_error(ErrorKind::UnsupportedVersion)), events);
}

/// A complete method list that holds method 0 is answered with exactly
/// `[5, 0]` and the session goes on to the request; one that does not is
/// answered with exactly `[5, 255]` and the session closes with
/// `NoAcceptableAuth`.
pub proof fn lemma_method_selection(count: u8, bytes: Seq<u8>)
    requires
        bytes.len() >= count,
    ensures
        ({
            let step = spec_step(Phase::AwaitingMethods { count }, EventView::Received(bytes));
            if spec_offers(count, bytes, 0) {
                step.phase == Phase::AwaitingRequest && step.reply == seq![5u8, 0u8]
            } else {
                step.phase == Phase::Closed {
                    result: Err(spec_error(ErrorKind::NoAcceptableAuth)),
                } && step.reply == seq![5u8, 255u8]
            }
        }),
{
}

/// A request with the right version and a command other than CONNECT is
/// answered with exactly `[5, 7]`. The session is closed by it, and whatever
/// it is told afterwards, it sends nothing more and never asks for an
/// outbound connection.
pub proof fn lemma_command_refused(header: Seq<u8>, events: Seq<EventView>)
    requires
        header.len() >= 4,
        header[0] == 5,
        header[1] != 1,
    ensures
        ({
            let step = spec_step(Phase::AwaitingRequest, EventView::Received(header));
            &&& step.reply == seq![5u8, 7u8]
            &&& step.phase == Phase::Closed {
                result: Err(spec_error(ErrorKind::UnsupportedCommand)),
            }
            &&& spec_pending(step.phase) == Next::Close
            &&& spec_pending(spec_run(step.phase, events)) == Next::Close
            &&& spec_sent(step.phase, events) == Seq::<u8>::empty()
        }),
{
    lemma_closed_is_final(Err(spec_error(ErrorKind::UnsupportedCommand)), events);
}

/// A CONNECT request with the right version and a reserved byte other than
/// zero is answered with exactly `[5, 1]` and closes the session with
/// `MalformedRequest`.
pub proof fn lemma_reserved_refused(header: Seq<u8>)
    requires
        header.len() >= 4,
        header[0] == 5,
        header[1] == 1,
        header[2] != 0,
    ensures
        ({
            let step = spec_step(Phase::AwaitingRequest, EventView::Received(header));
            &&& step.reply == seq![5u8, 1u8]
            &&& step.phase == Phase::Closed {
                result: Err(spec_error(ErrorKind::MalformedRequest)),
            }
        }),
{
}

/// A CONNECT request with the right version, a zero reserved byte and an
/// address type other than 1 and 4 is answered with exactly `[5, 8]` and
/// closes the session with `UnsupportedAddressType`.
pub proof fn lemma_address_type_refused(header: Seq<u8>)
    requires
        header.len() >= 4,
        header[0] == 5,
        header[1] == 1,
        header[2] == 0,
        header[3] != 1,
        header[3] != 4,
    ensures
        ({
            let step = spec_step(Phase::AwaitingRequest, EventView::Received(header));
            &&& step.reply == seq![5u8, 8u8]
            &&& step.phase == Phase::Closed {
                result: Err(spec_error(ErrorKind::UnsupportedAddressType)),
            }
        }),
{
}

/// An outbound connection is asked for only once a request has passed every
/// check, and only to the endpoint that the request named.
pub proof fn lemma_connect_needs_request(phase: Phase, event: EventView)
    requires
        spec_step(phase, event).phase is Connecting,
        !(phase is Connecting),
    ensures
        phase is AwaitingAddress,
        event is Received,
        spec_decode(event->Received_0, phase->address_type) == Ok::<Endpoint, Error>(
            spec_step(phase, event).phase->target,
        ),
{
}

/// The relay starts only from an open outbound connection: a session enters
/// `Relaying` only from `Connecting`, on `Connected`, and the success reply
/// is what it sends on the way.
pub proof fn lemma_relay_needs_connection(phase: Phase, event: EventView)
    requires
        spec_step(phase, event).phase is Relaying,
        !(phase is Relaying),
    ensures
        phase is Connecting,
        event is Connected,
        spec_step(phase, event).reply == spec_remote_request(Some(event->Connected_0)).reply,
{
}

/// A session ends cleanly only at the end of a relay of which both directions
/// ran to the end of their source; on any other path it ends with a failure.
pub proof fn lemma_clean_end_needs_both_directions(phase: Phase, event: EventView)
    requires
        !(phase is Closed),
        spec_step(phase, event).phase is Closed,
        spec_step(phase, event).phase->result is Ok,
    ensures
        phase is Relaying,
        event is RelayFinished,
        spec_ended_cleanly(event->upstream),
        spec_ended_cleanly(event->downstream),
{
}

/// Once the relay runs, the session sends nothing to the client itself:
/// every reply has gone out before the first relayed byte.
pub proof fn lemma_no_reply_after_relay_start(phase: Phase, event: EventView)
    requires
        phase is Relaying || phase is Closed,
    ensures
        spec_step(phase, event).reply == Seq::<u8>::empty(),
{
}

/// Every failure before the relay is told to the client as its kind asks:
/// a step that closes the session with a failure of its own sends exactly
/// the reply that belongs to the kind of the failure, and the failure comes
/// with the description of its kind.
pub proof fn lemma_failure_is_reported(phase: Phase, event: EventView)
    requires
        !(phase is Closed),
        !(phase is Relaying),
        spec_step(phase, event).phase is Closed,
    ensures
        ({
            let step = spec_step(phase, event);
            &&& step.phase->result is Err
            &&& step.phase->result == Err::<(), Error>(
                spec_error(step.phase->result->Err_0.kind),
            )
            &&& step.reply == spec_last_reply(step.phase->result->Err_0.kind)
        }),
{
}

/// Whether `sent` is what the client of a relayed session has been sent: the
/// method reply `[5, 0]`, then the success reply with the local end of some
/// outbound connection.
pub open spec fn spec_sent_for_relay(sent: Seq<u8>) -> bool {
    exists|bound: Endpoint| sent == seq![5u8, 0u8] + #[trigger] spec_success_reply(bound)
}

/// Whether `sent` is all that the client can have been sent by a session that
/// began at its start and is now in `phase`.
///
/// - Up to the method list: nothing.
/// - From the request to the connection attempt: the method reply `[5, 0]`.
/// - In the relay, and closed after it: `[5, 0]`, then the success reply.
/// - Closed on a failure before the relay: what the kind of the failure says.
///   Nothing for `UnsupportedVersion`; `[5, 255]` for `NoAcceptableAuth`;
///   `[5, 0]` for `InvalidVersion`; `[5, 0]` and then `[5, 7]`, `[5, 1]`,
///   `[5, 8]` or `[5, 5]` for a refused command, reserved byte or address
///   type and for a target out of reach; nothing or `[5, 0]` for
///   `TruncatedInput`, by where the stream ended.
pub open spec fn spec_transcript_fits(phase: Phase, sent: Seq<u8>) -> bool {
    match phase {
        Phase::AwaitingVersion
        | Phase::AwaitingMethodCount
        | Phase::AwaitingMethods { .. } => sent == Seq::<u8>::empty(),
        Phase::AwaitingRequest
        | Phase::AwaitingAddress { .. }
        | Phase::Connecting { .. } => sent == seq![5u8, 0u8],
        Phase::Relaying => spec_sent_for_relay(sent),
        Phase::Closed { result } => spec_sent_for_relay(sent) || match result {
            Ok(_) => false,
            Err(error) => error == spec_error(error.kind) && match error.kind {
                ErrorKind::UnsupportedVersion => sent == Seq::<u8>::empty(),
                ErrorKind::TruncatedInput => sent == Seq::<u8>::empty() || sent == seq![5u8, 0u8],
                ErrorKind::NoAcceptableAuth => sent == seq![5u8, 255u8],
                ErrorKind::InvalidVersion => sent == seq![5u8, 0u8],
                ErrorKind::UnsupportedCommand => sent == seq![5u8, 0u8, 5u8, 7u8],
                ErrorKind::MalformedRequest => sent == seq![5u8, 0u8, 5u8, 1u8],
                ErrorKind::UnsupportedAddressType => sent == seq![5u8, 0u8, 5u8, 8u8],
                ErrorKind::ConnectFailed => sent == seq![5u8, 0u8, 5u8, 5u8],
                ErrorKind::RelayError => false,
            },
        },
    }
}

/// Whatever a session is told from its start on, and in whatever order, all
/// that it has sent to the client is what its phase allows: one method reply
/// at most, then one reply to the request at most, and nothing else ever.
pub proof fn lemma_transcript(events: Seq<EventView>)
    ensures
        spec_transcript_fits(
            spec_run(Phase::AwaitingVersion, events),
            spec_sent(Phase::AwaitingVersion, events),
        ),
    decreases events.len(),
{
    if events.len() > 0 {
        let earlier = events.drop_last();
        lemma_transcript(earlier);
        let phase = spec_run(Phase::AwaitingVersion, earlier);
        let sent = spec_sent(Phase::AwaitingVersion, earlier);
        let step = spec_step(phase, events.last());
        let all = sent + step.reply;
        assert(all == spec_sent(Phase::AwaitingVersion, events));
        match phase {
            Phase::AwaitingVersion | Phase::AwaitingMethodCount => {
                assert(all =~= Seq::<u8>::empty());
            },
            Phase::AwaitingMethods { .. } => {
                assert(all =~= step.reply);
            },
            Phase::AwaitingRequest => {
                assert(all =~= seq![5u8, 0u8] + step.reply);
                assert(step.reply.len() == 0 ==> all =~= seq![5u8, 0u8]);
                assert(step.reply == seq![5u8, 7u8] ==> all =~= seq![5u8, 0u8, 5u8, 7u8]);
                assert(step.reply == seq![5u8, 1u8] ==> all =~= seq![5u8, 0u8, 5u8, 1u8]);
                assert(step.reply == seq![5u8, 8u8] ==> all =~= seq![5u8, 0u8, 5u8, 8u8]);
            },
            Phase::AwaitingAddress { .. } => {
                assert(all =~= seq![5u8, 0u8]);
            },
            Phase::Connecting { .. } => {
                match events.last() {
                    EventView::Connected(bound) => {
                        assert(all == seq![5u8, 0u8] + spec_success_reply(bound));
                    },
                    EventView::ConnectFailed => {
                        assert(all =~= seq![5u8, 0u8, 5u8, 5u8]);
                    },
                    _ => {
                        assert(all =~= seq![5u8, 0u8]);
                    },
                }
            },
            Phase::Relaying | Phase::Closed { .. } => {
                assert(all =~= sent);
            },
        }
    }
}

} // verus!
