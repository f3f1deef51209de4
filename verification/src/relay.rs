//! The relay: the decisions of one copy loop, and how two of them end a
//! session.

use vstd::prelude::*;
use crate::error::{error, spec_error, Error, ErrorKind};

verus! {

/// The size of the buffer that one direction reads into.
pub const BUFFER_SIZE: usize = 16384;

/// Where one direction of the relay stands.
#[derive(Clone, Copy, Debug, PartialEq, Eq)]
pub enum Pipe {
    /// The buffer is empty and the source is to be read.
    Reading,
    /// The first `len` bytes of the buffer are to be written to the
    /// destination, all of them, before anything more is read.
    Writing { len: usize },
    /// The direction has ended, at the end of the source or on a failure.
    Finished { result: Result<(), Error> },
}

/// What the loop saw after doing what it was asked.
#[derive(Clone, Copy, Debug, PartialEq, Eq, Structural)]
pub enum PipeEvent {
    /// A read gave this many bytes; none at the end of the source.
    Read(usize),
    /// A read failed.
    ReadFailed,
    /// All of the bytes asked for were written.
    Written,
    /// A write failed before all of the bytes were written.
    WriteFailed,
}

/// What the loop is asked to do next.
#[derive(Clone, Copy, Debug, PartialEq, Eq, Structural)]
pub enum PipeAction {
    /// Read from the source into the buffer, up to `BUFFER_SIZE` bytes.
    Read,
    /// Write the first `len` bytes of the buffer to the destination, in full.
    Write { len: usize },
    /// Shut down the write direction of the destination, whatever comes of
    /// it, and leave the loop.
    HalfClose,
    /// Leave the loop: nothing is left to do.
    Stop,
}

impl Pipe {
    /// What a direction in this state waits for.
    pub open spec fn spec_pending(&self) -> PipeAction {
        match *self {
            Pipe::Reading => PipeAction::Read,
            Pipe::Writing { len } => PipeAction::Write { len },
            Pipe::Finished { .. } => PipeAction::Stop,
        }
    }

    /// The state that follows `event`.
    ///
    /// A read of nothing is the end of the source: it ends the direction
    /// cleanly. A read of some bytes, no more than the buffer holds, makes
    /// them pending. A failed read or write ends the direction with
    /// `RelayError`, and so does a read that claims more than the buffer
    /// holds. A write in full empties the buffer. An event that does not
    /// answer what the direction waits for changes nothing, and nothing
    /// changes a direction that has ended.
    pub open spec fn spec_next(&self, event: PipeEvent) -> Pipe {
        match (*self, event) {
            (Pipe::Reading, PipeEvent::Read(len)) => if len == 0 {
                Pipe::Finished { result: Ok(()) }
            } else if len <= BUFFER_SIZE {
                Pipe::Writing { len }
            } else {
                Pipe::Finished { result: Err(spec_error(ErrorKind::RelayError)) }
            },
            (Pipe::Reading, PipeEvent::ReadFailed) => Pipe::Finished {
                result: Err(spec_error(ErrorKind::RelayError)),
            },
            (Pipe::Writing { .. }, PipeEvent::Written) => Pipe::Reading,
            (Pipe::Writing { .. }, PipeEvent::WriteFailed) => Pipe::Finished {
                result: Err(spec_error(ErrorKind::RelayError)),
            },
            _ => *self,
        }
    }

    /// What the loop does after `event`: the half-close at the moment the
    /// direction ends, and otherwise what the new state waits for.
    pub open spec fn spec_action(&self, event: PipeEvent) -> PipeAction {
        if !(*self is Finished) && self.spec_next(event) is Finished {
            PipeAction::HalfClose
        } else {
            self.spec_next(event).spec_pending()
        }
    }

    /// Whether the direction has ended.
    pub open spec fn spec_finished(&self) -> bool {
        *self is Finished
    }

    /// A direction at its start: nothing read yet.
    pub fn new() -> (pipe: Pipe)
        ensures
            pipe == Pipe::Reading,
    {
        Pipe::Reading
    }

    /// What the direction waits for: a read, a write of the pending bytes,
    /// or nothing once it has ended.
    #[verifier::when_used_as_spec(spec_pending)]
    pub fn pending(&self) -> (action: PipeAction)
        ensures
            action == self.spec_pending(),
    {
        match self {
            Pipe::Reading => PipeAction::Read,
            Pipe::Writing { len } => PipeAction::Write { len: *len },
            Pipe::Finished { .. } => PipeAction::Stop,
        }
    }

    /// Whether the direction has ended.
    #[verifier::when_used_as_spec(spec_finished)]
    pub fn finished(&self) -> (done: bool)
        ensures
            done == self.spec_finished(),
    {
        match self {
            Pipe::Finished { .. } => true,
            _ => false,
        }
    }
}

/// One step of a copy loop: takes what the loop saw, moves the direction on
/// and says what the loop does next.
///
/// - After a read of `len` bytes, `0 < len <= BUFFER_SIZE`: write exactly
///   those `len` bytes.
/// - After a write in full: read again.
/// - After a read of nothing, the end of the source: half-close the
///   destination and leave; the direction has ended cleanly.
/// - After a failed read or write, or a read that claims more bytes than the
///   buffer holds: half-close the destination and leave; the direction has
///   ended with `RelayError`.
/// - After an event that does not answer what the direction waits for: the
///   same request again, with nothing changed.
/// - Once the direction has ended: leave, with no second half-close.
pub fn pipe_data(pipe: &mut Pipe, event: PipeEvent) -> (action: PipeAction)
    ensures
        *final(pipe) == old(pipe).spec_next(event),
        action == old(pipe).spec_action(event),
{
    let failed: Pipe = Pipe::Finished { result: Err(error(ErrorKind::RelayError)) };
    let next: Pipe = match (*pipe, event) {
        (Pipe::Reading, PipeEvent::Read(len)) => {
            if len == 0 {
                Pipe::Finished { result: Ok(()) }
            } else if len <= BUFFER_SIZE {
                Pipe::Writing { len }
            } else {
                failed
            }
        },
        (Pipe::Reading, PipeEvent::ReadFailed) => failed,
        (Pipe::Writing { .. }, PipeEvent::Written) => Pipe::Reading,
        (Pipe::Writing { .. }, PipeEvent::WriteFailed) => failed,
        (current, _) => current,
    };
    let action: PipeAction = if !pipe.finished() && next.finished() {
        PipeAction::HalfClose
    } else {
        next.pending()
    };
    *pipe = next;
    action
}

/// How one direction ended, as the session sees it: with its own result where
/// it ran to its end, and with `RelayError` where its loop was left before
/// that or did not hand in its state at all.
pub open spec fn spec_direction_result(pipe: Option<Pipe>) -> Result<(), Error> {
    match pipe {
        Some(Pipe::Finished { result }) => result,
        _ => Err(spec_error(ErrorKind::RelayError)),
    }
}

/// Whether a direction ran to the end of its source without a failure.
pub open spec fn spec_ended_cleanly(pipe: Option<Pipe>) -> bool {
    pipe matches Some(Pipe::Finished { result }) && result is Ok
}

/// How a relay ended: with the failure of the direction from the client, or
/// else with that of the direction from the target, or else cleanly.
pub open spec fn spec_join(upstream: Option<Pipe>, downstream: Option<Pipe>) -> Result<(), Error> {
    if spec_direction_result(upstream) is Err {
        spec_direction_result(upstream)
    } else {
        spec_direction_result(downstream)
    }
}

/// How one direction ended, as the session sees it.
fn direction_result(pipe: Option<Pipe>) -> (result: Result<(), Error>)
    ensures
        result == spec_direction_result(pipe),
{
    match pipe {
        Some(Pipe::Finished { result }) => result,
        _ => Err(error(ErrorKind::RelayError)),
    }
}

/// Joins the two directions of a relay once their loops have been waited
/// for: `upstream` is the last state of the copy from the client to the
/// target, `downstream` that of the copy from the target to the client, and
/// nothing stands for a loop that ended without handing in its state.
///
/// The relay ended cleanly only where both directions ran to the end of their
/// source. Otherwise it ended with the first failure, the direction from the
/// client first; a direction that did not run to its end counts as failed
/// with `RelayError`.
pub fn join(upstream: Option<Pipe>, downstream: Option<Pipe>) -> (result: Result<(), Error>)
    ensures
        result == spec_join(upstream, downstream),
        result is Ok <==> spec_ended_cleanly(upstream) && spec_ended_cleanly(downstream),
{
    let sent: Result<(), Error> = direction_result(upstream);
    if sent.is_err() {
        sent
    } else {
        direction_result(downstream)
    }
}

/// What one direction has done over a run of events from its start.
pub struct Transfer {
    /// Where the direction stands.
    pub pipe: Pipe,
    /// How many bytes it took from its source.
    pub read: nat,
    /// How many bytes it wrote to its destination in full writes.
    pub written: nat,
    /// How often it asked for the half-close of its destination.
    pub half_closes: nat,
}

/// The account of a direction that starts at `Reading` and sees `events` one
/// after the other. A read counts where the direction waited for it and it
/// gave no more than the buffer holds; a write counts where the direction
/// waited for it and it was done in full.
pub open spec fn spec_transfer(events: Seq<PipeEvent>) -> Transfer
    decreases events.len(),
{
    if events.len() == 0 {
        Transfer { pipe: Pipe::Reading, read: 0, written: 0, half_closes: 0 }
    } else {
        let before = spec_transfer(events.drop_last());
        let event = events.last();
        Transfer {
            pipe: before.pipe.spec_next(event),
            read: before.read + match (before.pipe, event) {
                (Pipe::Reading, PipeEvent::Read(len)) => if len <= BUFFER_SIZE {
                    len as nat
                } else {
                    0
                },
                _ => 0,
            },
            written: before.written + match (before.pipe, event) {
                (Pipe::Writing { len }, PipeEvent::Written) => len as nat,
                _ => 0,
            },
            half_closes: before.half_closes + if before.pipe.spec_action(event)
                == PipeAction::HalfClose {
                1nat
            } else {
                0nat
            },
        }
    }
}

/// Nothing that was read is dropped, and the destination is half-closed
/// exactly once. Over any run of events:
///
/// - while the direction reads, all that it took has been written;
/// - while it writes, what it took and has not written is exactly the
///   pending bytes, which the next write is asked to write in full;
/// - where it ended cleanly, all that it took has been written;
/// - where it ended on a failure, the failure is `RelayError` and at most
///   the one buffer that was pending is lost;
/// - it asked for the half-close once if it has ended, and never before.
pub proof fn lemma_nothing_dropped(events: Seq<PipeEvent>)
    ensures
        ({
            let account = spec_transfer(events);
            match account.pipe {
                Pipe::Reading => account.read == account.written && account.half_closes == 0,
                Pipe::Writing { len } => {
                    &&& 0 < len <= BUFFER_SIZE
                    &&& account.read == account.written + len
                    &&& account.pipe.spec_pending() == PipeAction::Write { len }
                    &&& account.half_closes == 0
                },
                Pipe::Finished { result } => {
                    &&& account.half_closes == 1
                    &&& result is Ok ==> account.read == account.written
                    &&& result is Err ==> {
                        &&& result == Err::<(), Error>(spec_error(ErrorKind::RelayError))
                        &&& account.written <= account.read <= account.written + BUFFER_SIZE
                    }
                },
            }
        }),
    decreases events.len(),
{
    if events.len() > 0 {
        lemma_nothing_dropped(events.drop_last());
    }
}

/// A direction that has ended stays as it ended: whatever it is told, its
/// state does not change and the loop is only told to leave, with no second
/// half-close.
pub proof fn lemma_finished_is_final(result: Result<(), Error>, event: PipeEvent)
    ensures
        (Pipe::Finished { result }).spec_next(event) == (Pipe::Finished { result }),
        (Pipe::Finished { result }).spec_action(event) == PipeAction::Stop,
{
}

/// A direction ends only by what happens on its own two sockets: at the end
/// of its source, which ends it cleanly, or on a failed read or write of its
/// own. Nothing that the other direction does is among its events, so the end
/// of one direction leaves the other running.
pub proof fn lemma_direction_ends_by_itself(pipe: Pipe, event: PipeEvent)
    requires
        !(pipe is Finished),
        pipe.spec_next(event) is Finished,
    ensures
        pipe.spec_action(event) == PipeAction::HalfClose,
        pipe.spec_next(event)->result is Ok <==> pipe is Reading && event == PipeEvent::Read(0),
        pipe.spec_next(event)->result is Err ==> {
            ||| pipe is Reading && event is ReadFailed
            ||| pipe is Reading && event is Read && event->Read_0 > BUFFER_SIZE
            ||| pipe is Writing && event is WriteFailed
        },
{
}

} // verus!
