//! The state machine one synthesis turn follows. The orchestrator
//! drives it with the events the two concurrent activities report;
//! the machine says which phase follows which, and that a turn never
//! leaves a terminal phase — a new turn always starts over from idle
//! with a fresh session.

use vstd::prelude::*;

verus! {

/// Phase of one synthesis turn.
#[derive(Debug, Clone, Copy, PartialEq, Eq, Structural)]
pub enum TurnPhase {
    /// No session yet.
    Idle,
    /// The session is open and initialized; the activities have not
    /// started.
    SessionOpen,
    /// Chunker and playback consumer both run.
    Streaming,
    /// The chunker is done; the consumer still drains audio.
    Draining,
    /// The turn ended well.
    Complete,
    /// The turn ended with a failure.
    Failed,
}

/// What the orchestrator observed.
#[derive(Debug, Clone, Copy, PartialEq, Eq, Structural)]
pub enum TurnEvent {
    /// The session was opened and the initialization send completed.
    SessionOpened,
    /// Both activities were started against the session.
    ActivitiesStarted,
    /// The chunker forwarded the terminator and returned.
    ChunkerFinished,
    /// The consumer saw the stream end and the sink drain.
    ConsumerFinished,
    /// Either activity, or the session itself, failed.
    Failure,
}

/// A phase no turn leaves.
pub open spec fn is_terminal(p: TurnPhase) -> bool {
    p is Complete || p is Failed
}

/// The transition relation of a turn: the ordinary path is
/// idle, session open, streaming, draining, complete; a failure in
/// any live phase ends the turn; an event that does not belong to the
/// current phase changes nothing.
pub open spec fn advance_spec(p: TurnPhase, e: TurnEvent) -> TurnPhase {
    if is_terminal(p) {
        p
    } else {
        match e {
            TurnEvent::Failure => TurnPhase::Failed,
            TurnEvent::SessionOpened => if p is Idle {
                TurnPhase::SessionOpen
            } else {
                p
            },
            TurnEvent::ActivitiesStarted => if p is SessionOpen {
                TurnPhase::Streaming
            } else {
                p
            },
            TurnEvent::ChunkerFinished => if p is Streaming {
                TurnPhase::Draining
            } else {
                p
            },
            TurnEvent::ConsumerFinished => if p is Draining {
                TurnPhase::Complete
            } else {
                p
            },
        }
    }
}

/// One step of the turn state machine.
pub fn advance(p: TurnPhase, e: TurnEvent) -> (r: TurnPhase)
    ensures
        r == advance_spec(p, e),
{
    if matches!(p, TurnPhase::Complete) || matches!(p, TurnPhase::Failed) {
        return p;
    }
    match e {
        TurnEvent::Failure => TurnPhase::Failed,
        TurnEvent::SessionOpened => if matches!(p, TurnPhase::Idle) {
            TurnPhase::SessionOpen
        } else {
            p
        },
        TurnEvent::ActivitiesStarted => if matches!(p, TurnPhase::SessionOpen) {
            TurnPhase::Streaming
        } else {
            p
        },
        TurnEvent::ChunkerFinished => if matches!(p, TurnPhase::Streaming) {
            TurnPhase::Draining
        } else {
            p
        },
        TurnEvent::ConsumerFinished => if matches!(p, TurnPhase::Draining) {
            TurnPhase::Complete
        } else {
            p
        },
    }
}

/// No event moves a turn out of a terminal phase: a finished or
/// failed turn stays what it is, and the next turn is a new machine.
pub proof fn lemma_terminal_absorbs(p: TurnPhase, e: TurnEvent)
    ensures
        is_terminal(p) ==> advance_spec(p, e) == p,
{
}

/// A turn only ever moves forward: the ordinary path visits each
/// phase at most once, because no transition returns to an earlier
/// phase.
pub open spec fn phase_rank(p: TurnPhase) -> nat {
    match p {
        TurnPhase::Idle => 0,
        TurnPhase::SessionOpen => 1,
        TurnPhase::Streaming => 2,
        TurnPhase::Draining => 3,
        TurnPhase::Complete => 4,
        TurnPhase::Failed => 4,
    }
}

/// Progress only: every transition keeps or raises the phase rank.
pub proof fn lemma_advance_monotone(p: TurnPhase, e: TurnEvent)
    ensures
        phase_rank(advance_spec(p, e)) >= phase_rank(p),
{
}

} // verus!
