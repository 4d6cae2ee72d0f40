//! Failure taxonomy of one synthesis turn. Every fallible boundary
//! operation surfaces a structured outcome; nothing is retried within
//! a turn, and the orchestrator carries the first failure outward.

use vstd::prelude::*;

verus! {

/// Establishing a session failed: the endpoint was unreachable, the
/// handshake was rejected, or the initialization send failed.
#[derive(Debug, PartialEq, Eq)]
pub struct ConnectionError {
    pub reason: String,
}

/// A write failed mid-turn; the turn is aborted, nothing is resent.
#[derive(Debug, PartialEq, Eq)]
pub struct SendError {
    pub reason: String,
}

/// The inbound half failed: an audio payload could not be decoded, or
/// the service reported an error of its own.
#[derive(Debug, PartialEq, Eq)]
pub enum PlaybackError {
    /// An audio payload whose wire encoding is not valid.
    InvalidPayload,
    /// A service-reported error, carrying its diagnostic text intact.
    Service(String),
}

/// The first failure a turn ran into, whichever side it came from.
#[derive(Debug, PartialEq, Eq)]
pub enum TurnError {
    Connection(ConnectionError),
    Send(SendError),
    Playback(PlaybackError),
}

} // verus!
