//! Error taxonomy of the measurement core.

use vstd::prelude::*;

verus! {

/// Failures of a per-adapter performance-counter source.
#[derive(Clone, Copy, Debug, PartialEq, Eq, Structural)]
pub enum CounterError {
    /// The counter path did not resolve for the (process, adapter) pair,
    /// e.g. the process performs no 3D-engine work on that adapter. This is
    /// an expected, non-fatal condition: the bundle records the slot as
    /// absent instead of failing.
    CounterUnavailable,
    /// The counter subsystem reported invalid or stale data on this poll.
    /// Only the current tick's value for the affected adapter is lost.
    CounterReadFailed,
    /// The query was already released; no further reads are possible.
    CounterClosed,
}

/// Failure of one aggregation tick of the tracker bundle.
#[derive(Clone, Copy, Debug, PartialEq, Eq, Structural)]
pub enum TickError {
    /// A present source's read failed on this tick; carries the lowest
    /// failing adapter index. The session continues on the next tick.
    TickFailed(usize),
}

/// Failures of a sampling session as a whole.
#[derive(Clone, Copy, Debug, PartialEq, Eq, Structural)]
pub enum SessionError {
    /// The session parameters describe a session that could never tick:
    /// a zero target duration, a zero tick length, or a tick length longer
    /// than the target duration. Fails fast, before any session starts.
    InvalidSessionDuration,
    /// The session's owning scheduling context was torn down before the
    /// target duration elapsed; no sample matrix was ever delivered. This is
    /// a distinct outcome from a completed session with empty series.
    SessionAbandoned,
}

} // verus!
