//! The cancellation signal's wait vocabulary.
//!
//! The poll-driven backend's worker is cancelled through a signal shared
//! between threads. The signal itself — an OS event whose handle both
//! sides hold — lives at the process edge; these types fix the vocabulary
//! of waiting on it: how long a wait may block, what it reported, and the
//! millisecond encoding the OS wait call takes.

use vstd::prelude::*;

verus! {

/// How long one wait on the cancellation signal may block.
#[derive(Clone, Copy, Debug, PartialEq, Eq, Structural)]
pub enum EventTimeout {
    /// Do not block: report the signal's current state and return.
    NoWait,
    /// Block until the signal is set.
    Infinite,
    /// Block for at most this many milliseconds.
    Duration(u32),
}

/// What one wait on the cancellation signal reported.
#[derive(Clone, Copy, Debug, PartialEq, Eq, Structural)]
pub enum WaitResult {
    /// The signal was set within the wait.
    Signaled,
    /// The wait ran out before the signal was set.
    TimedOut,
}

impl EventTimeout {
    /// The millisecond encoding the OS wait call takes: zero for no wait
    /// and the all-ones value for an unbounded wait.
    pub fn millis(&self) -> (r: u32)
        ensures
            *self is NoWait ==> r == 0,
            *self is Infinite ==> r == u32::MAX,
            *self matches EventTimeout::Duration(ms) ==> r == ms,
    {
        match self {
            EventTimeout::NoWait => 0,
            EventTimeout::Infinite => u32::MAX,
            EventTimeout::Duration(ms) => *ms,
        }
    }
}

} // verus!
