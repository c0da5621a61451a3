//! The capture-sink lifecycle shared by both capture backends.
//!
//! A sink is a capturing backend with a `start`/`stop` lifecycle and one
//! observable side effect: the number of frames produced during the active
//! window. The two backends differ completely inside — one registers a
//! per-frame callback and owns no thread, the other runs a dedicated
//! worker that polls "next frame" with a bounded timeout — yet both drive
//! this one state machine: idle until `start`, counting while active,
//! terminal with a fixed count after `stop`. The worker loop's per-
//! iteration decision is `worker_step`; the blocking, waiting and frame
//! acquisition around it happen at the process edge.

use vstd::prelude::*;

verus! {

/// Lifecycle phase of a capture sink.
#[derive(Clone, Copy, Debug, PartialEq, Eq, Structural)]
pub enum SinkPhase {
    /// Never started; no frame has been observed.
    Idle,
    /// Frames may arrive and accumulate.
    Active,
    /// Terminal: reports the total frames observed during the active
    /// window, which never changes again.
    Stopped,
}

/// The lifecycle state and frame count of one capture sink.
#[derive(Clone, Copy, Debug, PartialEq, Eq, Structural)]
pub struct SinkLifecycle {
    /// Current phase.
    pub phase: SinkPhase,
    /// Frames observed since the most recent `start`; zero if never started.
    pub frames: u64,
}

/// A frame count after one more observed frame; saturates at the counter's
/// top instead of wrapping.
pub open spec fn bump(f: u64) -> u64 {
    if f == u64::MAX {
        f
    } else {
        (f + 1) as u64
    }
}

/// `start`: idle becomes active with a fresh count; starting an already
/// active or stopped sink is an idempotent no-op.
pub open spec fn spec_start(s: SinkLifecycle) -> SinkLifecycle {
    if s.phase is Idle {
        SinkLifecycle { phase: SinkPhase::Active, frames: 0 }
    } else {
        s
    }
}

/// One observed frame: counts only while active. `stop` is a barrier —
/// a frame observed in any other phase changes nothing.
pub open spec fn spec_frame_arrived(s: SinkLifecycle) -> SinkLifecycle {
    if s.phase is Active {
        SinkLifecycle { phase: s.phase, frames: bump(s.frames) }
    } else {
        s
    }
}

/// `stop`: an active sink becomes stopped and reports its count; stopping
/// an idle sink is a no-op returning zero, and stopping a stopped sink
/// returns the same count again.
pub open spec fn spec_stop(s: SinkLifecycle) -> (SinkLifecycle, u64) {
    match s.phase {
        SinkPhase::Idle => (s, 0u64),
        SinkPhase::Active => (SinkLifecycle { phase: SinkPhase::Stopped, frames: s.frames }, s.frames),
        SinkPhase::Stopped => (s, s.frames),
    }
}

impl SinkLifecycle {
    /// A sink that has never been started.
    pub fn new() -> (s: SinkLifecycle)
        ensures
            s == (SinkLifecycle { phase: SinkPhase::Idle, frames: 0u64 }),
    {
        SinkLifecycle { phase: SinkPhase::Idle, frames: 0 }
    }

    /// Begins the active window. Idempotent: only the transition out of
    /// idle changes anything, and it resets the count to zero.
    pub fn start(&mut self)
        ensures
            *final(self) == spec_start(*old(self)),
    {
        match self.phase {
            SinkPhase::Idle => {
                self.phase = SinkPhase::Active;
                self.frames = 0;
            },
            _ => {},
        }
    }

    /// Records one observed frame. Counts only while active; saturates at
    /// the counter's top instead of wrapping.
    pub fn frame_arrived(&mut self)
        ensures
            *final(self) == spec_frame_arrived(*old(self)),
    {
        match self.phase {
            SinkPhase::Active => {
                if self.frames < u64::MAX {
                    self.frames = self.frames + 1;
                }
            },
            _ => {},
        }
    }

    /// Ends the active window and reports the number of frames observed
    /// since the most recent `start` — zero if the sink was never started.
    /// Idempotent once stopped: the same count comes back every time.
    pub fn stop(&mut self) -> (n: u64)
        ensures
            (*final(self), n) == spec_stop(*old(self)),
    {
        match self.phase {
            SinkPhase::Idle => 0,
            SinkPhase::Active => {
                self.phase = SinkPhase::Stopped;
                self.frames
            },
            SinkPhase::Stopped => self.frames,
        }
    }
}

/// Stopping is idempotent: once `stop` has reported a count, stopping
/// again — even spuriously, long after the backend is gone — changes
/// nothing and reports the same count.
pub proof fn lemma_stop_idempotent(s: SinkLifecycle)
    ensures
        ({
            let (s1, n1) = spec_stop(s);
            let (s2, n2) = spec_stop(s1);
            s2 == s1 && n2 == n1
        }),
{
}

/// `stop` is a barrier against further increments: no frame observed
/// after `stop` has returned changes the sink or its reported count.
pub proof fn lemma_stop_barrier(s: SinkLifecycle)
    ensures
        ({
            let (s1, n1) = spec_stop(s);
            &&& spec_frame_arrived(s1) == s1
            &&& spec_stop(spec_frame_arrived(s1)).1 == n1
        }),
{
}

/// What one poll of "acquire next frame" produced in the poll-driven
/// backend's worker loop.
#[derive(Clone, Copy, Debug, PartialEq, Eq, Structural)]
pub enum AcquireOutcome {
    /// A frame arrived; the worker releases it immediately — this sink
    /// only counts, it never retains frame content.
    Frame,
    /// The bounded wait timed out; the worker re-checks cancellation and
    /// loops. The timeout bounds how long shutdown can take.
    Timeout,
    /// Acquisition failed; fatal to this pass's capture.
    Failed,
}

/// What the poll-driven worker loop must do after one iteration.
#[derive(Clone, Copy, Debug, PartialEq, Eq, Structural)]
pub enum WorkerDirective {
    /// Poll again.
    Continue,
    /// The cancellation signal is set: leave the loop without touching
    /// the count, which is final from here on.
    Exit,
    /// Acquisition failed: leave the loop and surface the failure.
    Fail,
}

/// One iteration of the poll-driven worker: while the cancellation signal
/// is not set, block on the next frame with a bounded timeout; count an
/// acquired frame after releasing it; loop again on a timeout. Once the
/// signal is set, the worker exits without another increment, so the
/// count read after the worker is joined never changes again.
pub fn worker_step(cancel_signaled: bool, acquired: AcquireOutcome, sink: &mut SinkLifecycle) -> (d:
    WorkerDirective)
    ensures
        cancel_signaled ==> d == WorkerDirective::Exit && *final(sink) == *old(sink),
        !cancel_signaled && acquired == AcquireOutcome::Frame ==> d == WorkerDirective::Continue
            && *final(sink) == spec_frame_arrived(*old(sink)),
        !cancel_signaled && acquired == AcquireOutcome::Timeout ==> d == WorkerDirective::Continue
            && *final(sink) == *old(sink),
        !cancel_signaled && acquired == AcquireOutcome::Failed ==> d == WorkerDirective::Fail
            && *final(sink) == *old(sink),
{
    if cancel_signaled {
        WorkerDirective::Exit
    } else {
        match acquired {
            AcquireOutcome::Frame => {
                sink.frame_arrived();
                WorkerDirective::Continue
            },
            AcquireOutcome::Timeout => WorkerDirective::Continue,
            AcquireOutcome::Failed => WorkerDirective::Fail,
        }
    }
}

} // verus!
