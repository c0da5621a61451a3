//! Capture-sink lifecycle: start/stop idempotence, the stop barrier, and
//! the poll-driven worker's per-iteration decisions.

use capbench::sink::{
    worker_step, AcquireOutcome, SinkLifecycle, SinkPhase, WorkerDirective,
};

/// Frames count only while active, and stop reports the count observed
/// since the most recent start.
#[test]
fn frames_count_between_start_and_stop() {
    let mut sink = SinkLifecycle::new();
    assert_eq!(sink.phase, SinkPhase::Idle);
    sink.frame_arrived(); // not started: must not count
    sink.start();
    sink.frame_arrived();
    sink.frame_arrived();
    sink.frame_arrived();
    assert_eq!(sink.stop(), 3);
    assert_eq!(sink.phase, SinkPhase::Stopped);
}

/// Stopping an idle sink is a no-op returning zero.
#[test]
fn stop_without_start_returns_zero() {
    let mut sink = SinkLifecycle::new();
    assert_eq!(sink.stop(), 0);
    assert_eq!(sink.phase, SinkPhase::Idle);
}

/// Starting twice is an idempotent no-op: the count keeps accumulating.
#[test]
fn start_twice_is_a_no_op() {
    let mut sink = SinkLifecycle::new();
    sink.start();
    sink.frame_arrived();
    sink.start();
    sink.frame_arrived();
    assert_eq!(sink.stop(), 2);
}

/// Calling stop twice returns the same count both times, and no frame
/// observed after stop changes it — stop is a barrier against further
/// increments.
#[test]
fn stop_is_idempotent_and_a_barrier() {
    let mut sink = SinkLifecycle::new();
    sink.start();
    sink.frame_arrived();
    sink.frame_arrived();
    let first = sink.stop();
    assert_eq!(first, 2);
    sink.frame_arrived(); // after the barrier: must not count
    assert_eq!(sink.stop(), first);
    assert_eq!(sink.stop(), first);
    assert_eq!(sink.frames, 2);
}

/// The worker loop: a frame acquired while not cancelled is counted and
/// the loop continues; a timeout only re-checks cancellation.
#[test]
fn worker_counts_frames_and_loops_on_timeout() {
    let mut sink = SinkLifecycle::new();
    sink.start();
    assert_eq!(
        worker_step(false, AcquireOutcome::Frame, &mut sink),
        WorkerDirective::Continue
    );
    assert_eq!(
        worker_step(false, AcquireOutcome::Timeout, &mut sink),
        WorkerDirective::Continue
    );
    assert_eq!(
        worker_step(false, AcquireOutcome::Frame, &mut sink),
        WorkerDirective::Continue
    );
    assert_eq!(sink.frames, 2);
}

/// Once the cancellation signal is set the worker exits without another
/// increment, whatever the acquisition would have produced; the count
/// read after the join never moves again.
#[test]
fn cancelled_worker_exits_without_counting() {
    let mut sink = SinkLifecycle::new();
    sink.start();
    sink.frame_arrived();
    assert_eq!(
        worker_step(true, AcquireOutcome::Frame, &mut sink),
        WorkerDirective::Exit
    );
    assert_eq!(sink.frames, 1);
    assert_eq!(sink.stop(), 1);
}

/// A failed acquisition surfaces as a worker failure and does not touch
/// the count.
#[test]
fn failed_acquisition_aborts_the_worker() {
    let mut sink = SinkLifecycle::new();
    sink.start();
    assert_eq!(
        worker_step(false, AcquireOutcome::Failed, &mut sink),
        WorkerDirective::Fail
    );
    assert_eq!(sink.frames, 0);
}
