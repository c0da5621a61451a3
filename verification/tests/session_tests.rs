//! Session behavior: tick counts, boundary inclusion, completion delivery,
//! abandonment, and parameter validation.

use capbench::counter::PollOutcome;
use capbench::errors::SessionError;
use capbench::session::{resolve_completion, SessionState, TickOutcome, TICK_LENGTH_MS};
use capbench::tracker::TrackerBundle;

fn present_bundle(n: usize) -> TrackerBundle {
    let mut open_results = Vec::new();
    for _ in 0..n {
        open_results.push(capbench::counter::CounterSource::open(true));
    }
    TrackerBundle::new(open_results)
}

fn reading(centi: u64) -> PollOutcome {
    PollOutcome::Valid(vec![centi])
}

/// Target 2000 ms at 500 ms ticks delivers ceil(2000/500) = 4 ticks, and
/// the tick that reaches the target is the one that completes.
#[test]
fn tick_count_exact_multiple() {
    let bundle = present_bundle(1);
    let mut session = SessionState::new(2000, TICK_LENGTH_MS, bundle).unwrap();
    let mut delivered = None;
    let mut ticks = 0usize;
    while delivered.is_none() {
        match session.on_tick(&vec![reading(100)]) {
            TickOutcome::Running(e) => {
                assert!(e.is_none());
                ticks += 1;
            }
            TickOutcome::Complete(m, e) => {
                assert!(e.is_none());
                ticks += 1;
                delivered = Some(m);
            }
            TickOutcome::AlreadyComplete => panic!("completed twice"),
        }
    }
    assert_eq!(ticks, 4);
    assert!(session.elapsed_millis() >= 2000);
    assert_eq!(delivered.unwrap().row(0).len(), 4);
}

/// A target that is not a multiple of the tick length rounds the tick
/// count up: ceil(999/500) = 2, and elapsed time at completion is >= 999.
#[test]
fn tick_count_rounds_up() {
    let bundle = present_bundle(1);
    let mut session = SessionState::new(999, 500, bundle).unwrap();
    assert!(matches!(
        session.on_tick(&vec![reading(100)]),
        TickOutcome::Running(None)
    ));
    match session.on_tick(&vec![reading(100)]) {
        TickOutcome::Complete(m, None) => assert_eq!(m.row(0).len(), 2),
        _ => panic!("second tick must complete"),
    }
    assert!(session.elapsed_millis() >= 999);
}

/// A tick that lands exactly on the target is the last tick and its
/// samples are included (boundary-inclusive).
#[test]
fn boundary_tick_included() {
    let bundle = present_bundle(1);
    let mut session = SessionState::new(500, 500, bundle).unwrap();
    match session.on_tick(&vec![reading(4200)]) {
        TickOutcome::Complete(m, None) => {
            assert_eq!(m.row(0).len(), 1);
            assert_eq!(m.row(0).get(0), 4200);
        }
        _ => panic!("the first tick lands on the target and must complete"),
    }
}

/// A double fire of the timer around the boundary tick cannot deliver a
/// second completion.
#[test]
fn completion_happens_once() {
    let bundle = present_bundle(1);
    let mut session = SessionState::new(500, 500, bundle).unwrap();
    assert!(matches!(
        session.on_tick(&vec![reading(100)]),
        TickOutcome::Complete(_, None)
    ));
    assert!(matches!(
        session.on_tick(&vec![reading(100)]),
        TickOutcome::AlreadyComplete
    ));
    assert!(matches!(
        session.on_tick(&vec![reading(100)]),
        TickOutcome::AlreadyComplete
    ));
}

/// A zero target, a zero tick length, or a tick longer than the target is
/// a configuration error that fails fast.
#[test]
fn invalid_session_durations() {
    assert!(matches!(
        SessionState::new(0, 500, present_bundle(1)),
        Err(SessionError::InvalidSessionDuration)
    ));
    assert!(matches!(
        SessionState::new(2000, 0, present_bundle(1)),
        Err(SessionError::InvalidSessionDuration)
    ));
    assert!(matches!(
        SessionState::new(400, 500, present_bundle(1)),
        Err(SessionError::InvalidSessionDuration)
    ));
    assert!(SessionState::new(500, 500, present_bundle(1)).is_ok());
}

/// The deterministic scenario: target 2000 ms, tick 500 ms, one adapter
/// whose counter reads 10%, 20%, 30%, 40% on successive ticks; the
/// delivered series is exactly those four values.
#[test]
fn four_tick_series_delivered() {
    let bundle = present_bundle(1);
    let mut session = SessionState::new(2000, 500, bundle).unwrap();
    let ticks = vec![
        vec![reading(1000)],
        vec![reading(2000)],
        vec![reading(3000)],
        vec![reading(4000)],
    ];
    let (matrix, used) = session.run_to_completion(&ticks);
    assert_eq!(used, 4);
    assert_eq!(matrix.len(), 1);
    let row = matrix.row(0);
    assert_eq!(row.len(), 4);
    assert_eq!(row.get(0), 1000);
    assert_eq!(row.get(1), 2000);
    assert_eq!(row.get(2), 3000);
    assert_eq!(row.get(3), 4000);
    assert!(session.is_completed());
    assert!(session.elapsed_millis() >= 2000);
}

/// A session over an empty adapter list still completes and delivers an
/// empty, zero-row matrix.
#[test]
fn zero_adapters_still_complete() {
    let bundle = TrackerBundle::new(Vec::new());
    let mut session = SessionState::new(1000, 500, bundle).unwrap();
    let ticks = vec![Vec::new(), Vec::new()];
    let (matrix, used) = session.run_to_completion(&ticks);
    assert_eq!(used, 2);
    assert_eq!(matrix.len(), 0);
}

/// An abandoned session unblocks the caller with `SessionAbandoned`, a
/// distinct outcome from a completed session with an empty matrix.
#[test]
fn abandonment_is_not_an_empty_result() {
    let r = resolve_completion(None);
    assert!(matches!(r, Err(SessionError::SessionAbandoned)));
}

/// A delivered matrix passes through the completion channel untouched.
#[test]
fn delivery_resolves_to_the_matrix() {
    let bundle = present_bundle(2);
    let mut session = SessionState::new(500, 500, bundle).unwrap();
    match session.on_tick(&vec![reading(100), reading(200)]) {
        TickOutcome::Complete(m, None) => {
            let resolved = resolve_completion(Some(m)).unwrap();
            assert_eq!(resolved.len(), 2);
            assert_eq!(resolved.row(0).get(0), 100);
            assert_eq!(resolved.row(1).get(0), 200);
        }
        _ => panic!("the first tick lands on the target and must complete"),
    }
}

/// A read failure aborts only that tick's value for that adapter; the
/// session continues and later ticks still sample.
#[test]
fn failed_read_skips_one_value() {
    let bundle = present_bundle(1);
    let mut session = SessionState::new(1000, 500, bundle).unwrap();
    match session.on_tick(&vec![PollOutcome::Invalid]) {
        TickOutcome::Running(Some(capbench::errors::TickError::TickFailed(j))) => {
            assert_eq!(j, 0);
        }
        _ => panic!("an invalid poll must report the failing adapter"),
    }
    match session.on_tick(&vec![reading(700)]) {
        TickOutcome::Complete(m, None) => {
            assert_eq!(m.row(0).len(), 1);
            assert_eq!(m.row(0).get(0), 700);
        }
        _ => panic!("second tick must complete"),
    }
}
