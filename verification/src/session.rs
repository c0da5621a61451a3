//! The sampling session: a timer-driven accumulator.
//!
//! A session owns a tracker bundle and the elapsed/target bookkeeping. All
//! of its state lives on one single-threaded scheduling context — no two
//! ticks, and no tick concurrent with creation or teardown, ever execute
//! together. The repeating timer fires every tick length; each fire hands
//! the per-adapter poll outcomes to `on_tick`, which pulls one sample set
//! into the bundle, advances elapsed time, and, once elapsed reaches the
//! target, drains the matrix for delivery to the one waiting caller. The
//! caller's side of the completion channel resolves an unanswered wait to
//! `SessionAbandoned` rather than hanging or faking an empty result.

use vstd::arithmetic::div_mod::lemma_fundamental_div_mod;
use vstd::arithmetic::mul::lemma_mul_inequality;
use vstd::prelude::*;

use crate::counter::{PollOutcome, poll_in_range};
use crate::errors::{SessionError, TickError};
use crate::samples::SampleMatrix;
use crate::tracker::{TrackerBundle, all_reads_ok, first_failed_read, matrix_after_tick};

verus! {

/// All series after the first `k` prepared ticks, applied in order.
pub open spec fn matrix_after_ticks(
    init: Seq<Seq<u64>>,
    present: Seq<bool>,
    ticks: Seq<Seq<PollOutcome>>,
    k: int,
) -> Seq<Seq<u64>>
    decreases k,
{
    if k <= 0 {
        init
    } else {
        matrix_after_tick(matrix_after_ticks(init, present, ticks, k - 1), present, ticks[k - 1])
    }
}

/// The fixed tick cadence of a sampling session, in milliseconds.
pub const TICK_LENGTH_MS: u64 = 500;

/// Number of ticks a session with the given target and tick length
/// delivers: the ceiling of `target / tick`.
pub open spec fn ticks_needed(target: int, tick: int) -> int {
    (target + tick - 1) / tick
}

/// The per-tick error report: `None` exactly when every present adapter's
/// read was valid, else the lowest failing adapter index.
pub open spec fn tick_error_ok(
    e: Option<TickError>,
    present: Seq<bool>,
    readings: Seq<PollOutcome>,
) -> bool {
    match e {
        Option::None => all_reads_ok(present, readings),
        Option::Some(TickError::TickFailed(j)) => first_failed_read(present, readings, j as int),
    }
}

/// What one timer fire produced.
pub enum TickOutcome {
    /// The session continues; carries the first read failure of this tick,
    /// if any — a failing read aborts only this tick's value for that
    /// adapter, never the session.
    Running(Option<TickError>),
    /// Elapsed time reached the target: the timer must be stopped and the
    /// drained matrix delivered to the waiting caller, exactly once.
    Complete(SampleMatrix, Option<TickError>),
    /// The session had already completed; a double fire of the timer
    /// around the boundary tick changes nothing and delivers nothing.
    AlreadyComplete,
}

/// A sampling session, from arming to completion.
pub struct SessionState {
    target_ms: u64,
    tick_ms: u64,
    elapsed_ms: u64,
    completed: bool,
    bundle: TrackerBundle,
}

impl SessionState {
    /// Target duration, in milliseconds.
    pub closed spec fn target(&self) -> u64 {
        self.target_ms
    }

    /// Tick length, in milliseconds.
    pub closed spec fn tick_len(&self) -> u64 {
        self.tick_ms
    }

    /// Elapsed time accumulated so far, in milliseconds.
    pub closed spec fn elapsed(&self) -> u64 {
        self.elapsed_ms
    }

    /// Whether the completion transition has happened.
    pub closed spec fn is_complete(&self) -> bool {
        self.completed
    }

    /// Number of adapters the session samples; one matrix row each.
    pub closed spec fn adapter_count(&self) -> nat {
        self.bundle.adapter_count()
    }

    /// Which adapters have an open counter source.
    pub closed spec fn present_map(&self) -> Seq<bool> {
        self.bundle.present_map()
    }

    /// The per-adapter series accumulated so far.
    pub closed spec fn series(&self) -> Seq<Seq<u64>> {
        self.bundle.series()
    }

    /// Well-formed: the bundle is started and sound, the durations are
    /// valid and cannot overflow the elapsed counter, and elapsed time is
    /// below the target exactly until the completion transition.
    pub closed spec fn wf(&self) -> bool {
        &&& self.bundle.wf()
        &&& self.bundle.ready()
        &&& 0 < self.tick_ms <= self.target_ms
        &&& self.target_ms + self.tick_ms <= u64::MAX
        &&& (self.completed <==> self.elapsed_ms >= self.target_ms)
    }

    /// Number of adapters the session samples, at run time.
    pub fn adapter_len(&self) -> (n: usize)
        ensures
            n == self.adapter_count(),
    {
        self.bundle.len()
    }

    /// Elapsed time accumulated so far, at run time, in milliseconds.
    pub fn elapsed_millis(&self) -> (e: u64)
        ensures
            e == self.elapsed(),
    {
        self.elapsed_ms
    }

    /// Whether the completion transition has happened, at run time.
    pub fn is_completed(&self) -> (b: bool)
        ensures
            b == self.is_complete(),
    {
        self.completed
    }

    /// Validates the parameters and arms the session: the bundle is
    /// started — every present source primed — and elapsed time is zero.
    /// A zero target duration, a zero tick length, or a tick length longer
    /// than the target would make a session that never ticks; that is a
    /// configuration error and fails fast with `InvalidSessionDuration`,
    /// before any timer runs.
    pub fn new(target_ms: u64, tick_ms: u64, bundle: TrackerBundle) -> (r: Result<
        SessionState,
        SessionError,
    >)
        requires
            bundle.wf(),
            forall|i: int| 0 <= i < bundle.adapter_count() ==> bundle.series()[i].len() == 0,
            target_ms + tick_ms <= u64::MAX,
        ensures
            r is Ok <==> 0 < tick_ms <= target_ms,
            !(0 < tick_ms <= target_ms) ==> r == Err::<SessionState, SessionError>(
                SessionError::InvalidSessionDuration,
            ),
            r matches Ok(s) ==> ({
                &&& s.wf()
                &&& s.target() == target_ms
                &&& s.tick_len() == tick_ms
                &&& s.elapsed() == 0
                &&& !s.is_complete()
                &&& s.adapter_count() == bundle.adapter_count()
                &&& s.present_map() == bundle.present_map()
                &&& forall|i: int| 0 <= i < s.adapter_count() ==> s.series()[i].len() == 0
            }),
    {
        if target_ms == 0 || tick_ms == 0 || tick_ms > target_ms {
            return Err(SessionError::InvalidSessionDuration);
        }
        let mut bundle = bundle;
        bundle.start();
        Ok(SessionState { target_ms, tick_ms, elapsed_ms: 0, completed: false, bundle })
    }

    /// One deterministic timer fire: pulls one sample set from the bundle,
    /// advances elapsed time by the tick length, and — once elapsed
    /// reaches the target — stops accumulating and drains the matrix for
    /// delivery. A tick that lands exactly on the target is the last tick
    /// and its samples are included. The completion transition happens
    /// exactly once per session: a later fire returns `AlreadyComplete`
    /// and changes nothing, so a double fire of the timer around the
    /// boundary tick cannot emit two completions.
    pub fn on_tick(&mut self, readings: &Vec<PollOutcome>) -> (o: TickOutcome)
        requires
            old(self).wf(),
            readings@.len() == old(self).adapter_count(),
            forall|i: int| 0 <= i < readings@.len() ==> poll_in_range(readings@[i]),
        ensures
            final(self).wf(),
            final(self).target() == old(self).target(),
            final(self).tick_len() == old(self).tick_len(),
            final(self).adapter_count() == old(self).adapter_count(),
            final(self).present_map() == old(self).present_map(),
            old(self).is_complete() ==> o is AlreadyComplete && *final(self) == *old(self),
            !old(self).is_complete() ==> ({
                &&& final(self).elapsed() == old(self).elapsed() + old(self).tick_len()
                &&& (final(self).is_complete() <==> old(self).elapsed() + old(self).tick_len()
                    >= old(self).target())
            }),
            !old(self).is_complete() && old(self).elapsed() + old(self).tick_len() < old(
                self,
            ).target() ==> ({
                &&& o matches TickOutcome::Running(e) && tick_error_ok(
                    e,
                    old(self).present_map(),
                    readings@,
                )
                &&& final(self).series() == matrix_after_tick(
                    old(self).series(),
                    old(self).present_map(),
                    readings@,
                )
            }),
            !old(self).is_complete() && old(self).elapsed() + old(self).tick_len() >= old(
                self,
            ).target() ==> ({
                &&& o matches TickOutcome::Complete(m, e) && m@ == matrix_after_tick(
                    old(self).series(),
                    old(self).present_map(),
                    readings@,
                ) && m@.len() == old(self).adapter_count() && tick_error_ok(
                    e,
                    old(self).present_map(),
                    readings@,
                )
                &&& forall|i: int|
                    0 <= i < final(self).adapter_count() ==> final(self).series()[i].len() == 0
            }),
    {
        if self.completed {
            return TickOutcome::AlreadyComplete;
        }
        let tick_err: Option<TickError> = match self.bundle.tick(readings) {
            Ok(()) => None,
            Err(e) => Some(e),
        };
        self.elapsed_ms = self.elapsed_ms + self.tick_ms;
        if self.elapsed_ms >= self.target_ms {
            self.completed = true;
            let m = self.bundle.drain();
            TickOutcome::Complete(m, tick_err)
        } else {
            TickOutcome::Running(tick_err)
        }
    }

    /// Drives a freshly armed session through every tick at once, feeding
    /// it one prepared set of per-adapter poll outcomes per tick: the
    /// compute part of the blocking `run` entry point, with the timer's
    /// waiting stripped away. Consumes exactly `ticks_needed(target,
    /// tick)` of the prepared ticks and returns the delivered matrix —
    /// whose rows are the prepared readings folded tick by tick — together
    /// with that tick count; the elapsed time at completion is at least
    /// the target.
    pub fn run_to_completion(&mut self, ticks: &Vec<Vec<PollOutcome>>) -> (out: (
        SampleMatrix,
        usize,
    ))
        requires
            old(self).wf(),
            !old(self).is_complete(),
            old(self).elapsed() == 0,
            ticks@.len() >= ticks_needed(old(self).target() as int, old(self).tick_len() as int),
            forall|t: int|
                0 <= t < ticks@.len() ==> (#[trigger] ticks@[t])@.len() == old(
                    self,
                ).adapter_count(),
            forall|t: int, i: int|
                0 <= t < ticks@.len() && 0 <= i < ticks@[t]@.len() ==> poll_in_range(
                    #[trigger] ticks@[t]@[i],
                ),
        ensures
            final(self).wf(),
            final(self).is_complete(),
            final(self).adapter_count() == old(self).adapter_count(),
            out.1 == ticks_needed(old(self).target() as int, old(self).tick_len() as int),
            out.0@ == matrix_after_ticks(
                old(self).series(),
                old(self).present_map(),
                ticks@.map_values(|v: Vec<PollOutcome>| v@),
                out.1 as int,
            ),
            out.0@.len() == old(self).adapter_count(),
            final(self).elapsed() >= old(self).target(),
            final(self).elapsed() == out.1 * old(self).tick_len(),
    {
        let ghost n_ticks: int = ticks_needed(
            old(self).target() as int,
            old(self).tick_len() as int,
        );
        let ghost tick_views: Seq<Seq<PollOutcome>> = ticks@.map_values(
            |v: Vec<PollOutcome>| v@,
        );
        proof {
            lemma_ticks_delivered(old(self).target() as int, old(self).tick_len() as int, 0);
            lemma_session_widths(*old(self));
        }
        let n_prepared = ticks.len();
        let mut t: usize = 0;
        loop
            invariant
                n_prepared == ticks@.len(),
                self.wf(),
                !self.is_complete(),
                self.target() == old(self).target(),
                self.tick_len() == old(self).tick_len(),
                self.adapter_count() == old(self).adapter_count(),
                self.present_map() == old(self).present_map(),
                0 <= t < n_ticks,
                n_ticks == ticks_needed(old(self).target() as int, old(self).tick_len() as int),
                tick_views == ticks@.map_values(|v: Vec<PollOutcome>| v@),
                ticks@.len() >= n_ticks,
                self.elapsed() == t * self.tick_len(),
                self.series() == matrix_after_ticks(
                    old(self).series(),
                    old(self).present_map(),
                    tick_views,
                    t as int,
                ),
                forall|k: int|
                    0 <= k < ticks@.len() ==> (#[trigger] ticks@[k])@.len() == old(
                        self,
                    ).adapter_count(),
                forall|k: int, i: int|
                    0 <= k < ticks@.len() && 0 <= i < ticks@[k]@.len() ==> poll_in_range(
                        #[trigger] ticks@[k]@[i],
                    ),
            decreases n_ticks - t,
        {
            let ghost t0: int = t as int;
            let o = self.on_tick(&ticks[t]);
            t = t + 1;
            proof {
                assert((t0 + 1) * (self.tick_len() as int) == t0 * (self.tick_len() as int)
                    + self.tick_len() as int) by (nonlinear_arith);
                assert(tick_views[t0] == ticks@[t0]@);
                assert(matrix_after_ticks(
                    old(self).series(),
                    old(self).present_map(),
                    tick_views,
                    t0 + 1,
                ) == matrix_after_tick(
                    matrix_after_ticks(
                        old(self).series(),
                        old(self).present_map(),
                        tick_views,
                        t0,
                    ),
                    old(self).present_map(),
                    tick_views[t0],
                ));
                lemma_ticks_delivered(
                    old(self).target() as int,
                    old(self).tick_len() as int,
                    t as int,
                );
            }
            match o {
                TickOutcome::Complete(m, _) => {
                    return (m, t);
                },
                _ => {},
            }
        }
    }
}

/// Folding ticks never changes the matrix's row count: one row per
/// adapter, however many ticks ran.
pub proof fn lemma_matrix_width(
    init: Seq<Seq<u64>>,
    present: Seq<bool>,
    ticks: Seq<Seq<PollOutcome>>,
    k: int,
)
    ensures
        matrix_after_ticks(init, present, ticks, k).len() == init.len(),
    decreases k,
{
    if k > 0 {
        lemma_matrix_width(init, present, ticks, k - 1);
    }
}

/// While every read is valid, a present adapter's series grows by exactly
/// one value per tick — so a completed session delivers one sample per
/// tick — and an absent adapter's series never grows at all.
pub proof fn lemma_series_growth(
    init: Seq<Seq<u64>>,
    present: Seq<bool>,
    ticks: Seq<Seq<PollOutcome>>,
    k: int,
    i: int,
)
    requires
        0 <= i < init.len(),
        0 <= k,
        forall|t: int| 0 <= t < k ==> (#[trigger] ticks[t])[i] is Valid,
    ensures
        matrix_after_ticks(init, present, ticks, k)[i].len() == if present[i] {
            init[i].len() + k
        } else {
            init[i].len() as int
        },
    decreases k,
{
    if k > 0 {
        lemma_series_growth(init, present, ticks, k - 1, i);
        lemma_matrix_width(init, present, ticks, k - 1);
    }
}

/// A session always has exactly one present-map entry and one series per
/// adapter.
pub broadcast proof fn lemma_session_widths(s: SessionState)
    ensures
        (#[trigger] s.present_map()).len() == s.adapter_count(),
        (#[trigger] s.series()).len() == s.adapter_count(),
{
    crate::tracker::lemma_bundle_widths(s.bundle);
}

/// How many ticks a session delivers.
///
/// Each fire advances elapsed time by exactly the tick length, so after
/// `k` ticks the elapsed time is `k·tick`, and `on_tick` completes the
/// session on the first tick where that reaches the target. This lemma
/// pins that tick down: elapsed time reaches the target exactly from tick
/// `ticks_needed(target, tick)` — the ceiling of `target / tick` — on, so
/// the number of ticks delivered is `ticks_needed(target, tick)`, and the
/// elapsed time at completion is at least the target.
pub proof fn lemma_ticks_delivered(target: int, tick: int, k: int)
    requires
        0 < tick <= target,
        0 <= k,
    ensures
        k * tick >= target <==> k >= ticks_needed(target, tick),
        ticks_needed(target, tick) >= 1,
        ticks_needed(target, tick) * tick >= target,
        (ticks_needed(target, tick) - 1) * tick < target,
{
    let n = ticks_needed(target, tick);
    let x = target + tick - 1;
    lemma_fundamental_div_mod(x, tick);
    let r = x % tick;
    assert(x == tick * n + r);
    assert(0 <= r < tick) by {
        vstd::arithmetic::div_mod::lemma_mod_bound(x, tick);
    }
    assert(n * tick == tick * n) by {
        vstd::arithmetic::mul::lemma_mul_is_commutative(n, tick);
    }
    assert(n * tick == target + tick - 1 - r);
    assert(n * tick >= target);
    assert((n - 1) * tick == n * tick - tick) by {
        vstd::arithmetic::mul::lemma_mul_is_distributive_sub_other_way(tick, n, 1);
    }
    assert((n - 1) * tick < target);
    assert(n >= 1) by (nonlinear_arith)
        requires
            n * tick >= target,
            tick > 0,
            target > 0,
    ;
    if k >= n {
        lemma_mul_inequality(n, k, tick);
        assert(k * tick >= target);
    }
    if k <= n - 1 {
        lemma_mul_inequality(k, n - 1, tick);
        assert(k * tick < target);
    }
}

/// Resolves what the completion channel carried back to the blocked
/// caller. A session whose owning scheduling context was torn down before
/// the target elapsed never sends a matrix; the caller is unblocked with
/// `SessionAbandoned` — a distinct outcome from a completed session whose
/// series happen to be empty, and never silently treated as zero samples.
pub fn resolve_completion(delivery: Option<SampleMatrix>) -> (r: Result<
    SampleMatrix,
    SessionError,
>)
    ensures
        delivery matches Some(m) ==> (r matches Ok(out) && out == m),
        delivery is None ==> r == Err::<SampleMatrix, SessionError>(SessionError::SessionAbandoned),
{
    match delivery {
        Some(m) => Ok(m),
        None => Err(SessionError::SessionAbandoned),
    }
}

} // verus!
