//! The tracker bundle: one counter source per adapter.
//!
//! A bundle is built from the per-adapter outcomes of opening a counter
//! source, in adapter order. A slot whose counter could not be opened is
//! recorded as absent — the bundle never fails to construct because one
//! adapter lacks 3D-engine activity for the target process. On each tick
//! the bundle appends one summed reading to every present adapter's series;
//! an absent adapter's series stays empty for the whole session.

use vstd::prelude::*;

use crate::counter::{CounterSource, PollOutcome, poll_in_range};
use crate::errors::{CounterError, TickError};
use crate::samples::{SampleMatrix, SampleSeries, sum_seq};

verus! {

/// Whether every present adapter's reading on one tick was valid.
pub open spec fn all_reads_ok(present: Seq<bool>, readings: Seq<PollOutcome>) -> bool {
    forall|i: int| 0 <= i < present.len() && present[i] ==> readings[i] is Valid
}

/// Whether `j` is the lowest adapter index whose present source's read
/// failed on one tick.
pub open spec fn first_failed_read(present: Seq<bool>, readings: Seq<PollOutcome>, j: int) -> bool {
    &&& 0 <= j < present.len()
    &&& present[j]
    &&& !(readings[j] is Valid)
    &&& forall|k: int| 0 <= k < j && present[k] ==> readings[k] is Valid
}

/// One adapter's series after one tick: a present adapter with a valid
/// reading appends the summed value; an absent adapter, or one whose read
/// failed on this tick, keeps its series unchanged.
pub open spec fn series_after_tick(prev: Seq<u64>, present: bool, reading: PollOutcome) -> Seq<
    u64,
> {
    match reading {
        PollOutcome::Valid(vs) => if present {
            prev.push(sum_seq(vs@) as u64)
        } else {
            prev
        },
        PollOutcome::Invalid => prev,
    }
}

/// All series after one tick, slot by slot.
pub open spec fn matrix_after_tick(
    prev: Seq<Seq<u64>>,
    present: Seq<bool>,
    readings: Seq<PollOutcome>,
) -> Seq<Seq<u64>> {
    Seq::new(prev.len(), |i: int| series_after_tick(prev[i], present[i], readings[i]))
}

/// Draining leaves no residual samples: a tick right after a drain starts
/// every series fresh, at length one exactly where the adapter is present
/// and its read succeeded, and at length zero otherwise.
pub proof fn lemma_fresh_after_drain(present: bool, reading: PollOutcome)
    ensures
        series_after_tick(Seq::<u64>::empty(), present, reading).len() == if present && reading
            is Valid {
            1int
        } else {
            0int
        },
{
}

/// A bundle always has exactly one present-map entry and one series per
/// adapter slot.
pub broadcast proof fn lemma_bundle_widths(b: TrackerBundle)
    ensures
        (#[trigger] b.present_map()).len() == b.adapter_count(),
        (#[trigger] b.series()).len() == b.adapter_count(),
{
}

/// One counter source per adapter (absent where the counter could not be
/// opened) and the per-adapter series accumulated so far.
pub struct TrackerBundle {
    sources: Vec<Option<CounterSource>>,
    samples: Vec<SampleSeries>,
}

impl TrackerBundle {
    /// Number of adapter slots: one per adapter the bundle was built for.
    pub closed spec fn adapter_count(&self) -> nat {
        self.sources@.len()
    }

    /// Which slots hold an open counter source.
    pub closed spec fn present_map(&self) -> Seq<bool> {
        Seq::new(self.sources@.len(), |i: int| self.sources@[i] is Some)
    }

    /// The per-adapter series accumulated so far.
    pub closed spec fn series(&self) -> Seq<Seq<u64>> {
        Seq::new(self.sources@.len(), |i: int| self.samples@[i]@)
    }

    /// Well-formed: one series per slot, an absent adapter's series is
    /// empty, and no present source has been closed.
    pub closed spec fn wf(&self) -> bool {
        &&& self.samples@.len() == self.sources@.len()
        &&& forall|i: int|
            0 <= i < self.sources@.len() && self.sources@[i] is None ==> self.samples@[i]@.len()
                == 0
        &&& forall|i: int|
            0 <= i < self.sources@.len() && self.sources@[i] is Some
                ==> !self.sources@[i]->Some_0.is_closed()
    }

    /// Every present source has been primed by `start`, so reads are allowed.
    pub closed spec fn ready(&self) -> bool {
        forall|i: int|
            0 <= i < self.sources@.len() && self.sources@[i] is Some
                ==> self.sources@[i]->Some_0.is_primed()
    }

    /// Number of adapter slots, at run time.
    pub fn len(&self) -> (n: usize)
        ensures
            n == self.adapter_count(),
    {
        self.sources.len()
    }

    /// Whether slot `i` holds an open counter source, at run time.
    pub fn is_present(&self, i: usize) -> (b: bool)
        requires
            i < self.adapter_count(),
        ensures
            b == self.present_map()[i as int],
    {
        self.sources[i].is_some()
    }

    /// Builds a bundle from the per-adapter open outcomes, in adapter
    /// order. A failure to open is recorded as an absent slot rather than
    /// propagated.
    pub fn new(open_results: Vec<Result<CounterSource, CounterError>>) -> (b: TrackerBundle)
        requires
            forall|i: int|
                0 <= i < open_results@.len() && open_results@[i] is Ok
                    ==> !open_results@[i]->Ok_0.is_closed(),
        ensures
            b.wf(),
            b.adapter_count() == open_results@.len(),
            forall|i: int|
                0 <= i < open_results@.len() ==> (b.present_map()[i] <==> open_results@[i] is Ok),
            forall|i: int| 0 <= i < open_results@.len() ==> b.series()[i].len() == 0,
    {
        let mut sources: Vec<Option<CounterSource>> = Vec::new();
        let mut samples: Vec<SampleSeries> = Vec::new();
        let mut i: usize = 0;
        while i < open_results.len()
            invariant
                0 <= i <= open_results@.len(),
                sources@.len() == i,
                samples@.len() == i,
                forall|j: int|
                    0 <= j < open_results@.len() && open_results@[j] is Ok
                        ==> !open_results@[j]->Ok_0.is_closed(),
                forall|j: int|
                    0 <= j < i ==> (sources@[j] is Some <==> open_results@[j] is Ok),
                forall|j: int|
                    0 <= j < i ==> (sources@[j] is Some ==> !sources@[j]->Some_0.is_closed()),
                forall|j: int| 0 <= j < i ==> samples@[j]@.len() == 0,
            decreases open_results@.len() - i,
        {
            match open_results[i] {
                Ok(c) => sources.push(Some(c)),
                Err(_) => sources.push(None),
            }
            samples.push(SampleSeries::new());
            i = i + 1;
        }
        TrackerBundle { sources, samples }
    }

    /// Primes every present source, so that the first real reading of each
    /// is not a cold-start artifact.
    pub fn start(&mut self)
        requires
            old(self).wf(),
        ensures
            final(self).wf(),
            final(self).ready(),
            final(self).adapter_count() == old(self).adapter_count(),
            final(self).present_map() == old(self).present_map(),
            final(self).series() == old(self).series(),
    {
        let n = self.sources.len();
        let mut i: usize = 0;
        while i < n
            invariant
                0 <= i <= n,
                n == self.sources@.len(),
                self.samples == old(self).samples,
                self.sources@.len() == old(self).sources@.len(),
                forall|j: int|
                    0 <= j < n ==> (self.sources@[j] is Some <==> old(self).sources@[j] is Some),
                forall|j: int|
                    0 <= j < n && self.sources@[j] is Some
                        ==> !self.sources@[j]->Some_0.is_closed(),
                forall|j: int|
                    0 <= j < i && self.sources@[j] is Some
                        ==> self.sources@[j]->Some_0.is_primed(),
                old(self).wf(),
            decreases n - i,
        {
            match self.sources[i] {
                Some(src) => {
                    let mut primed = src;
                    primed.prime();
                    self.sources.set(i, Some(primed));
                },
                None => {},
            }
            i = i + 1;
        }
        proof {
            assert(self.present_map() =~= old(self).present_map());
            assert(self.series() =~= old(self).series());
        }
    }

    /// One aggregation tick over the per-adapter poll outcomes, index-
    /// aligned with the slots: appends each present adapter's summed
    /// reading to its series and skips absent adapters. Fails with
    /// `TickFailed` carrying the lowest failing index if any present
    /// source's read failed; the tick's values of the other adapters are
    /// still appended, and the session as a whole continues.
    pub fn tick(&mut self, readings: &Vec<PollOutcome>) -> (r: Result<(), TickError>)
        requires
            old(self).wf(),
            old(self).ready(),
            readings@.len() == old(self).adapter_count(),
            forall|i: int| 0 <= i < readings@.len() ==> poll_in_range(readings@[i]),
        ensures
            final(self).wf(),
            final(self).ready(),
            final(self).adapter_count() == old(self).adapter_count(),
            final(self).present_map() == old(self).present_map(),
            final(self).series() == matrix_after_tick(
                old(self).series(),
                old(self).present_map(),
                readings@,
            ),
            r is Ok <==> all_reads_ok(old(self).present_map(), readings@),
            r matches Err(TickError::TickFailed(j)) ==> first_failed_read(
                old(self).present_map(),
                readings@,
                j as int,
            ),
    {
        let n = self.samples.len();
        let mut first_fail: Option<usize> = None;
        let mut i: usize = 0;
        while i < n
            invariant
                0 <= i <= n,
                n == self.samples@.len(),
                self.sources == old(self).sources,
                self.samples@.len() == old(self).samples@.len(),
                old(self).wf(),
                old(self).ready(),
                readings@.len() == old(self).adapter_count(),
                forall|k: int| 0 <= k < readings@.len() ==> poll_in_range(readings@[k]),
                forall|j: int|
                    0 <= j < i ==> self.samples@[j]@ == series_after_tick(
                        old(self).samples@[j]@,
                        old(self).present_map()[j],
                        readings@[j],
                    ),
                forall|j: int| i <= j < n ==> self.samples@[j] == old(self).samples@[j],
                first_fail is None ==> (forall|k: int|
                    0 <= k < i && old(self).present_map()[k] ==> readings@[k] is Valid),
                first_fail matches Some(j) ==> j < i && first_failed_read(
                    old(self).present_map(),
                    readings@,
                    j as int,
                ),
            decreases n - i,
        {
            match self.sources[i] {
                Some(src) => {
                    match src.read(&readings[i]) {
                        Ok(v) => {
                            self.samples[i].push(v);
                        },
                        Err(_) => {
                            if first_fail.is_none() {
                                first_fail = Some(i);
                            }
                        },
                    }
                },
                None => {},
            }
            i = i + 1;
        }
        proof {
            assert forall|j: int|
                0 <= j < self.sources@.len() && self.sources@[j] is None implies self.samples@[j]@.len()
                == 0 by {
                assert(old(self).present_map()[j] == false);
                assert(self.samples@[j]@ == series_after_tick(
                    old(self).samples@[j]@,
                    false,
                    readings@[j],
                ));
            }
            assert(self.series() =~= matrix_after_tick(
                old(self).series(),
                old(self).present_map(),
                readings@,
            ));
        }
        match first_fail {
            None => Ok(()),
            Some(j) => Err(TickError::TickFailed(j)),
        }
    }

    /// Returns the accumulated matrix — one row per adapter, in adapter
    /// order, however many adapters had no matching counter — and resets
    /// every series to empty, so the bundle can be reused by a subsequent
    /// session without reconstruction.
    pub fn drain(&mut self) -> (m: SampleMatrix)
        requires
            old(self).wf(),
        ensures
            final(self).wf(),
            final(self).ready() == old(self).ready(),
            final(self).adapter_count() == old(self).adapter_count(),
            final(self).present_map() == old(self).present_map(),
            m@ == old(self).series(),
            m@.len() == old(self).adapter_count(),
            forall|i: int| 0 <= i < final(self).adapter_count() ==> final(self).series()[i].len() == 0,
    {
        let n = self.samples.len();
        let mut rows: Vec<SampleSeries> = Vec::new();
        let mut i: usize = 0;
        while i < n
            invariant
                0 <= i <= n,
                n == self.samples@.len(),
                self.sources == old(self).sources,
                self.samples@.len() == old(self).samples@.len(),
                rows@.len() == i,
                forall|j: int| 0 <= j < i ==> rows@[j]@ == old(self).samples@[j]@,
                forall|j: int| 0 <= j < i ==> self.samples@[j]@.len() == 0,
                forall|j: int| i <= j < n ==> self.samples@[j] == old(self).samples@[j],
                old(self).wf(),
            decreases n - i,
        {
            let row = self.samples[i].take();
            rows.push(row);
            i = i + 1;
        }
        let m = SampleMatrix::from_rows(rows);
        proof {
            assert(m@ =~= old(self).series());
            assert(self.present_map() =~= old(self).present_map());
        }
        m
    }
}

} // verus!
