//! A per-adapter performance-counter source.
//!
//! One source stands for one counter query, scoped to a process id and,
//! optionally, one GPU adapter. The operating system's counter subsystem is
//! polled at the process edge; what reaches this module is the outcome of
//! one poll: the fresh utilization value of every matched 3D-engine
//! instance, in hundredths of a percent, or the report that the data was
//! invalid. The source itself tracks the query's lifecycle — opened,
//! primed, closed — and turns a poll into a single summed reading.

use vstd::prelude::*;

use crate::errors::CounterError;
use crate::samples::sum_seq;

verus! {

/// Highest value one matched engine instance reports: 100%, in hundredths.
pub const MAX_INSTANCE_CENTI: u64 = 10000;

/// Most engine instances one poll may match. A machine limit: it keeps the
/// summed reading of one adapter inside `u64`.
pub const MAX_INSTANCES: usize = 0x10_0000;

/// What one poll of the counter subsystem produced.
#[derive(Debug)]
pub enum PollOutcome {
    /// One fresh utilization value per matched engine instance, in
    /// hundredths of a percent.
    Valid(Vec<u64>),
    /// The subsystem reported invalid or stale data on this poll.
    Invalid,
}

/// The values a valid poll may carry: each engine instance reports at most
/// 100%, and the number of matched instances is bounded so that their sum
/// fits the sample type.
pub open spec fn instances_in_range(vs: Seq<u64>) -> bool {
    &&& vs.len() <= MAX_INSTANCES
    &&& forall|i: int| 0 <= i < vs.len() ==> vs[i] <= MAX_INSTANCE_CENTI
}

/// Range condition on a whole poll outcome; trivial for an invalid poll.
pub open spec fn poll_in_range(p: PollOutcome) -> bool {
    match p {
        PollOutcome::Valid(vs) => instances_in_range(vs@),
        PollOutcome::Invalid => true,
    }
}

/// A sequence whose elements are bounded by `b` sums to at most `len · b`.
pub proof fn lemma_sum_seq_bound(s: Seq<u64>, b: int)
    requires
        forall|i: int| 0 <= i < s.len() ==> s[i] <= b,
    ensures
        0 <= sum_seq(s) <= s.len() * b,
    decreases s.len(),
{
    if s.len() == 0 {
    } else {
        lemma_sum_seq_bound(s.drop_last(), b);
        assert((s.len() - 1) * b + b == s.len() * b) by (nonlinear_arith);
    }
}

/// Sums the per-instance values of one poll. Multiple engine instances for
/// the same adapter each report up to 100% and are summed, not averaged,
/// so one reading may exceed 100%.
pub fn sum_instances(vs: &Vec<u64>) -> (total: u64)
    requires
        instances_in_range(vs@),
    ensures
        total == sum_seq(vs@),
{
    let mut total: u64 = 0;
    let mut i: usize = 0;
    while i < vs.len()
        invariant
            instances_in_range(vs@),
            0 <= i <= vs@.len(),
            total == sum_seq(vs@.take(i as int)),
            total <= i * MAX_INSTANCE_CENTI,
        decreases vs@.len() - i,
    {
        total = total + vs[i];
        i = i + 1;
        proof {
            assert(vs@.take(i as int).drop_last() =~= vs@.take(i - 1));
        }
    }
    proof {
        assert(vs@.take(vs@.len() as int) =~= vs@);
    }
    total
}

/// One performance-counter query for a (process, adapter) pair.
#[derive(Clone, Copy, Debug, PartialEq, Eq, Structural)]
pub struct CounterSource {
    primed: bool,
    closed: bool,
}

impl CounterSource {
    /// Whether the one discard-sample collection has been performed.
    pub closed spec fn is_primed(&self) -> bool {
        self.primed
    }

    /// Whether the query has been released.
    pub closed spec fn is_closed(&self) -> bool {
        self.closed
    }

    /// Opens a source from the outcome of resolving the counter path for
    /// the (process, adapter) pair at the process edge. An unresolved path
    /// — the process currently performs no 3D-engine work on that adapter —
    /// is the expected, non-fatal `CounterUnavailable` condition.
    pub fn open(path_resolved: bool) -> (r: Result<CounterSource, CounterError>)
        ensures
            path_resolved ==> (r matches Ok(c) && !c.is_primed() && !c.is_closed()),
            !path_resolved ==> r == Err::<CounterSource, CounterError>(
                CounterError::CounterUnavailable,
            ),
    {
        if path_resolved {
            Ok(CounterSource { primed: false, closed: false })
        } else {
            Err(CounterError::CounterUnavailable)
        }
    }

    /// Records the one discard-sample collection, so that the first real
    /// reading is not a cold-start artifact. Must be called once before the
    /// first `read`.
    pub fn prime(&mut self)
        requires
            !old(self).is_closed(),
        ensures
            final(self).is_primed(),
            !final(self).is_closed(),
    {
        self.primed = true;
    }

    /// Turns one poll into this source's reading: the sum of the matched
    /// engine instances' percentages, in `[0, 100·k]` hundredths for `k`
    /// matched instances. Fails with `CounterReadFailed` on an invalid
    /// poll, and with `CounterClosed` once the query has been released.
    pub fn read(&self, poll: &PollOutcome) -> (r: Result<u64, CounterError>)
        requires
            self.is_primed(),
            poll_in_range(*poll),
        ensures
            self.is_closed() ==> r == Err::<u64, CounterError>(CounterError::CounterClosed),
            !self.is_closed() ==> ((*poll) matches PollOutcome::Invalid ==> r == Err::<
                u64,
                CounterError,
            >(CounterError::CounterReadFailed)),
            !self.is_closed() ==> ((*poll) matches PollOutcome::Valid(vs) ==> ({
                &&& r == Ok::<u64, CounterError>(sum_seq(vs@) as u64)
                &&& 0 <= sum_seq(vs@) <= vs@.len() * MAX_INSTANCE_CENTI
            })),
    {
        if self.closed {
            Err(CounterError::CounterClosed)
        } else {
            match poll {
                PollOutcome::Valid(vs) => {
                    proof {
                        lemma_sum_seq_bound(vs@, MAX_INSTANCE_CENTI as int);
                    }
                    Ok(sum_instances(vs))
                },
                PollOutcome::Invalid => Err(CounterError::CounterReadFailed),
            }
        }
    }

    /// Releases the query; subsequent reads fail with `CounterClosed`.
    pub fn close(&mut self)
        ensures
            final(self).is_closed(),
            final(self).is_primed() == old(self).is_primed(),
    {
        self.closed = true;
    }
}

} // verus!
