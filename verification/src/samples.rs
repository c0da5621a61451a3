//! Sample storage: one ordered series per adapter, gathered into a matrix.

use vstd::prelude::*;

verus! {

/// Sum of a sequence of samples, as a mathematical integer.
pub open spec fn sum_seq(s: Seq<u64>) -> int
    decreases s.len(),
{
    if s.len() == 0 {
        0
    } else {
        sum_seq(s.drop_last()) + s.last()
    }
}

/// One adapter's ordered sequence of utilization samples for a single
/// (process, adapter) pair, one value per tick, in insertion order. Values
/// are percentages in hundredths (2500 is 25.00%). The series grows only by
/// append and is drained exactly once at session completion.
pub struct SampleSeries {
    values: Vec<u64>,
}

impl View for SampleSeries {
    type V = Seq<u64>;

    closed spec fn view(&self) -> Seq<u64> {
        self.values@
    }
}

impl SampleSeries {
    /// An empty series.
    pub fn new() -> (s: SampleSeries)
        ensures
            s@.len() == 0,
    {
        SampleSeries { values: Vec::new() }
    }

    /// Number of samples collected so far.
    pub fn len(&self) -> (n: usize)
        ensures
            n == self@.len(),
    {
        self.values.len()
    }

    /// Whether no sample has been collected.
    pub fn is_empty(&self) -> (b: bool)
        ensures
            b == (self@.len() == 0),
    {
        self.values.len() == 0
    }

    /// The sample of tick `i`.
    pub fn get(&self, i: usize) -> (v: u64)
        requires
            i < self@.len(),
        ensures
            v == self@[i as int],
    {
        self.values[i]
    }

    /// Appends the value of one tick.
    pub fn push(&mut self, v: u64)
        ensures
            final(self)@ == old(self)@.push(v),
    {
        self.values.push(v);
    }

    /// Hands the accumulated samples out and leaves this series empty.
    pub fn take(&mut self) -> (s: SampleSeries)
        ensures
            s@ == old(self)@,
            final(self)@.len() == 0,
    {
        let mut other = SampleSeries::new();
        core::mem::swap(self, &mut other);
        other
    }
}

/// The per-adapter sample series of one completed session, index-aligned
/// with the adapter list the session was started with: row `i` belongs to
/// adapter `i`, and the matrix has exactly one row per adapter, however many
/// adapters had no matching counter.
pub struct SampleMatrix {
    rows: Vec<SampleSeries>,
}

impl View for SampleMatrix {
    type V = Seq<Seq<u64>>;

    closed spec fn view(&self) -> Seq<Seq<u64>> {
        Seq::new(self.rows@.len(), |i: int| self.rows@[i]@)
    }
}

impl SampleMatrix {
    /// Gathers per-adapter rows into a matrix, keeping their order.
    pub fn from_rows(rows: Vec<SampleSeries>) -> (m: SampleMatrix)
        ensures
            m@.len() == rows@.len(),
            forall|i: int| 0 <= i < rows@.len() ==> m@[i] == rows@[i]@,
    {
        SampleMatrix { rows }
    }

    /// Number of rows; equals the number of adapters of the session.
    pub fn len(&self) -> (n: usize)
        ensures
            n == self@.len(),
    {
        self.rows.len()
    }

    /// The series of adapter `i`.
    pub fn row(&self, i: usize) -> (r: &SampleSeries)
        requires
            i < self@.len(),
        ensures
            r@ == self@[i as int],
    {
        &self.rows[i]
    }
}

} // verus!
