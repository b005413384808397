//! Deltas of a bounded, monotonically increasing counter that may wrap around.
//!
//! Convention: the counter takes the values `0..=max_value` and wraps from
//! `max_value` to `0` in one step. A sample lower than its predecessor is read
//! as exactly one wrap, so the corrected delta is
//! `(max_value - previous) + current + 1`.

use vstd::arithmetic::div_mod::lemma_mod_multiples_vanish;
use vstd::prelude::*;

verus! {

/// The outcome of feeding one sample to a [`CounterDiff`].
#[derive(Clone, Copy, Debug, PartialEq, Eq, Structural)]
pub enum CounterDiffUpdate {
    /// No previous sample existed: there is no delta yet.
    FirstTime,
    /// The counter advanced without wrapping.
    Difference(u64),
    /// The counter went past its maximum; the delta accounts for the wrap.
    CorrectedDifference(u64),
}

/// State of a counter reader: the counter's maximum and the last sample seen.
#[derive(Clone, Copy, Debug, PartialEq, Eq, Structural)]
pub struct CounterDiff {
    pub max_value: u64,
    pub previous_value: Option<u64>,
}

/// The delta between two consecutive samples of a counter that wraps after `max`.
pub open spec fn delta(max: u64, prev: u64, cur: u64) -> int {
    if cur >= prev {
        cur - prev
    } else {
        (max - prev) + cur + 1
    }
}

/// What one sample yields, given the sample before it (if any).
pub open spec fn update_of(max: u64, prev: Option<u64>, cur: u64) -> CounterDiffUpdate {
    match prev {
        None => CounterDiffUpdate::FirstTime,
        Some(p) => if cur >= p {
            CounterDiffUpdate::Difference((cur - p) as u64)
        } else {
            CounterDiffUpdate::CorrectedDifference(((max - p) + cur + 1) as u64)
        },
    }
}

/// The sum of the deltas between consecutive samples.
pub open spec fn delta_sum(max: u64, samples: Seq<u64>) -> int
    decreases samples.len(),
{
    if samples.len() <= 1 {
        0
    } else {
        delta_sum(max, samples.drop_last()) + delta(
            max,
            samples[samples.len() - 2],
            samples[samples.len() - 1],
        )
    }
}

/// How many times the counter wrapped between consecutive samples.
pub open spec fn wrap_count(samples: Seq<u64>) -> int
    decreases samples.len(),
{
    if samples.len() <= 1 {
        0
    } else {
        wrap_count(samples.drop_last()) + if samples[samples.len() - 1] < samples[samples.len()
            - 2] {
            1int
        } else {
            0int
        }
    }
}

impl CounterDiffUpdate {
    /// The delta carried by this update, if any.
    pub open spec fn spec_difference(self) -> Option<u64> {
        match self {
            CounterDiffUpdate::FirstTime => None,
            CounterDiffUpdate::Difference(d) => Some(d),
            CounterDiffUpdate::CorrectedDifference(d) => Some(d),
        }
    }

    /// The delta carried by this update: `None` for the first sample.
    pub fn difference(self) -> (r: Option<u64>)
        ensures
            r == self.spec_difference(),
    {
        match self {
            CounterDiffUpdate::FirstTime => None,
            CounterDiffUpdate::Difference(d) => Some(d),
            CounterDiffUpdate::CorrectedDifference(d) => Some(d),
        }
    }
}

impl CounterDiff {
    /// The stored sample, if any, lies within the counter's range.
    pub open spec fn wf(self) -> bool {
        match self.previous_value {
            Some(p) => p <= self.max_value,
            None => true,
        }
    }

    /// A reader for a counter that wraps after `max_value`, with no sample yet.
    pub fn with_max_value(max_value: u64) -> (r: CounterDiff)
        ensures
            r.max_value == max_value,
            r.previous_value is None,
            r.wf(),
    {
        CounterDiff { max_value, previous_value: None }
    }

    /// Records `new_value` as the latest sample and returns what it adds to
    /// the counter's total: nothing for the first sample, the plain
    /// difference when the counter did not go backwards, and otherwise the
    /// difference corrected for one wrap through `max_value`.
    pub fn update(&mut self, new_value: u64) -> (r: CounterDiffUpdate)
        requires
            old(self).wf(),
            new_value <= old(self).max_value,
        ensures
            final(self).max_value == old(self).max_value,
            final(self).previous_value == Some(new_value),
            final(self).wf(),
            r == update_of(old(self).max_value, old(self).previous_value, new_value),
    {
        let res = match self.previous_value {
            None => CounterDiffUpdate::FirstTime,
            Some(prev) => {
                if new_value >= prev {
                    CounterDiffUpdate::Difference(new_value - prev)
                } else {
                    CounterDiffUpdate::CorrectedDifference(self.max_value - prev + new_value + 1)
                }
            },
        };
        self.previous_value = Some(new_value);
        res
    }
}

/// Every delta is a value between 0 and the counter's maximum.
pub proof fn lemma_delta_bounds(max: u64, prev: u64, cur: u64)
    requires
        prev <= max,
        cur <= max,
    ensures
        0 <= delta(max, prev, cur) <= max,
{
}

/// An update carries the delta between the previous sample and the new one.
pub proof fn lemma_update_is_delta(max: u64, prev: u64, cur: u64)
    requires
        prev <= max,
        cur <= max,
    ensures
        update_of(max, Some(prev), cur).spec_difference() == Some(delta(max, prev, cur) as u64),
{
}

/// For samples within `0..=max`, the deltas add up to the advance from the
/// first sample to the last plus one full cycle of `max + 1` per wrap: the
/// sum equals the total advance modulo the number of values of the counter.
pub proof fn lemma_delta_sum_is_total_advance(max: u64, samples: Seq<u64>)
    requires
        samples.len() >= 1,
        forall|i: int| 0 <= i < samples.len() ==> samples[i] <= max,
    ensures
        delta_sum(max, samples) == samples.last() - samples[0] + wrap_count(samples) * (max + 1),
        0 <= wrap_count(samples) < samples.len(),
    decreases samples.len(),
{
    if samples.len() > 1 {
        let init = samples.drop_last();
        lemma_delta_sum_is_total_advance(max, init);
        let w = wrap_count(init);
        assert(init.last() == samples[samples.len() - 2]);
        assert(init[0] == samples[0]);
        assert((w + 1) * (max + 1) == w * (max + 1) + (max + 1)) by (nonlinear_arith);
    }
}

/// What an update adds to the total of a counter: its difference, or
/// nothing for the first sample.
pub open spec fn added_by(update: CounterDiffUpdate) -> int {
    match update.spec_difference() {
        Some(d) => d as int,
        None => 0,
    }
}

/// The total of what the updates add when `samples` are fed, in order, to a
/// reader that has seen no sample yet.
pub open spec fn updates_sum(max: u64, samples: Seq<u64>) -> int
    decreases samples.len(),
{
    if samples.len() == 0 {
        0
    } else {
        let previous = if samples.len() == 1 {
            None
        } else {
            Some(samples[samples.len() - 2])
        };
        updates_sum(max, samples.drop_last()) + added_by(update_of(max, previous, samples.last()))
    }
}

/// For samples within `0..=max`, what the updates of a fresh reader add up
/// to is the sum of the deltas between consecutive samples.
pub proof fn lemma_updates_sum_is_delta_sum(max: u64, samples: Seq<u64>)
    requires
        forall|i: int| 0 <= i < samples.len() ==> samples[i] <= max,
    ensures
        updates_sum(max, samples) == delta_sum(max, samples),
    decreases samples.len(),
{
    if samples.len() > 0 {
        lemma_updates_sum_is_delta_sum(max, samples.drop_last());
        if samples.len() > 1 {
            let p = samples[samples.len() - 2];
            let c = samples[samples.len() - 1];
            lemma_delta_bounds(max, p, c);
            lemma_update_is_delta(max, p, c);
        }
    }
}

/// For samples within `0..=max`, the sum of the deltas and the advance from
/// the first sample to the last are congruent modulo `max + 1`, the number of
/// values that the counter takes; and so is what the updates of a fresh
/// reader add up to.
pub proof fn lemma_delta_sum_modulo(max: u64, samples: Seq<u64>)
    requires
        samples.len() >= 1,
        forall|i: int| 0 <= i < samples.len() ==> samples[i] <= max,
    ensures
        delta_sum(max, samples) % (max + 1) == (samples.last() - samples[0]) % (max + 1),
        updates_sum(max, samples) % (max + 1) == (samples.last() - samples[0]) % (max + 1),
{
    lemma_updates_sum_is_delta_sum(max, samples);
    lemma_delta_sum_is_total_advance(max, samples);
    let w = wrap_count(samples);
    assert(w * (max + 1) == (max + 1) * w) by (nonlinear_arith);
    lemma_mod_multiples_vanish(w, samples.last() - samples[0], max + 1);
}

} // verus!
