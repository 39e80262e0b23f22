//! The work each of the two threads does on its own counter, a model of a
//! whole run, and the averaging of the measured times.
use std::sync::atomic::{AtomicU64, Ordering};
use vstd::prelude::*;

verus! {

/// Increments each worker performs in one run.
pub const NUM_ITERATIONS: u64 = 100_000_000;

/// Timed runs per layout.
pub const NUM_RUNS: usize = 3;

/// Adds one to `counter`, `iterations` times, each an atomic relaxed add,
/// and returns how many adds it issued.
pub fn increment_relaxed(counter: &AtomicU64, iterations: u64) -> (issued: u64)
    ensures
        issued == iterations,
{
    let mut issued: u64 = 0;
    while issued < iterations
        invariant
            issued <= iterations,
        decreases iterations - issued,
    {
        counter.fetch_add(1, Ordering::Relaxed);
        issued = issued + 1;
    }
    issued
}

/// The two counters after a run whose atomic adds happened in the order
/// `steps`: `true` is an add by the first worker on the first counter,
/// `false` one by the second worker on the second counter. Both start at
/// zero.
pub open spec fn run_outcome(steps: Seq<bool>) -> (nat, nat)
    decreases steps.len(),
{
    if steps.len() == 0 {
        (0, 0)
    } else {
        let (c1, c2) = run_outcome(steps.drop_last());
        if steps.last() {
            (c1 + 1, c2)
        } else {
            (c1, c2 + 1)
        }
    }
}

/// How many of `steps` the given worker performed.
pub open spec fn steps_by(steps: Seq<bool>, first: bool) -> nat {
    steps.filter(|s: bool| s == first).len()
}

/// Each counter ends at the number of adds its own worker made, whatever
/// the interleaving.
pub proof fn lemma_outcome_counts_own_steps(steps: Seq<bool>)
    ensures
        run_outcome(steps) == (steps_by(steps, true), steps_by(steps, false)),
    decreases steps.len(),
{
    reveal(Seq::filter);
    if steps.len() > 0 {
        lemma_outcome_counts_own_steps(steps.drop_last());
    }
}

/// When each worker makes `iterations` adds, both counters end at exactly
/// `iterations`, in every interleaving of the two workers.
pub proof fn lemma_run_reaches_iterations(steps: Seq<bool>, iterations: nat)
    requires
        steps_by(steps, true) == iterations,
        steps_by(steps, false) == iterations,
    ensures
        run_outcome(steps) == (iterations, iterations),
{
    lemma_outcome_counts_own_steps(steps);
}

/// Two runs, each on fresh counters and each with `iterations` adds per
/// worker, end with the same counter values, whatever order their adds
/// took.
pub proof fn lemma_runs_agree(first_run: Seq<bool>, second_run: Seq<bool>, iterations: nat)
    requires
        steps_by(first_run, true) == iterations,
        steps_by(first_run, false) == iterations,
        steps_by(second_run, true) == iterations,
        steps_by(second_run, false) == iterations,
    ensures
        run_outcome(first_run) == run_outcome(second_run),
{
    lemma_run_reaches_iterations(first_run, iterations);
    lemma_run_reaches_iterations(second_run, iterations);
}

/// Sum of the durations in `samples`.
pub open spec fn sum_of(samples: Seq<u64>) -> int
    decreases samples.len(),
{
    if samples.len() == 0 {
        0
    } else {
        sum_of(samples.drop_last()) + samples.last()
    }
}

proof fn lemma_prefix_sum_bounded(samples: Seq<u64>, i: int)
    requires
        0 <= i <= samples.len(),
    ensures
        0 <= sum_of(samples.take(i)) <= sum_of(samples),
    decreases samples.len(),
{
    if samples.len() > 0 {
        if i == samples.len() {
            assert(samples.take(i) =~= samples);
            lemma_prefix_sum_bounded(samples.drop_last(), i - 1);
            assert(samples.drop_last().take(i - 1) =~= samples.drop_last());
        } else {
            lemma_prefix_sum_bounded(samples.drop_last(), i);
            assert(samples.drop_last().take(i) =~= samples.take(i));
        }
    }
}

/// Mean of the measured durations, in nanoseconds, rounded down.
pub fn mean_nanos(samples: &Vec<u64>) -> (r: u64)
    requires
        samples.len() > 0,
        sum_of(samples@) <= u64::MAX,
    ensures
        r == sum_of(samples@) / (samples.len() as int),
{
    let mut total: u64 = 0;
    let mut i: usize = 0;
    while i < samples.len()
        invariant
            i <= samples.len(),
            total == sum_of(samples@.take(i as int)),
            sum_of(samples@) <= u64::MAX,
        decreases samples.len() - i,
    {
        proof {
            lemma_prefix_sum_bounded(samples@, i + 1);
            assert(samples@.take(i + 1).drop_last() =~= samples@.take(i as int));
        }
        total = total + samples[i];
        i = i + 1;
    }
    proof {
        assert(samples@.take(i as int) =~= samples@);
    }
    total / (samples.len() as u64)
}

} // verus!
