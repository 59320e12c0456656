//! The benchmark loops: run a reset strategy under the clock and collect the
//! elapsed-time samples.
//!
//! A clock reading depends on the machine and the moment, so nothing is
//! promised about the sampled values beyond how many there are and the
//! documented bound on a single reading; what the loops do to the counter is
//! verified against each strategy's reset rule.

use vstd::prelude::*;

use crate::cycles::ResetCounter;

verus! {

/// A nanosecond count read out of a `Duration` can never exceed this: the
/// seconds part of a `Duration` is a `u64` and the fractional part stays
/// below one billion nanoseconds.
pub open spec fn max_duration_nanos() -> int {
    u64::MAX * 1_000_000_000 + 999_999_999
}

#[verifier::external_type_specification]
#[verifier::external_body]
pub struct ExInstant(std::time::Instant);

/// Relies on std::time::Instant::now: a reading of the monotonic clock, about
/// whose value nothing can be said.
pub assume_specification[ std::time::Instant::now ]() -> std::time::Instant;

/// Relies on std::time::Instant::elapsed: the time since `start` as a
/// `Duration`, decided by the clock.
pub assume_specification[ std::time::Instant::elapsed ](start: &std::time::Instant) -> core::time::Duration;

/// Relies on core::time::Duration::as_nanos: the whole duration in
/// nanoseconds. A `Duration` holds whole seconds as a `u64` and a fractional
/// part below one billion nanoseconds, so the result is bounded accordingly.
pub assume_specification[ core::time::Duration::as_nanos ](d: &core::time::Duration) -> (n: u128)
    ensures
        n <= max_duration_nanos(),
;

/// Whether a run of one of the timing loops below keeps its counter within
/// `usize` whatever the strategy: the modulo strategy needs a positive
/// threshold, and one increment above a reset value must still fit.
pub open spec fn cycle_test_inputs_ok(
    increment_amt: usize,
    reset_num: usize,
    counter_type: ResetCounter,
) -> bool {
    &&& (counter_type is ModuloCounter ==> reset_num > 0)
    &&& increment_amt + reset_num <= usize::MAX
}

/// Time each iteration of the reset loop on its own: increment the counter,
/// reset it by the strategy's rule, and record how long the iteration took.
/// One clock sample comes back for each of the `num_iters` iterations.
pub fn run_inner_cycle_test(
    num_iters: usize,
    increment_amt: usize,
    reset_num: usize,
    counter_type: ResetCounter,
) -> (times: Vec<u128>)
    requires
        cycle_test_inputs_ok(increment_amt, reset_num, counter_type),
    ensures
        times@.len() == num_iters,
        forall|i: int| 0 <= i < times@.len() ==> #[trigger] times@[i] <= max_duration_nanos(),
{
    let reset_func = counter_type.get_reset_func();
    let mut counter: usize = 0;
    let mut times: Vec<u128> = Vec::with_capacity(num_iters);
    for k in 0..num_iters
        invariant
            cycle_test_inputs_ok(increment_amt, reset_num, counter_type),
            reset_func.strategy == counter_type,
            counter == 0 || counter < reset_num,
            times@.len() == k,
            forall|i: int| 0 <= i < times@.len() ==> #[trigger] times@[i] <= max_duration_nanos(),
    {
        let start = std::time::Instant::now();
        counter = counter + increment_amt;
        counter = reset_func.apply(counter, reset_num);
        times.push(start.elapsed().as_nanos());
    }
    times
}

/// Time whole passes of the reset loop: each of the `num_outer_iters` samples
/// is the time one run of `num_inner_iters` increment-and-reset steps took.
pub fn run_outer_cycle_test(
    num_outer_iters: usize,
    num_inner_iters: usize,
    increment_amt: usize,
    reset_num: usize,
    counter_type: ResetCounter,
) -> (times: Vec<u128>)
    requires
        cycle_test_inputs_ok(increment_amt, reset_num, counter_type),
    ensures
        times@.len() == num_outer_iters,
        forall|i: int| 0 <= i < times@.len() ==> #[trigger] times@[i] <= max_duration_nanos(),
{
    let reset_func = counter_type.get_reset_func();
    let mut counter: usize = 0;
    let mut times: Vec<u128> = Vec::with_capacity(num_outer_iters);
    for k in 0..num_outer_iters
        invariant
            cycle_test_inputs_ok(increment_amt, reset_num, counter_type),
            reset_func.strategy == counter_type,
            counter == 0 || counter < reset_num,
            times@.len() == k,
            forall|i: int| 0 <= i < times@.len() ==> #[trigger] times@[i] <= max_duration_nanos(),
    {
        let start = std::time::Instant::now();
        for _j in 0..num_inner_iters
            invariant
                cycle_test_inputs_ok(increment_amt, reset_num, counter_type),
                reset_func.strategy == counter_type,
                counter == 0 || counter < reset_num,
        {
            counter = counter + increment_amt;
            counter = reset_func.apply(counter, reset_num);
        }
        times.push(start.elapsed().as_nanos());
    }
    times
}

/// One sampled statistic of the outer test: the total time, in nanoseconds,
/// that `num_outer_iters` passes of the inner reset loop took. The sample's
/// mean is this total divided by `num_outer_iters`.
pub fn outer_cycle_sample(
    num_outer_iters: usize,
    num_inner_iters: usize,
    increment_amt: usize,
    reset_num: usize,
    counter_type: ResetCounter,
) -> (total: u128)
    requires
        cycle_test_inputs_ok(increment_amt, reset_num, counter_type),
        num_outer_iters * max_duration_nanos() <= u128::MAX,
    ensures
        total <= num_outer_iters * max_duration_nanos(),
{
    let reset_func = counter_type.get_reset_func();
    let mut counter: usize = 0;
    let mut time_sum: u128 = 0;
    for k in 0..num_outer_iters
        invariant
            cycle_test_inputs_ok(increment_amt, reset_num, counter_type),
            num_outer_iters * max_duration_nanos() <= u128::MAX,
            reset_func.strategy == counter_type,
            counter == 0 || counter < reset_num,
            time_sum <= k * max_duration_nanos(),
    {
        let start = std::time::Instant::now();
        for _j in 0..num_inner_iters
            invariant
                cycle_test_inputs_ok(increment_amt, reset_num, counter_type),
                reset_func.strategy == counter_type,
                counter == 0 || counter < reset_num,
        {
            counter = counter + increment_amt;
            counter = reset_func.apply(counter, reset_num);
        }
        proof {
            vstd::arithmetic::mul::lemma_mul_inequality(
                k as int + 1,
                num_outer_iters as int,
                max_duration_nanos(),
            );
            vstd::arithmetic::mul::lemma_mul_is_distributive_add_other_way(
                max_duration_nanos(),
                k as int,
                1,
            );
            vstd::arithmetic::mul::lemma_mul_basics(max_duration_nanos());
        }
        time_sum = time_sum + start.elapsed().as_nanos();
    }
    time_sum
}

/// Run the inner and the outer timing test for every strategy, in the fixed
/// strategy order: one vector of per-iteration samples and one of per-pass
/// samples for each strategy.
pub fn run_cycle_tests(
    num_outer_iters: usize,
    num_inner_iters: usize,
    increment_amt: usize,
    reset_num: usize,
) -> (r: (Vec<Vec<u128>>, Vec<Vec<u128>>))
    requires
        reset_num > 0,
        increment_amt + reset_num <= usize::MAX,
    ensures
        r.0@.len() == ResetCounter::all_variants().len(),
        r.1@.len() == ResetCounter::all_variants().len(),
        forall|i: int| 0 <= i < r.0@.len() ==> (#[trigger] r.0@[i])@.len() == num_outer_iters,
        forall|i: int| 0 <= i < r.1@.len() ==> (#[trigger] r.1@[i])@.len() == num_outer_iters,
{
    let methods = ResetCounter::into_iter();
    let mut all_inner_times: Vec<Vec<u128>> = Vec::with_capacity(methods.len());
    let mut all_outer_times: Vec<Vec<u128>> = Vec::with_capacity(methods.len());
    let n = methods.len();
    for m in 0..n
        invariant
            n == ResetCounter::all_variants().len(),
            methods@ == ResetCounter::all_variants(),
            reset_num > 0,
            increment_amt + reset_num <= usize::MAX,
            all_inner_times@.len() == m,
            forall|i: int|
                0 <= i < m ==> (#[trigger] all_inner_times@[i])@.len() == num_outer_iters,
    {
        all_inner_times.push(
            run_inner_cycle_test(num_outer_iters, increment_amt, reset_num, methods[m]),
        );
    }
    for m in 0..n
        invariant
            n == ResetCounter::all_variants().len(),
            methods@ == ResetCounter::all_variants(),
            reset_num > 0,
            increment_amt + reset_num <= usize::MAX,
            all_inner_times@.len() == n,
            forall|i: int|
                0 <= i < n ==> (#[trigger] all_inner_times@[i])@.len() == num_outer_iters,
            all_outer_times@.len() == m,
            forall|i: int|
                0 <= i < m ==> (#[trigger] all_outer_times@[i])@.len() == num_outer_iters,
    {
        all_outer_times.push(
            run_outer_cycle_test(
                num_outer_iters,
                num_inner_iters,
                increment_amt,
                reset_num,
                methods[m],
            ),
        );
    }
    (all_inner_times, all_outer_times)
}

/// A sampling distribution for the outer test's statistic: `num_samples`
/// totals, each the summed time of one full outer run. Dividing each by
/// `outer_iters` gives the sampled means the harness charts.
pub fn gen_metric_sample_dist(
    num_samples: usize,
    outer_iters: usize,
    inner_iters: usize,
    reset_num: usize,
    counter: ResetCounter,
) -> (sample_dist: Vec<u128>)
    requires
        counter is ModuloCounter ==> reset_num > 0,
        1 + reset_num <= usize::MAX,
        outer_iters * max_duration_nanos() <= u128::MAX,
    ensures
        sample_dist@.len() == num_samples,
        forall|i: int| 0 <= i < sample_dist@.len() ==> #[trigger] sample_dist@[i] <= outer_iters
            * max_duration_nanos(),
{
    let mut sample_dist: Vec<u128> = Vec::with_capacity(num_samples);
    for k in 0..num_samples
        invariant
            counter is ModuloCounter ==> reset_num > 0,
            1 + reset_num <= usize::MAX,
            outer_iters * max_duration_nanos() <= u128::MAX,
            sample_dist@.len() == k,
            forall|i: int| 0 <= i < sample_dist@.len() ==> #[trigger] sample_dist@[i]
                <= outer_iters * max_duration_nanos(),
    {
        sample_dist.push(outer_cycle_sample(outer_iters, inner_iters, 1, reset_num, counter));
    }
    sample_dist
}

/// A sampling distribution of outer-test totals for every strategy, in the
/// fixed strategy order.
pub fn gen_all_outer_samples(
    num_samples: usize,
    outer_iters: usize,
    inner_iters: usize,
    reset_num: usize,
) -> (sampling_dists: Vec<Vec<u128>>)
    requires
        reset_num > 0,
        1 + reset_num <= usize::MAX,
        outer_iters * max_duration_nanos() <= u128::MAX,
    ensures
        sampling_dists@.len() == ResetCounter::all_variants().len(),
        forall|i: int|
            0 <= i < sampling_dists@.len() ==> (#[trigger] sampling_dists@[i])@.len()
                == num_samples,
{
    let methods = ResetCounter::into_iter();
    let mut sampling_dists: Vec<Vec<u128>> = Vec::new();
    let n = methods.len();
    for m in 0..n
        invariant
            n == ResetCounter::all_variants().len(),
            methods@ == ResetCounter::all_variants(),
            reset_num > 0,
            1 + reset_num <= usize::MAX,
            outer_iters * max_duration_nanos() <= u128::MAX,
            sampling_dists@.len() == m,
            forall|i: int|
                0 <= i < m ==> (#[trigger] sampling_dists@[i])@.len() == num_samples,
    {
        sampling_dists.push(
            gen_metric_sample_dist(num_samples, outer_iters, inner_iters, reset_num, methods[m]),
        );
    }
    sampling_dists
}

} // verus!
