use reset_bench::cycles::ResetCounter;
use reset_bench::timing::{gen_all_outer_samples, gen_metric_sample_dist, outer_cycle_sample,
    run_cycle_tests, run_inner_cycle_test, run_outer_cycle_test};

#[test]
fn inner_test_returns_one_sample_per_iteration() {
    let times = run_inner_cycle_test(10, 1, 3, ResetCounter::ModuloCounter);
    assert_eq!(times.len(), 10);
}

#[test]
fn outer_test_returns_one_sample_per_pass() {
    let times = run_outer_cycle_test(8, 4, 1, 3, ResetCounter::IfCounter);
    assert_eq!(times.len(), 8);
}

#[test]
fn outer_sample_of_nothing_is_zero() {
    let total = outer_cycle_sample(0, 4, 1, 3, ResetCounter::BooleanWrapCounter);
    assert_eq!(total, 0);
}

#[test]
fn cycle_tests_cover_every_strategy() {
    let (inner, outer) = run_cycle_tests(6, 3, 1, 2);
    assert_eq!(inner.len(), ResetCounter::cardinality());
    assert_eq!(outer.len(), ResetCounter::cardinality());
    for series in inner.iter().chain(outer.iter()) {
        assert_eq!(series.len(), 6);
    }
}

#[test]
fn sample_dist_has_the_requested_length() {
    let dist = gen_metric_sample_dist(5, 2, 3, 1, ResetCounter::PlaceboCounter);
    assert_eq!(dist.len(), 5);
}

#[test]
fn all_outer_samples_cover_every_strategy() {
    let dists = gen_all_outer_samples(4, 2, 3, 1);
    assert_eq!(dists.len(), ResetCounter::cardinality());
    for d in dists.iter() {
        assert_eq!(d.len(), 4);
    }
}
