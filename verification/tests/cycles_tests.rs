use reset_bench::cycles::ResetCounter;

#[test]
fn cardinality_is_five() {
    assert_eq!(ResetCounter::cardinality(), 5);
}

#[test]
fn iter_lists_all_variants_in_order() {
    let v = ResetCounter::iter();
    assert_eq!(v.len(), 5);
    assert_eq!(v[0], ResetCounter::PlaceboCounter);
    assert_eq!(v[1], ResetCounter::IfCounter);
    assert_eq!(v[2], ResetCounter::ModuloCounter);
    assert_eq!(v[3], ResetCounter::BooleanMulCounter);
    assert_eq!(v[4], ResetCounter::BooleanWrapCounter);
}

#[test]
fn into_iter_and_as_slice_agree_with_iter() {
    let a = ResetCounter::iter();
    let b = ResetCounter::into_iter();
    let c = ResetCounter::as_slice();
    assert_eq!(a, b);
    assert_eq!(a, c);
}

#[test]
fn from_index_matches_the_order() {
    assert_eq!(ResetCounter::from_index(0), ResetCounter::PlaceboCounter);
    assert_eq!(ResetCounter::from_index(1), ResetCounter::IfCounter);
    assert_eq!(ResetCounter::from_index(2), ResetCounter::ModuloCounter);
    assert_eq!(ResetCounter::from_index(3), ResetCounter::BooleanMulCounter);
    assert_eq!(ResetCounter::from_index(4), ResetCounter::BooleanWrapCounter);
}

#[test]
fn names_match_the_variants() {
    assert_eq!(ResetCounter::PlaceboCounter.to_string(), "Placebo");
    assert_eq!(ResetCounter::IfCounter.to_string(), "IfCounter");
    assert_eq!(ResetCounter::ModuloCounter.to_string(), "ModuloCounter");
    assert_eq!(ResetCounter::BooleanMulCounter.to_string(), "BooleanMulCounter");
    assert_eq!(ResetCounter::BooleanWrapCounter.to_string(), "BooleanWrapCounter");
}

#[test]
fn placebo_always_resets_to_zero() {
    let f = ResetCounter::PlaceboCounter.get_reset_func();
    assert_eq!(f.apply(0, 3), 0);
    assert_eq!(f.apply(2, 3), 0);
    assert_eq!(f.apply(7, 3), 0);
}

#[test]
fn if_counter_resets_at_the_threshold() {
    let f = ResetCounter::IfCounter.get_reset_func();
    assert_eq!(f.apply(2, 3), 2);
    assert_eq!(f.apply(3, 3), 0);
    assert_eq!(f.apply(7, 3), 0);
}

#[test]
fn modulo_counter_takes_the_remainder() {
    let f = ResetCounter::ModuloCounter.get_reset_func();
    assert_eq!(f.apply(2, 3), 2);
    assert_eq!(f.apply(3, 3), 0);
    assert_eq!(f.apply(7, 3), 1);
}

#[test]
fn boolean_mul_counter_resets_at_the_threshold() {
    let f = ResetCounter::BooleanMulCounter.get_reset_func();
    assert_eq!(f.apply(2, 3), 2);
    assert_eq!(f.apply(3, 3), 0);
    assert_eq!(f.apply(7, 3), 0);
}

#[test]
fn boolean_wrap_counter_resets_at_the_threshold() {
    let f = ResetCounter::BooleanWrapCounter.get_reset_func();
    assert_eq!(f.apply(2, 3), 2);
    assert_eq!(f.apply(3, 3), 0);
    assert_eq!(f.apply(7, 3), 0);
}

#[test]
fn strategies_agree_while_the_counter_stays_in_range() {
    // Up to and including the threshold, every strategy but the placebo
    // computes the same reset value.
    let reset_num: usize = 5;
    for idx in 0..=reset_num {
        let expected = if idx >= reset_num { 0 } else { idx };
        for counter in ResetCounter::iter() {
            if counter == ResetCounter::PlaceboCounter {
                continue;
            }
            let f = counter.get_reset_func();
            assert_eq!(f.apply(idx, reset_num), expected);
        }
    }
}
