use reset_bench::bins::{construct_bin_vec, fill_bin_vec, find_max_frequency, first_nonzero_bin,
    is_binvec_empty, Bin};
use reset_bench::stats::{max_2d_vec, mean, normal_dist};

#[test]
fn new_bin_is_empty() {
    let b = Bin::new(4, 9);
    assert_eq!(b.start, 4);
    assert_eq!(b.end, 9);
    assert_eq!(b.count, 0);
}

#[test]
fn contains_is_half_open() {
    let b = Bin::new(4, 9);
    assert!(!b.contains(3));
    assert!(b.contains(4));
    assert!(b.contains(8));
    assert!(!b.contains(9));
}

#[test]
fn insert_or_accepts_only_in_range() {
    let mut b = Bin::new(4, 9);
    assert!(b.insert_or(5).is_ok());
    let e = b.insert_or(9);
    assert_eq!(e.unwrap_err(), "Not contained in this bin's range");
    // The count is not touched either way.
    assert_eq!(b.count, 0);
}

#[test]
fn construct_bin_vec_uniform_ranges() {
    let dist: Vec<usize> = vec![];
    let bins = construct_bin_vec(0, 10, 5, &dist);
    assert_eq!(bins.len(), 5);
    for (i, b) in bins.iter().enumerate() {
        assert_eq!(b.start, 2 * i);
        assert_eq!(b.end, 2 * (i + 1));
        assert_eq!(b.count, 0);
    }
}

#[test]
fn construct_bin_vec_rounds_the_width_up() {
    let dist: Vec<usize> = vec![];
    let bins = construct_bin_vec(0, 10, 3, &dist);
    assert_eq!(bins.len(), 3);
    assert_eq!(bins[0].start, 0);
    assert_eq!(bins[0].end, 4);
    assert_eq!(bins[1].end, 8);
    assert_eq!(bins[2].end, 12);
}

#[test]
fn construct_bin_vec_counts_by_first_reaching_end() {
    let dist: Vec<usize> = vec![0, 1, 2, 3, 10, 11];
    let bins = construct_bin_vec(0, 10, 5, &dist);
    // A value goes to the first bin whose end is at least the value, so 2
    // still lands in the first bin and 11 is beyond every end and dropped.
    let counts: Vec<usize> = bins.iter().map(|b| b.count).collect();
    assert_eq!(counts, vec![3, 1, 0, 0, 1]);
}

#[test]
fn construct_bin_vec_with_no_bins_is_empty() {
    let dist: Vec<usize> = vec![1, 2, 3];
    let bins = construct_bin_vec(0, 10, 0, &dist);
    assert!(bins.is_empty());
}

#[test]
fn fill_bin_vec_adds_to_existing_counts() {
    let mut bins = vec![Bin::new(0, 2), Bin::new(2, 4)];
    let first: Vec<usize> = vec![1, 3];
    fill_bin_vec(&mut bins, &first);
    assert_eq!(bins[0].count, 1);
    assert_eq!(bins[1].count, 1);
    let second: Vec<usize> = vec![0, 2, 4, 5];
    fill_bin_vec(&mut bins, &second);
    // 0 and 2 land in the first bin, 4 in the second, 5 is dropped.
    assert_eq!(bins[0].count, 3);
    assert_eq!(bins[1].count, 2);
}

#[test]
fn find_max_frequency_picks_the_largest_count() {
    let mut bins = vec![Bin::new(0, 2), Bin::new(2, 4), Bin::new(4, 6)];
    bins[0].count = 2;
    bins[1].count = 7;
    bins[2].count = 4;
    assert_eq!(find_max_frequency(&bins), 7);
    let empty: Vec<Bin> = vec![];
    assert_eq!(find_max_frequency(&empty), 0);
}

#[test]
fn first_nonzero_bin_gives_its_start() {
    let mut bins = vec![Bin::new(0, 2), Bin::new(2, 4), Bin::new(4, 6)];
    bins[1].count = 3;
    assert_eq!(first_nonzero_bin(&bins), 2);
    let silent = vec![Bin::new(5, 6)];
    assert_eq!(first_nonzero_bin(&silent), 0);
}

#[test]
fn is_binvec_empty_checks_every_count() {
    let mut bins = vec![Bin::new(0, 2), Bin::new(2, 4)];
    assert!(is_binvec_empty(&bins));
    bins[1].count = 1;
    assert!(!is_binvec_empty(&bins));
}

#[test]
fn mean_gives_weighted_sum_and_total() {
    let mut bins = vec![Bin::new(0, 10), Bin::new(10, 30)];
    bins[0].count = 2;
    bins[1].count = 3;
    // Half-widths are 5 and 10: 2 * 5 + 3 * 10 = 40 over 5 samples.
    let (weighted, total) = mean(&bins);
    assert_eq!(weighted, 40);
    assert_eq!(total, 5);
}

#[test]
fn max_2d_vec_finds_the_grid_maximum() {
    let grid: Vec<Vec<u32>> = vec![vec![1, 5], vec![3, 2]];
    assert_eq!(max_2d_vec(&grid), 5);
    let none: Vec<Vec<u32>> = vec![];
    assert_eq!(max_2d_vec(&none), 0);
}

#[test]
fn normal_dist_builds_eight_buckets() {
    let boundaries: Vec<usize> = vec![10, 20, 30, 40, 50, 60, 70];
    let bins = normal_dist(&boundaries);
    assert_eq!(bins.len(), 8);
    assert_eq!(bins[0].start, 0);
    assert_eq!(bins[0].end, 10);
    for i in 1..7 {
        assert_eq!(bins[i].start, boundaries[i - 1]);
        assert_eq!(bins[i].end, boundaries[i]);
    }
    assert_eq!(bins[7].start, 70);
    assert_eq!(bins[7].end, usize::MAX);
    assert!(is_binvec_empty(&bins));
}
