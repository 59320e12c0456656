//! Summary statistics over histogram bins and raw sample grids.

use vstd::prelude::*;

use crate::bins::Bin;

verus! {

/// Sum over the bins of `count * half-width`, where a bin's half-width is
/// half of `end - start`, rounded down.
pub open spec fn weighted_sum(bins: Seq<Bin>) -> int
    decreases bins.len(),
{
    if bins.len() == 0 {
        0
    } else {
        weighted_sum(bins.drop_last()) + bins.last().count * ((bins.last().end
            - bins.last().start) / 2)
    }
}

/// Sum of the bins' counts.
pub open spec fn total_count(bins: Seq<Bin>) -> int
    decreases bins.len(),
{
    if bins.len() == 0 {
        0
    } else {
        total_count(bins.drop_last()) + bins.last().count
    }
}

/// With every bin's range the right way round, each prefix of the weighted
/// sum and of the total count stays at or below the whole.
proof fn lemma_prefix_sums_le(bins: Seq<Bin>, k: int)
    requires
        0 <= k <= bins.len(),
        forall|i: int| 0 <= i < bins.len() ==> (#[trigger] bins[i]).start <= bins[i].end,
    ensures
        0 <= weighted_sum(bins.subrange(0, k)) <= weighted_sum(bins),
        0 <= total_count(bins.subrange(0, k)) <= total_count(bins),
    decreases bins.len() - k,
{
    if k == bins.len() {
        assert(bins.subrange(0, k) =~= bins);
        lemma_sums_nonneg(bins);
    } else {
        lemma_prefix_sums_le(bins, k + 1);
        let sub1 = bins.subrange(0, k + 1);
        assert(sub1.drop_last() =~= bins.subrange(0, k));
        assert(sub1.last() == bins[k]);
        lemma_sums_nonneg(bins.subrange(0, k));
    }
}

/// Both sums are sums of non-negative terms.
proof fn lemma_sums_nonneg(bins: Seq<Bin>)
    requires
        forall|i: int| 0 <= i < bins.len() ==> (#[trigger] bins[i]).start <= bins[i].end,
    ensures
        weighted_sum(bins) >= 0,
        total_count(bins) >= 0,
    decreases bins.len(),
{
    if bins.len() > 0 {
        assert(bins[bins.len() - 1].start <= bins[bins.len() - 1].end);
        lemma_sums_nonneg(bins.drop_last());
    }
}

/// The two parts of the bins' weighted mean: the sum over the bins of
/// `count * half-width`, and the number of counted samples. The mean itself
/// is the quotient of the two.
pub fn mean(bin_vec: &Vec<Bin>) -> (r: (u128, u128))
    requires
        forall|i: int| 0 <= i < bin_vec@.len() ==> (#[trigger] bin_vec@[i]).start
            <= bin_vec@[i].end,
        weighted_sum(bin_vec@) <= u128::MAX,
        total_count(bin_vec@) <= u128::MAX,
    ensures
        r.0 == weighted_sum(bin_vec@),
        r.1 == total_count(bin_vec@),
{
    let mut weighted: u128 = 0;
    let mut total_inputs: u128 = 0;
    let n = bin_vec.len();
    for k in 0..n
        invariant
            n == bin_vec@.len(),
            forall|i: int| 0 <= i < bin_vec@.len() ==> (#[trigger] bin_vec@[i]).start
                <= bin_vec@[i].end,
            weighted_sum(bin_vec@) <= u128::MAX,
            total_count(bin_vec@) <= u128::MAX,
            weighted == weighted_sum(bin_vec@.subrange(0, k as int)),
            total_inputs == total_count(bin_vec@.subrange(0, k as int)),
    {
        proof {
            lemma_prefix_sums_le(bin_vec@, k as int + 1);
            assert(bin_vec@.subrange(0, k as int + 1).drop_last() =~= bin_vec@.subrange(
                0,
                k as int,
            ));
            assert(bin_vec@.subrange(0, k as int + 1).last() == bin_vec@[k as int]);
        }
        let b = bin_vec[k];
        let half: usize = (b.end - b.start) / 2;
        weighted = weighted + (b.count as u128) * (half as u128);
        total_inputs = total_inputs + (b.count as u128);
    }
    proof {
        assert(bin_vec@.subrange(0, n as int) =~= bin_vec@);
    }
    (weighted, total_inputs)
}

/// The largest value held anywhere in a grid of samples, or zero where the
/// grid has no rows. Every row must be non-empty.
pub fn max_2d_vec(dist: &Vec<Vec<u32>>) -> (m: u32)
    requires
        forall|i: int| 0 <= i < dist@.len() ==> (#[trigger] dist@[i])@.len() > 0,
    ensures
        forall|i: int, j: int|
            0 <= i < dist@.len() && 0 <= j < dist@[i]@.len() ==> #[trigger] dist@[i]@[j] <= m,
        m == 0 || exists|i: int, j: int|
            0 <= i < dist@.len() && 0 <= j < dist@[i]@.len() && #[trigger] dist@[i]@[j] == m,
{
    let mut true_max: u32 = 0;
    let n = dist.len();
    for r in 0..n
        invariant
            n == dist@.len(),
            forall|i: int, j: int|
                0 <= i < r && 0 <= j < dist@[i]@.len() ==> #[trigger] dist@[i]@[j] <= true_max,
            true_max == 0 || exists|i: int, j: int|
                0 <= i < dist@.len() && 0 <= j < dist@[i]@.len() && #[trigger] dist@[i]@[j]
                    == true_max,
    {
        let row = &dist[r];
        let m = row.len();
        for c in 0..m
            invariant
                n == dist@.len(),
                r < n,
                m == dist@[r as int]@.len(),
                row@ == dist@[r as int]@,
                forall|i: int, j: int|
                    0 <= i < r && 0 <= j < dist@[i]@.len() ==> #[trigger] dist@[i]@[j]
                        <= true_max,
                forall|j: int| 0 <= j < c ==> #[trigger] dist@[r as int]@[j] <= true_max,
                true_max == 0 || exists|i: int, j: int|
                    0 <= i < dist@.len() && 0 <= j < dist@[i]@.len() && #[trigger] dist@[i]@[j]
                        == true_max,
        {
            if row[c] > true_max {
                true_max = row[c];
            }
        }
    }
    true_max
}

/// Build the eight buckets of a normal-curve histogram from the seven
/// boundary values three standard deviations either side of the mean:
/// an unbounded bucket below, six uniform buckets between successive
/// boundaries, and an unbounded bucket above.
pub fn normal_dist(boundaries: &Vec<usize>) -> (r: Vec<Bin>)
    requires
        boundaries@.len() == 7,
    ensures
        r@.len() == 8,
        r@[0].start == 0 && r@[0].end == boundaries@[0] && r@[0].count == 0,
        forall|i: int|
            1 <= i < 7 ==> {
                &&& (#[trigger] r@[i]).start == boundaries@[i - 1]
                &&& r@[i].end == boundaries@[i]
                &&& r@[i].count == 0
            },
        r@[7].start == boundaries@[6] && r@[7].end == usize::MAX && r@[7].count == 0,
{
    let mut bin_vec: Vec<Bin> = Vec::new();
    bin_vec.push(Bin::new(usize::MIN, boundaries[0]));
    for i in 0..6
        invariant
            boundaries@.len() == 7,
            bin_vec@.len() == i + 1,
            bin_vec@[0].start == 0 && bin_vec@[0].end == boundaries@[0] && bin_vec@[0].count == 0,
            forall|j: int|
                1 <= j < i + 1 ==> {
                    &&& (#[trigger] bin_vec@[j]).start == boundaries@[j - 1]
                    &&& bin_vec@[j].end == boundaries@[j]
                    &&& bin_vec@[j].count == 0
                },
    {
        bin_vec.push(Bin::new(boundaries[i], boundaries[i + 1]));
    }
    bin_vec.push(Bin::new(boundaries[6], usize::MAX));
    bin_vec
}

} // verus!
