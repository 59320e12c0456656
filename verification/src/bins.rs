//! Histogram bins for the timing distributions.
//!
//! A sample is placed into the first bin whose upper end is at least the
//! sample's value; samples beyond the last bin's upper end are dropped.
//! The contracts pin the resulting counts down exactly, via `hit_count`.

use vstd::prelude::*;

verus! {

/// One histogram bucket: the half-open range it covers and how many samples
/// were placed into it.
#[derive(Copy, Clone, Debug, PartialEq, Eq, Structural)]
pub struct Bin {
    /// Lower end of the bucket's range.
    pub start: usize,
    /// Upper end of the bucket's range.
    pub end: usize,
    /// Number of samples placed into the bucket.
    pub count: usize,
}

/// The upper ends of a sequence of bins, in order.
pub open spec fn ends_of(bins: Seq<Bin>) -> Seq<usize> {
    bins.map_values(|b: Bin| b.end)
}

/// The filling rule: value `v` is placed at position `i` of `ends` when
/// `ends[i]` is the first upper end that is at least `v`.
pub open spec fn places_at(ends: Seq<usize>, v: usize, i: int) -> bool {
    &&& 0 <= i < ends.len()
    &&& v <= ends[i]
    &&& forall|j: int| 0 <= j < i ==> ends[j] < v
}

/// How many of the values `vs` the filling rule places at position `i`.
pub open spec fn hit_count(ends: Seq<usize>, vs: Seq<usize>, i: int) -> nat
    decreases vs.len(),
{
    if vs.len() == 0 {
        0
    } else {
        hit_count(ends, vs.drop_last(), i) + (if places_at(ends, vs.last(), i) {
            1nat
        } else {
            0nat
        })
    }
}

/// No position ever receives more values than were offered.
pub proof fn lemma_hit_count_le_len(ends: Seq<usize>, vs: Seq<usize>, i: int)
    ensures
        hit_count(ends, vs, i) <= vs.len(),
    decreases vs.len(),
{
    if vs.len() > 0 {
        lemma_hit_count_le_len(ends, vs.drop_last(), i);
    }
}

impl Bin {
    /// A fresh bucket over `[min, max)` with nothing counted yet.
    pub fn new(min: usize, max: usize) -> (b: Bin)
        ensures
            b.start == min,
            b.end == max,
            b.count == 0,
    {
        Bin { start: min, end: max, count: 0 }
    }

    /// Whether `elem` lies in the bucket's half-open range.
    pub fn contains(&self, elem: usize) -> (r: bool)
        ensures
            r == (self.start <= elem && elem < self.end),
    {
        self.start <= elem && elem < self.end
    }

    /// Accept `elem` if it lies in the bucket's range, reject it otherwise.
    /// The bucket itself is left as it was either way.
    pub fn insert_or(&mut self, elem: usize) -> (r: Result<(), &'static str>)
        ensures
            *final(self) == *old(self),
            r is Ok <==> (old(self).start <= elem && elem < old(self).end),
            (r matches Err(m) ==> m@ == "Not contained in this bin's range"@),
    {
        if !self.contains(elem) {
            return Err("Not contained in this bin's range");
        }
        Ok(())
    }
}

/// Place each of `values` into the first bin of `bin_vec` whose upper end is
/// at least the value; values beyond every upper end are dropped. The ranges
/// are untouched and every count grows by exactly the hits of its position.
pub fn fill_bin_vec(bin_vec: &mut Vec<Bin>, values: &Vec<usize>)
    requires
        forall|i: int| 0 <= i < old(bin_vec)@.len()
            ==> old(bin_vec)@[i].count + values@.len() <= usize::MAX,
    ensures
        final(bin_vec)@.len() == old(bin_vec)@.len(),
        forall|i: int| 0 <= i < old(bin_vec)@.len() ==> {
            &&& final(bin_vec)@[i].start == old(bin_vec)@[i].start
            &&& final(bin_vec)@[i].end == old(bin_vec)@[i].end
            &&& final(bin_vec)@[i].count == old(bin_vec)@[i].count
                + hit_count(ends_of(old(bin_vec)@), values@, i)
        },
{
    let ghost orig = bin_vec@;
    let ghost ends = ends_of(orig);
    let n = bin_vec.len();
    for k in 0..values.len()
        invariant
            n == orig.len(),
            bin_vec@.len() == orig.len(),
            forall|i: int|
                0 <= i < orig.len() ==> #[trigger] orig[i].count + values@.len() <= usize::MAX,
            ends == ends_of(orig),
            forall|i: int|
                0 <= i < orig.len() ==> {
                    &&& (#[trigger] bin_vec@[i]).start == orig[i].start
                    &&& bin_vec@[i].end == orig[i].end
                    &&& bin_vec@[i].count == orig[i].count + hit_count(
                        ends,
                        values@.subrange(0, k as int),
                        i,
                    )
                },
    {
        let ghost loop_state = bin_vec@;
        let v = values[k];
        let mut idx: usize = 0;
        while idx < n && bin_vec[idx].end < v
            invariant
                n == orig.len(),
                bin_vec@ == loop_state,
                bin_vec@.len() == orig.len(),
                idx <= n,
                ends == ends_of(orig),
                forall|i: int|
                    0 <= i < orig.len() ==> (#[trigger] bin_vec@[i]).end == orig[i].end,
                forall|j: int| 0 <= j < idx ==> ends[j] < v,
            decreases n - idx,
        {
            idx = idx + 1;
        }
        let ghost prefix = values@.subrange(0, k as int);
        let ghost prefix1 = values@.subrange(0, k as int + 1);
        proof {
            assert(prefix1.drop_last() =~= prefix);
            assert(prefix1.last() == v);
        }
        if idx < n {
            proof {
                assert(ends[idx as int] == orig[idx as int].end);
                assert(places_at(ends, v, idx as int));
                assert forall|i: int| 0 <= i < orig.len() && i != idx implies !places_at(
                    ends,
                    v,
                    i,
                ) by {
                    if i < idx {
                        assert(ends[i] < v);
                    } else {
                        assert(ends[idx as int] >= v);
                    }
                }
                lemma_hit_count_le_len(ends, prefix, idx as int);
            }
            let b = bin_vec[idx];
            bin_vec.set(idx, Bin { start: b.start, end: b.end, count: b.count + 1 });
            proof {
                assert forall|i: int| 0 <= i < orig.len() implies {
                    &&& (#[trigger] bin_vec@[i]).start == orig[i].start
                    &&& bin_vec@[i].end == orig[i].end
                    &&& bin_vec@[i].count == orig[i].count + hit_count(ends, prefix1, i)
                } by {
                    assert(hit_count(ends, prefix1, i) == hit_count(ends, prefix, i)
                        + (if places_at(ends, v, i) {
                        1nat
                    } else {
                        0nat
                    }));
                }
            }
        } else {
            proof {
                assert forall|i: int| 0 <= i < orig.len() implies !places_at(ends, v, i) by {
                    assert(ends[i] < v);
                }
                assert forall|i: int| 0 <= i < orig.len() implies {
                    &&& (#[trigger] bin_vec@[i]).start == orig[i].start
                    &&& bin_vec@[i].end == orig[i].end
                    &&& bin_vec@[i].count == orig[i].count + hit_count(ends, prefix1, i)
                } by {
                    assert(hit_count(ends, prefix1, i) == hit_count(ends, prefix, i));
                }
            }
        }
    }
    proof {
        assert(values@.subrange(0, values@.len() as int) =~= values@);
    }
}

/// Ceiling of `(max - min) / num_bins`: the uniform width that
/// `construct_bin_vec` gives each of its bins.
pub open spec fn bin_width(min: usize, max: usize, num_bins: usize) -> int
    recommends
        min <= max,
        num_bins > 0,
{
    (max - min) / (num_bins as int) + (if (max - min) % (num_bins as int) == 0 {
        0int
    } else {
        1int
    })
}

/// The upper ends of `n` uniform bins of width `width` starting at `min`.
pub open spec fn uniform_ends(min: usize, width: int, n: usize) -> Seq<usize> {
    Seq::new(n as nat, |i: int| (min + (i + 1) * width) as usize)
}

/// Build `num_bins` uniformly sized buckets covering `[min, max)` (the last
/// ones padded up to a whole bucket width) and count each of `dist`'s samples
/// into the first bucket whose upper end reaches it.
pub fn construct_bin_vec(min: usize, max: usize, num_bins: usize, dist: &Vec<usize>) -> (r: Vec<
    Bin,
>)
    requires
        min <= max,
        num_bins > 0 ==> min + num_bins * bin_width(min, max, num_bins) <= usize::MAX,
    ensures
        r@.len() == num_bins,
        forall|i: int| 0 <= i < num_bins ==> {
            &&& #[trigger] r@[i].start == min + i * bin_width(min, max, num_bins)
            &&& r@[i].end == min + (i + 1) * bin_width(min, max, num_bins)
            &&& r@[i].count == hit_count(
                uniform_ends(min, bin_width(min, max, num_bins), num_bins),
                dist@,
                i,
            )
        },
{
    if num_bins == 0 {
        let hist: Vec<Bin> = Vec::new();
        return hist;
    }
    let diff = max - min;
    let q = diff / num_bins;
    let rem = diff % num_bins;
    let bin_sizes: usize = if rem == 0 {
        q
    } else {
        proof {
            assert(min + num_bins * bin_width(min, max, num_bins) <= usize::MAX);
            assert(num_bins * bin_width(min, max, num_bins) >= 1 * bin_width(
                min,
                max,
                num_bins,
            )) by {
                vstd::arithmetic::mul::lemma_mul_inequality(
                    1,
                    num_bins as int,
                    bin_width(min, max, num_bins),
                );
            }
        }
        q + 1
    };
    proof {
        assert(bin_sizes == bin_width(min, max, num_bins));
    }
    let ghost width = bin_width(min, max, num_bins);
    let mut hist: Vec<Bin> = Vec::with_capacity(num_bins);
    let mut last_bin: usize = min;
    for b in 0..num_bins
        invariant
            min <= max,
            num_bins > 0,
            width == bin_width(min, max, num_bins),
            width >= 0,
            bin_sizes == width,
            min + num_bins * width <= usize::MAX,
            hist@.len() == b,
            last_bin == min + b * width,
            forall|i: int|
                0 <= i < b ==> {
                    &&& (#[trigger] hist@[i]).start == min + i * width
                    &&& hist@[i].end == min + (i + 1) * width
                    &&& hist@[i].count == 0
                },
    {
        proof {
            vstd::arithmetic::mul::lemma_mul_is_distributive_add_other_way(width, b as int, 1);
            assert((b + 1) * width == b * width + 1 * width);
            vstd::arithmetic::mul::lemma_mul_basics(width);
            vstd::arithmetic::mul::lemma_mul_inequality(b as int + 1, num_bins as int, width);
            assert(min + (b + 1) * width <= min + num_bins * width);
        }
        let new_last = last_bin + bin_sizes;
        hist.push(Bin::new(last_bin, new_last));
        last_bin = new_last;
        proof {
            assert(hist@[b as int].start == min + b * width);
            assert(hist@[b as int].end == min + (b + 1) * width);
        }
    }
    proof {
        assert forall|i: int| 0 <= i < num_bins implies ends_of(hist@)[i] == uniform_ends(
            min,
            width,
            num_bins,
        )[i] by {
            vstd::arithmetic::mul::lemma_mul_inequality(i + 1, num_bins as int, width);
            vstd::arithmetic::mul::lemma_mul_nonnegative(i + 1, width);
            assert(hist@[i].end == min + (i + 1) * width);
            assert(0 <= min + (i + 1) * width <= usize::MAX);
        }
        assert(ends_of(hist@) =~= uniform_ends(min, width, num_bins));
    }
    let dl = dist.len();
    proof {
        assert(dl == dist@.len());
        assert forall|i: int| 0 <= i < hist@.len() implies hist@[i].count + dist@.len()
            <= usize::MAX by {
            assert(hist@[i].count == 0);
        }
    }
    fill_bin_vec(&mut hist, dist);
    hist
}

/// The largest count held by any of the bins, or zero where there is none.
pub fn find_max_frequency(bin_vec: &Vec<Bin>) -> (m: usize)
    ensures
        forall|i: int| 0 <= i < bin_vec@.len() ==> #[trigger] bin_vec@[i].count <= m,
        m == 0 || exists|i: int| 0 <= i < bin_vec@.len() && #[trigger] bin_vec@[i].count == m,
{
    let mut max_freq: usize = 0;
    for k in 0..bin_vec.len()
        invariant
            forall|i: int| 0 <= i < k ==> #[trigger] bin_vec@[i].count <= max_freq,
            max_freq == 0 || exists|i: int|
                0 <= i < bin_vec@.len() && #[trigger] bin_vec@[i].count == max_freq,
    {
        if bin_vec[k].count > max_freq {
            max_freq = bin_vec[k].count;
        }
    }
    max_freq
}

/// The start of the first bin with a nonzero count, or zero where every
/// count is zero.
pub open spec fn first_nonzero_start(bins: Seq<Bin>) -> usize
    decreases bins.len(),
{
    if bins.len() == 0 {
        0
    } else if bins[0].count != 0 {
        bins[0].start
    } else {
        first_nonzero_start(bins.drop_first())
    }
}

/// Search the bins for the first nonzero count and give back its start.
pub fn first_nonzero_bin(bin_vec: &Vec<Bin>) -> (s: usize)
    ensures
        s == first_nonzero_start(bin_vec@),
{
    let n = bin_vec.len();
    proof {
        assert(bin_vec@.skip(0) =~= bin_vec@);
    }
    for k in 0..n
        invariant
            n == bin_vec@.len(),
            forall|i: int| 0 <= i < k ==> #[trigger] bin_vec@[i].count == 0,
            first_nonzero_start(bin_vec@) == first_nonzero_start(bin_vec@.skip(k as int)),
    {
        proof {
            assert(bin_vec@.skip(k as int)[0] == bin_vec@[k as int]);
            assert(bin_vec@.skip(k as int).drop_first() =~= bin_vec@.skip(k as int + 1));
        }
        if bin_vec[k].count != 0 {
            return bin_vec[k].start;
        }
    }
    proof {
        assert(bin_vec@.skip(n as int) =~= Seq::<Bin>::empty());
    }
    0
}

/// Whether every bin's count is zero.
pub fn is_binvec_empty(bin_vec: &Vec<Bin>) -> (r: bool)
    ensures
        r == (forall|i: int| 0 <= i < bin_vec@.len() ==> #[trigger] bin_vec@[i].count == 0),
{
    for k in 0..bin_vec.len()
        invariant
            forall|i: int| 0 <= i < k ==> #[trigger] bin_vec@[i].count == 0,
    {
        if bin_vec[k].count != 0 {
            return false;
        }
    }
    true
}

} // verus!
