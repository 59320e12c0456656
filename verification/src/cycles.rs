//! The closed set of counter-reset strategies that the harness measures.
//!
//! Each strategy is one way of sending a counter back to zero once it has
//! reached a threshold; apart from the placebo baseline they all agree while
//! the counter stays at or below the threshold.

use vstd::prelude::*;

verus! {

/// One way of resetting a counter once it reaches a threshold.
#[derive(Copy, Clone, Debug, PartialEq, Eq, Structural)]
pub enum ResetCounter {
    /// Baseline that ignores the counter and always yields zero.
    PlaceboCounter,
    /// Branch: zero once the threshold is reached, the counter otherwise.
    IfCounter,
    /// Remainder of the counter modulo the threshold.
    ModuloCounter,
    /// Multiplication by a boolean flag: zero once the threshold is reached.
    BooleanMulCounter,
    /// Bitwise mask from a boolean flag: zero once the threshold is reached.
    BooleanWrapCounter,
}

impl ResetCounter {
    /// Every strategy, in the fixed order the harness uses everywhere.
    pub open spec fn all_variants() -> Seq<ResetCounter> {
        seq![
            ResetCounter::PlaceboCounter,
            ResetCounter::IfCounter,
            ResetCounter::ModuloCounter,
            ResetCounter::BooleanMulCounter,
            ResetCounter::BooleanWrapCounter,
        ]
    }

    /// The name under which a strategy appears in CSV headers and chart legends.
    pub open spec fn name_spec(self) -> Seq<char> {
        match self {
            ResetCounter::PlaceboCounter => "Placebo"@,
            ResetCounter::IfCounter => "IfCounter"@,
            ResetCounter::ModuloCounter => "ModuloCounter"@,
            ResetCounter::BooleanMulCounter => "BooleanMulCounter"@,
            ResetCounter::BooleanWrapCounter => "BooleanWrapCounter"@,
        }
    }

    /// The value a strategy leaves in the counter, given the counter's current
    /// value `idx` and the reset threshold `reset_number`.
    pub open spec fn reset_spec(self, idx: nat, reset_number: nat) -> nat
        recommends self is ModuloCounter ==> reset_number > 0,
    {
        match self {
            ResetCounter::PlaceboCounter => 0,
            ResetCounter::IfCounter => if idx >= reset_number { 0 } else { idx },
            ResetCounter::ModuloCounter => idx % reset_number,
            ResetCounter::BooleanMulCounter => if idx >= reset_number { 0 } else { idx },
            ResetCounter::BooleanWrapCounter => if idx >= reset_number { 0 } else { idx },
        }
    }

    /// How many strategies there are.
    pub fn cardinality() -> (n: usize)
        ensures
            n == Self::all_variants().len(),
    {
        5
    }

    /// All strategies, in their fixed order.
    pub fn iter() -> (v: Vec<ResetCounter>)
        ensures
            v@ == Self::all_variants(),
    {
        let v: Vec<ResetCounter> = vec![
            ResetCounter::PlaceboCounter,
            ResetCounter::IfCounter,
            ResetCounter::ModuloCounter,
            ResetCounter::BooleanMulCounter,
            ResetCounter::BooleanWrapCounter,
        ];
        proof {
            assert(v@ =~= Self::all_variants());
        }
        v
    }

    /// All strategies by value, in their fixed order.
    pub fn into_iter() -> (v: Vec<ResetCounter>)
        ensures
            v@ == Self::all_variants(),
    {
        Self::iter()
    }

    /// The strategy at position `idx` of the fixed order.
    pub fn from_index(idx: usize) -> (c: ResetCounter)
        requires
            idx < Self::all_variants().len(),
        ensures
            c == Self::all_variants()[idx as int],
    {
        let v = Self::iter();
        v[idx]
    }

    /// The strategies as a list, in their fixed order.
    pub fn as_slice() -> (v: Vec<ResetCounter>)
        ensures
            v@ == Self::all_variants(),
    {
        Self::iter()
    }

    /// The strategy's display name.
    pub fn to_string(&self) -> (r: &'static str)
        ensures
            r@ == self.name_spec(),
    {
        match self {
            ResetCounter::PlaceboCounter => "Placebo",
            ResetCounter::IfCounter => "IfCounter",
            ResetCounter::ModuloCounter => "ModuloCounter",
            ResetCounter::BooleanMulCounter => "BooleanMulCounter",
            ResetCounter::BooleanWrapCounter => "BooleanWrapCounter",
        }
    }

    /// The reset operation of this strategy, packaged as a callable value.
    pub fn get_reset_func(&self) -> (f: ResetFn)
        ensures
            f.strategy == *self,
    {
        ResetFn { strategy: *self }
    }
}

/// The reset operation of one strategy, ready to be applied to a counter.
pub struct ResetFn {
    /// The strategy whose reset rule `apply` computes.
    pub strategy: ResetCounter,
}

impl ResetFn {
    /// Reset `idx` against the threshold `reset_number` by this strategy's rule.
    pub fn apply(&self, idx: usize, reset_number: usize) -> (r: usize)
        requires
            self.strategy is ModuloCounter ==> reset_number > 0,
        ensures
            r == self.strategy.reset_spec(idx as nat, reset_number as nat),
    {
        match self.strategy {
            ResetCounter::IfCounter => {
                if idx >= reset_number { 0 } else { idx }
            },
            ResetCounter::ModuloCounter => {
                idx % reset_number
            },
            ResetCounter::BooleanMulCounter => {
                let keep: usize = (!(idx >= reset_number)) as usize;
                proof {
                    assert(keep == if idx >= reset_number { 0usize } else { 1usize });
                    assert(idx * 0 == 0);
                    assert(idx * 1 == idx);
                }
                idx * keep
            },
            ResetCounter::BooleanWrapCounter => {
                let keep: usize = (!(idx >= reset_number)) as usize;
                let mask: usize = 0usize.wrapping_sub(keep);
                proof {
                    if idx >= reset_number {
                        assert(mask == 0);
                        assert(idx & 0usize == 0usize) by (bit_vector);
                    } else {
                        assert(mask == usize::MAX);
                        if usize::BITS == 32 {
                            assert(idx & mask == idx) by (bit_vector)
                                requires
                                    mask == 0xffff_ffffu64 as usize,
                                    idx <= mask,
                            ;
                        } else {
                            assert(idx & mask == idx) by (bit_vector)
                                requires
                                    mask == 0xffff_ffff_ffff_ffffu64 as usize,
                                    idx <= mask,
                            ;
                        }
                    }
                }
                idx & mask
            },
            ResetCounter::PlaceboCounter => {
                0usize
            },
        }
    }
}

/// Every strategy but the placebo computes the same reset value while the
/// counter stays at or below the threshold: the counter itself below the
/// threshold, and zero once it reaches it.
pub proof fn lemma_strategies_agree(s: ResetCounter, idx: nat, reset_number: nat)
    requires
        reset_number > 0,
        idx <= reset_number,
        !(s is PlaceboCounter),
    ensures
        s.reset_spec(idx, reset_number) == if idx >= reset_number { 0nat } else { idx },
{
    if idx == reset_number {
        assert(idx % reset_number == 0) by {
            vstd::arithmetic::div_mod::lemma_mod_self_0(reset_number as int);
        }
    } else {
        assert(idx % reset_number == idx) by {
            vstd::arithmetic::div_mod::lemma_small_mod(idx, reset_number);
        }
    }
}

/// Whatever the strategy and the counter's value, the reset value is either
/// zero or strictly below the threshold: once established after a reset, the
/// counter never reaches the threshold plus the increment.
pub proof fn lemma_reset_bounded(s: ResetCounter, idx: nat, reset_number: nat)
    requires
        s is ModuloCounter ==> reset_number > 0,
    ensures
        s.reset_spec(idx, reset_number) == 0 || s.reset_spec(idx, reset_number) < reset_number,
{
    if s is ModuloCounter {
        vstd::arithmetic::div_mod::lemma_mod_bound(idx as int, reset_number as int);
    }
}

} // verus!
