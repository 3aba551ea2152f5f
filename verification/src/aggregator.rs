//! The aggregator: the running total of the balances that workers read.
//!
//! It is owned by one batch run and changed only through `&mut`, so every
//! addition is an exclusive read-modify-write.

use vstd::prelude::*;

verus! {

/// The sum of `values`.
pub open spec fn sum(values: Seq<u64>) -> nat
    decreases values.len(),
{
    if values.len() == 0 {
        0
    } else {
        sum(values.drop_last()) + values.last() as nat
    }
}

/// A running total.
#[derive(Clone, Copy, Debug, PartialEq, Eq)]
pub struct Aggregator {
    pub total: u128,
}

impl Aggregator {
    /// A total of zero.
    pub fn new() -> (fresh: Aggregator)
        ensures
            fresh.total == 0,
    {
        Aggregator { total: 0 }
    }

    /// Adds `delta` to the total.
    pub fn add(&mut self, delta: u64)
        requires
            old(self).total + delta <= u128::MAX,
        ensures
            final(self).total == old(self).total + delta,
    {
        self.total = self.total + delta as u128;
    }

    /// The total so far.
    pub fn total(&self) -> (total: u128)
        ensures
            total == self.total,
    {
        self.total
    }
}

/// Taking one value out of a sequence lowers its sum by that value.
pub proof fn lemma_sum_remove(values: Seq<u64>, index: int)
    requires
        0 <= index < values.len(),
    ensures
        sum(values) == sum(values.remove(index)) + values[index],
    decreases values.len(),
{
    if index == values.len() - 1 {
        assert(values.remove(index) =~= values.drop_last());
    } else {
        lemma_sum_remove(values.drop_last(), index);
        assert(values.remove(index).drop_last() =~= values.drop_last().remove(index));
        assert(values.remove(index).last() == values.last());
    }
}

/// The total does not depend on the order in which workers finish: two
/// sequences that hold the same balances, each as often as the other, have
/// the same sum.
pub proof fn lemma_sum_is_order_independent(first: Seq<u64>, second: Seq<u64>)
    requires
        first.to_multiset() == second.to_multiset(),
    ensures
        sum(first) == sum(second),
    decreases first.len(),
{
    first.to_multiset_ensures();
    second.to_multiset_ensures();
    if first.len() == 0 {
        assert(second.len() == second.to_multiset().len());
    } else {
        let value = first.last();
        assert(first.contains(value)) by {
            assert(first[first.len() - 1] == value);
        }
        assert(second.to_multiset().count(value) > 0);
        assert(second.contains(value));
        let index = choose|index: int| 0 <= index < second.len() && second[index] == value;
        assert(first.drop_last() =~= first.remove(first.len() - 1));
        assert(first.drop_last().to_multiset() == second.remove(index).to_multiset());
        lemma_sum_is_order_independent(first.drop_last(), second.remove(index));
        lemma_sum_remove(second, index);
    }
}

} // verus!
