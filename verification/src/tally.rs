//! Sums of counts.

use vstd::prelude::*;

verus! {

/// The sum of a sequence of counts.
pub open spec fn total(counts: Seq<nat>) -> nat
    decreases counts.len(),
{
    if counts.len() == 0 {
        0
    } else {
        total(counts.drop_last()) + counts.last()
    }
}

/// Replacing one count changes the sum by the difference.
pub proof fn lemma_total_update(counts: Seq<nat>, i: int, count: nat)
    requires
        0 <= i < counts.len(),
    ensures
        total(counts.update(i, count)) + counts[i] == total(counts) + count,
    decreases counts.len(),
{
    if i == counts.len() - 1 {
        assert(counts.update(i, count).drop_last() =~= counts.drop_last());
    } else {
        assert(counts.update(i, count).drop_last() =~= counts.drop_last().update(i, count));
        lemma_total_update(counts.drop_last(), i, count);
    }
}

/// A sum is zero exactly when each of its counts is.
pub proof fn lemma_total_zero(counts: Seq<nat>)
    ensures
        total(counts) == 0 <==> forall|i: int| 0 <= i < counts.len() ==> counts[i] == 0,
    decreases counts.len(),
{
    if counts.len() > 0 {
        lemma_total_zero(counts.drop_last());
        if total(counts) == 0 {
            assert forall|i: int| 0 <= i < counts.len() implies counts[i] == 0 by {
                if i < counts.len() - 1 {
                    assert(counts.drop_last()[i] == counts[i]);
                }
            }
        } else if forall|i: int| 0 <= i < counts.len() ==> counts[i] == 0 {
            assert forall|i: int| 0 <= i < counts.drop_last().len() implies counts.drop_last()[i]
                == 0 by {
                assert(counts.drop_last()[i] == counts[i]);
            }
        }
    }
}

/// A count is no more than the sum it is part of.
pub proof fn lemma_total_at_least(counts: Seq<nat>, i: int)
    requires
        0 <= i < counts.len(),
    ensures
        counts[i] <= total(counts),
    decreases counts.len(),
{
    if i < counts.len() - 1 {
        lemma_total_at_least(counts.drop_last(), i);
    }
}

} // verus!
