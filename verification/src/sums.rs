//! The total value of a sequence of (identity, amount) pairs, and the facts
//! about it that the escrow accounting of settlement rests on.
use vstd::prelude::*;

verus! {

/// Sum of the amounts of a sequence of (identity, amount) pairs.
pub open spec fn sum_amounts(s: Seq<(String, u128)>) -> int
    decreases s.len(),
{
    if s.len() == 0 {
        0
    } else {
        sum_amounts(s.drop_last()) + s.last().1
    }
}

pub proof fn lemma_sum_nonneg(s: Seq<(String, u128)>)
    ensures
        sum_amounts(s) >= 0,
    decreases s.len(),
{
    if s.len() > 0 {
        lemma_sum_nonneg(s.drop_last());
    }
}

/// Removing one entry removes exactly its amount from the sum.
pub proof fn lemma_sum_remove(s: Seq<(String, u128)>, i: int)
    requires
        0 <= i < s.len(),
    ensures
        sum_amounts(s) == sum_amounts(s.remove(i)) + s[i].1,
    decreases s.len(),
{
    if i == s.len() - 1 {
        assert(s.remove(i) =~= s.drop_last());
    } else {
        assert(s.remove(i).drop_last() =~= s.drop_last().remove(i));
        assert(s.remove(i).last() == s.last());
        lemma_sum_remove(s.drop_last(), i);
        assert(s.drop_last()[i] == s[i]);
    }
}

/// Each single amount is bounded by the whole sum.
pub proof fn lemma_sum_elem_bound(s: Seq<(String, u128)>, i: int)
    requires
        0 <= i < s.len(),
    ensures
        s[i].1 <= sum_amounts(s),
{
    lemma_sum_remove(s, i);
    lemma_sum_nonneg(s.remove(i));
}

/// Prepending one entry adds exactly its amount to the sum.
pub proof fn lemma_sum_cons(e: (String, u128), s: Seq<(String, u128)>)
    ensures
        sum_amounts(seq![e] + s) == e.1 + sum_amounts(s),
    decreases s.len(),
{
    if s.len() == 0 {
        assert(seq![e] + s =~= seq![e]);
        assert(seq![e].drop_last() =~= Seq::<(String, u128)>::empty());
        assert(seq![e].last() == e);
        assert(sum_amounts(seq![e].drop_last()) == 0);
    } else {
        assert((seq![e] + s).drop_last() =~= seq![e] + s.drop_last());
        assert((seq![e] + s).last() == s.last());
        lemma_sum_cons(e, s.drop_last());
    }
}

/// Appending one entry adds exactly its amount to the sum.
pub proof fn lemma_sum_push(s: Seq<(String, u128)>, e: (String, u128))
    ensures
        sum_amounts(s.push(e)) == sum_amounts(s) + e.1,
{
    assert(s.push(e).drop_last() =~= s);
    assert(s.push(e).last() == e);
}

} // verus!
