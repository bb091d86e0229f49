//! Settlement of a resolved raffle: one payout plan covering the winner and
//! every refund, in a fixed order, conserving the escrowed value exactly.
use vstd::prelude::*;

use crate::sums::lemma_sum_cons;
use crate::sums::lemma_sum_elem_bound;
use crate::sums::lemma_sum_remove;
use crate::sums::sum_amounts;

verus! {

/// The transfers a resolved raffle owes, as a mathematical function: first
/// the winner, paid the prize plus their own stake in one transfer, then
/// every other participant's stake back unchanged, in ledger order. The
/// winner's entry is skipped in the refunds, never paid twice.
pub open spec fn spec_settle(prize: u128, parts: Seq<(String, u128)>, w: int) -> Seq<
    (String, u128),
> {
    seq![((parts[w].0, (prize + parts[w].1) as u128))] + parts.remove(w)
}

/// Settlement is conservative: the transfers of a resolved raffle carry out
/// of escrow exactly the prize plus the sum of all stakes, once.
pub proof fn lemma_settlement_conservative(prize: u128, parts: Seq<(String, u128)>, w: int)
    requires
        0 <= w < parts.len(),
        prize + parts[w].1 <= u128::MAX,
    ensures
        sum_amounts(spec_settle(prize, parts, w)) == prize + sum_amounts(parts),
{
    lemma_sum_cons((parts[w].0, (prize + parts[w].1) as u128), parts.remove(w));
    lemma_sum_remove(parts, w);
}

/// Materialize the payout plan for the resolved winner index `winner`.
pub fn settle(prize: u128, parts: &Vec<(String, u128)>, winner: usize) -> (transfers: Vec<
    (String, u128),
>)
    requires
        winner < parts@.len(),
        prize + sum_amounts(parts@) <= u128::MAX,
    ensures
        transfers@ == spec_settle(prize, parts@, winner as int),
        transfers@.len() == parts@.len(),
        transfers@[0].0@ == parts@[winner as int].0@,
        transfers@[0].1 == prize + parts@[winner as int].1,
        sum_amounts(transfers@) == prize + sum_amounts(parts@),
{
    proof {
        lemma_sum_elem_bound(parts@, winner as int);
        crate::sums::lemma_sum_nonneg(parts@);
    }
    let ghost head: (String, u128) = (parts@[winner as int].0, (prize + parts@[winner as int].1) as u128);
    let mut transfers: Vec<(String, u128)> = Vec::new();
    let winner_id: String = parts[winner].0.clone();
    let winner_amount: u128 = prize + parts[winner].1;
    transfers.push((winner_id, winner_amount));
    proof {
        assert(transfers@ =~= seq![head] + parts@.take(0));
    }
    let mut j: usize = 0;
    while j < parts.len()
        invariant
            winner < parts@.len(),
            0 <= j <= parts@.len(),
            head == ((parts@[winner as int].0, (prize + parts@[winner as int].1) as u128)),
            j <= winner ==> transfers@ == seq![head] + parts@.take(j as int),
            j > winner ==> transfers@ == seq![head] + parts@.take(j as int).remove(winner as int),
        decreases parts@.len() - j,
    {
        if j != winner {
            transfers.push((parts[j].0.clone(), parts[j].1));
            proof {
                if j < winner {
                    assert(transfers@ =~= seq![head] + parts@.take(j as int + 1));
                } else {
                    assert(transfers@ =~= seq![head] + parts@.take(j as int + 1).remove(
                        winner as int,
                    ));
                }
            }
        } else {
            proof {
                assert(parts@.take(j as int + 1).remove(winner as int) =~= parts@.take(j as int));
            }
        }
        j = j + 1;
    }
    proof {
        assert(parts@.take(parts@.len() as int) =~= parts@);
        assert(transfers@ =~= spec_settle(prize, parts@, winner as int));
        lemma_settlement_conservative(prize, parts@, winner as int);
    }
    transfers
}

} // verus!
