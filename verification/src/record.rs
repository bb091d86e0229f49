//! Per-owner raffle state: the escrowed prize, the open window, the
//! participant ledger and the retry-attempt counter.
use vstd::prelude::*;

use crate::ledger::has_key;
use crate::ledger::unique_keys;
use crate::sums::sum_amounts;
use crate::MAX_PARTICIPANTS;

verus! {

/// State of one raffle, keyed in the registry by its owner's identity.
///
/// The participant ledger is owned by the record itself, so two raffles'
/// participant sets cannot collide; its order is the insertion order, which
/// is the stable enumeration the draw indexes into.
pub struct RaffleDetails {
    /// Value owed to the winner, fixed at registration: the owner's deposit
    /// net of the fixed fee.
    pub prize: u128,
    /// Start of the open window, in the ledger's native time unit.
    pub start: u64,
    /// End of the open window, in the ledger's native time unit.
    pub end: u64,
    /// Participant identities with their locked stakes, in insertion order.
    pub participants: Vec<(String, u128)>,
    /// Execution steps already spent trying to resolve the draw.
    pub attempts: u8,
}

impl RaffleDetails {
    /// `id` has joined this raffle.
    pub open spec fn has_participant(self, id: Seq<char>) -> bool {
        has_key(self.participants@, id)
    }

    /// Everything this raffle holds in escrow: the prize plus every stake.
    pub open spec fn escrow(self) -> int {
        self.prize + sum_amounts(self.participants@)
    }

    /// The record's invariant: a forward window, a bounded ledger with
    /// pairwise-distinct participants, and an escrow total that the ledger's
    /// value type can carry.
    pub open spec fn wf(self) -> bool {
        &&& self.start < self.end
        &&& self.participants@.len() <= MAX_PARTICIPANTS
        &&& unique_keys(self.participants@)
        &&& self.escrow() <= u128::MAX
    }
}

} // verus!
