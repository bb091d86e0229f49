//! The raffle registry: one record per owner identity, and the three public
//! operations of the raffle lifecycle. The host ledger serializes calls and
//! supplies caller identity, attached value, current time and random bytes;
//! each operation takes those as plain values, decides, and either mutates
//! the registry or rejects the whole call with an error, writing nothing.
use vstd::prelude::*;

use crate::errors::RaffleError;
use crate::ledger::find_key;
use crate::ledger::has_key;
use crate::ledger::key_idx;
use crate::ledger::lemma_key_idx;
use crate::ledger::lemma_push_lookup;
use crate::ledger::lookup;
use crate::ledger::unique_keys;
use crate::ledger::lemma_remove_lookup;
use crate::ledger::lemma_update_lookup;
use crate::record::RaffleDetails;
use crate::selector::select_winner;
use crate::selector::spec_draw;
use crate::selector::DrawOutcome;
use crate::settlement::settle;
use crate::settlement::spec_settle;
use crate::sums::lemma_sum_push;
use crate::sums::sum_amounts;
use crate::MAX_PARTICIPANTS;
use crate::MIN_STAKE;
use crate::REGISTRATION_FEE;
use crate::TO_FROM_NANOSECONDS;

verus! {

/// The host-visible effect of a successful `finalize_raffle` call. The core
/// decides; the host performs the transfers or schedules the retry step.
#[derive(Debug)]
pub enum FinalizeAction {
    /// Nobody participated: the record is gone and the full prize goes back
    /// to the owner in one transfer. No draw was attempted.
    RefundOwner {
        /// The raffle's owner, owed the refund.
        owner: String,
        /// The full prize held in escrow for this raffle.
        amount: u128,
    },
    /// The draw did not resolve in this step: the record survives with its
    /// attempt counter incremented, and the host should re-invoke
    /// `finalize_raffle` for the same raffle in a later step with fresh
    /// random bytes.
    Retry {
        /// The owner identity of the raffle to finalize again later.
        raffle_id: String,
        /// Execution steps spent on the draw so far, this one included.
        attempts: u8,
    },
    /// The draw resolved: pay each listed transfer in order, all within this
    /// step. The first entry is the winner, paid the prize plus their own
    /// stake at once; the rest are the other participants' stakes back
    /// unchanged, in ledger order, the winner skipped. The record is gone.
    Settle {
        /// (payee, amount) in payment order.
        transfers: Vec<(String, u128)>,
    },
}

/// The contract state: its own operating identity and the owner-keyed map of
/// live raffles. An entry's existence is the definition of "this account
/// currently runs a raffle".
pub struct RaffleDapp {
    /// The contract's own operating identity; it may finalize any raffle and
    /// may join none.
    pub contract_id: String,
    /// Owner identity -> raffle record, at most one entry per identity.
    pub raffles: Vec<(String, RaffleDetails)>,
}

impl RaffleDapp {
    /// The contract's own operating identity.
    pub open spec fn contract(self) -> Seq<char> {
        self.contract_id@
    }

    /// `owner` currently runs a raffle.
    pub open spec fn has_raffle(self, owner: Seq<char>) -> bool {
        has_key(self.raffles@, owner)
    }

    /// The record of `owner`'s raffle; meaningful only under `has_raffle`.
    pub open spec fn raffle_of(self, owner: Seq<char>) -> RaffleDetails {
        self.raffles@[key_idx(self.raffles@, owner)].1
    }

    /// `owner`'s raffle as a whole: its record if one exists.
    pub open spec fn raffle_view(self, owner: Seq<char>) -> Option<RaffleDetails> {
        lookup(self.raffles@, owner)
    }

    /// The registry's invariant: at most one raffle per owner, every record
    /// well-formed, and no owner enrolled in their own raffle.
    pub open spec fn wf(self) -> bool {
        &&& unique_keys(self.raffles@)
        &&& forall|i: int|
            0 <= i < self.raffles@.len() ==> (#[trigger] self.raffles@[i]).1.wf()
                && !self.raffles@[i].1.has_participant(self.raffles@[i].0@)
    }

    /// One-time setup, reserved to the contract's own operating identity:
    /// the registry starts with no raffles.
    pub fn new(caller: String, contract_id: String) -> (r: Result<RaffleDapp, RaffleError>)
        ensures
            r is Ok <==> caller@ == contract_id@,
            r is Err ==> r == Err::<RaffleDapp, RaffleError>(RaffleError::UnauthorizedInit),
            r matches Ok(d) ==> d.wf() && d.contract() == contract_id@ && d.raffles@.len() == 0,
            r matches Ok(d) ==> forall|k: Seq<char>| !(#[trigger] d.has_raffle(k)),
    {
        if caller == contract_id {
            Ok(RaffleDapp { contract_id, raffles: Vec::new() })
        } else {
            Err(RaffleError::UnauthorizedInit)
        }
    }

    /// Read access to `owner`'s raffle record, if one exists.
    pub fn get_raffle(&self, owner: &String) -> (r: Option<&RaffleDetails>)
        requires
            self.wf(),
        ensures
            r matches Some(rec) ==> self.raffle_view(owner@) == Some(*rec),
            r is None ==> self.raffle_view(owner@) is None,
    {
        match find_key(&self.raffles, owner) {
            Some(i) => {
                proof {
                    lemma_key_idx(self.raffles@, owner@, i as int);
                }
                Some(&self.raffles[i].1)
            },
            None => None,
        }
    }

    /// Open a raffle: escrow the attached deposit, keep the fixed fee, store
    /// the window converted to the ledger's native time unit. Rejected when
    /// the deposit does not exceed the fee floor, when the caller already
    /// runs a raffle, or when the window is not forward; a rejection writes
    /// nothing.
    pub fn register_raffle(&mut self, caller: String, deposit: u128, start: u64, end: u64) -> (r:
        Result<(), RaffleError>)
        requires
            old(self).wf(),
            start as int * TO_FROM_NANOSECONDS as int <= u64::MAX as int,
            end as int * TO_FROM_NANOSECONDS as int <= u64::MAX as int,
        ensures
            final(self).wf(),
            final(self).contract() == old(self).contract(),
            r is Ok <==> deposit > REGISTRATION_FEE && !old(self).has_raffle(caller@) && end
                > start,
            r == Err::<(), RaffleError>(RaffleError::InsufficientDeposit) <==> deposit
                <= REGISTRATION_FEE,
            r == Err::<(), RaffleError>(RaffleError::AlreadyRegistered) <==> deposit
                > REGISTRATION_FEE && old(self).has_raffle(caller@),
            r == Err::<(), RaffleError>(RaffleError::InvalidWindow) <==> deposit
                > REGISTRATION_FEE && !old(self).has_raffle(caller@) && end <= start,
            r is Err ==> *final(self) == *old(self),
            r is Ok ==> (final(self).raffle_view(caller@) matches Some(rec) && rec.prize == deposit
                - REGISTRATION_FEE && rec.start == start * TO_FROM_NANOSECONDS && rec.end == end
                * TO_FROM_NANOSECONDS && rec.start < rec.end && rec.participants@.len() == 0
                && rec.attempts == 0),
            r is Ok ==> final(self).raffles@.len() == old(self).raffles@.len() + 1,
            forall|k: Seq<char>|
                k != caller@ ==> #[trigger] final(self).raffle_view(k) == old(self).raffle_view(k),
    {
        if deposit <= REGISTRATION_FEE {
            return Err(RaffleError::InsufficientDeposit);
        }
        if find_key(&self.raffles, &caller).is_some() {
            return Err(RaffleError::AlreadyRegistered);
        }
        if end <= start {
            return Err(RaffleError::InvalidWindow);
        }
        let rec = RaffleDetails {
            prize: deposit - REGISTRATION_FEE,
            start: start * TO_FROM_NANOSECONDS,
            end: end * TO_FROM_NANOSECONDS,
            participants: Vec::new(),
            attempts: 0,
        };
        let ghost pre = self.raffles@;
        let ghost entry = ((caller, rec));
        self.raffles.push((caller, rec));
        proof {
            assert(self.raffles@ == pre.push(entry));
            lemma_push_lookup(pre, entry);
            lemma_key_idx(self.raffles@, entry.0@, pre.len() as int);
            assert forall|i: int|
                0 <= i < self.raffles@.len() implies (#[trigger] self.raffles@[i]).1.wf()
                && !self.raffles@[i].1.has_participant(self.raffles@[i].0@) by {
                if i < pre.len() {
                    assert(self.raffles@[i] == pre[i]);
                } else {
                    assert(self.raffles@[i] == entry);
                }
            }
        }
        Ok(())
    }

    /// Join `raffle_id`'s raffle by locking the attached stake. Rejected
    /// when the stake is below the minimum, when the caller is the contract
    /// itself or the raffle's owner, when no such raffle exists, when the
    /// caller already joined, when the raffle is full, or when the current
    /// time is not strictly inside the open window; a rejection writes
    /// nothing. The stake's size carries no weight in the draw.
    pub fn participate(&mut self, caller: String, deposit: u128, now: u64, raffle_id: String) -> (
        r: Result<(), RaffleError>)
        requires
            old(self).wf(),
            old(self).raffle_view(raffle_id@) matches Some(rec) ==> rec.escrow() + deposit
                <= u128::MAX,
        ensures
            final(self).wf(),
            final(self).contract() == old(self).contract(),
            r == Err::<(), RaffleError>(RaffleError::InsufficientStake) <==> deposit < MIN_STAKE,
            r == Err::<(), RaffleError>(RaffleError::ContractParticipation) <==> deposit
                >= MIN_STAKE && caller@ == old(self).contract(),
            r == Err::<(), RaffleError>(RaffleError::SelfParticipation) <==> deposit >= MIN_STAKE
                && caller@ != old(self).contract() && caller@ == raffle_id@,
            r == Err::<(), RaffleError>(RaffleError::UnknownRaffle) <==> deposit >= MIN_STAKE
                && caller@ != old(self).contract() && caller@ != raffle_id@ && !old(
                self,
            ).has_raffle(raffle_id@),
            r == Err::<(), RaffleError>(RaffleError::AlreadyParticipated) <==> deposit
                >= MIN_STAKE && caller@ != old(self).contract() && caller@ != raffle_id@ && old(
                self,
            ).has_raffle(raffle_id@) && old(self).raffle_of(raffle_id@).has_participant(caller@),
            r == Err::<(), RaffleError>(RaffleError::RaffleFull) <==> deposit >= MIN_STAKE
                && caller@ != old(self).contract() && caller@ != raffle_id@ && old(
                self,
            ).has_raffle(raffle_id@) && !old(self).raffle_of(raffle_id@).has_participant(caller@)
                && old(self).raffle_of(raffle_id@).participants@.len() >= MAX_PARTICIPANTS,
            r == Err::<(), RaffleError>(RaffleError::OutsideWindow) <==> deposit >= MIN_STAKE
                && caller@ != old(self).contract() && caller@ != raffle_id@ && old(
                self,
            ).has_raffle(raffle_id@) && !old(self).raffle_of(raffle_id@).has_participant(caller@)
                && old(self).raffle_of(raffle_id@).participants@.len() < MAX_PARTICIPANTS && !(old(
                self,
            ).raffle_of(raffle_id@).start < now && now < old(self).raffle_of(raffle_id@).end),
            r is Ok <==> deposit >= MIN_STAKE && caller@ != old(self).contract() && caller@
                != raffle_id@ && old(self).has_raffle(raffle_id@) && !old(self).raffle_of(
                raffle_id@,
            ).has_participant(caller@) && old(self).raffle_of(raffle_id@).participants@.len()
                < MAX_PARTICIPANTS && old(self).raffle_of(raffle_id@).start < now && now < old(
                self,
            ).raffle_of(raffle_id@).end,
            caller@ == raffle_id@ ==> r is Err,
            r is Err ==> *final(self) == *old(self),
            r is Ok ==> ({
                let rec = old(self).raffle_of(raffle_id@);
                let rec2 = final(self).raffle_of(raffle_id@);
                &&& final(self).has_raffle(raffle_id@)
                &&& rec2.participants@ == rec.participants@.push(((caller, deposit)))
                &&& rec2.participants@.len() == rec.participants@.len() + 1
                &&& rec2.has_participant(caller@)
                &&& rec2.prize == rec.prize
                &&& rec2.start == rec.start
                &&& rec2.end == rec.end
                &&& rec2.attempts == rec.attempts
            }),
            forall|k: Seq<char>|
                k != raffle_id@ ==> #[trigger] final(self).raffle_view(k) == old(self).raffle_view(
                    k,
                ),
    {
        if deposit < MIN_STAKE {
            return Err(RaffleError::InsufficientStake);
        }
        if caller == self.contract_id {
            return Err(RaffleError::ContractParticipation);
        }
        if caller == raffle_id {
            return Err(RaffleError::SelfParticipation);
        }
        let i = match find_key(&self.raffles, &raffle_id) {
            Some(i) => i,
            None => { return Err(RaffleError::UnknownRaffle) },
        };
        proof {
            lemma_key_idx(self.raffles@, raffle_id@, i as int);
        }
        if find_key(&self.raffles[i].1.participants, &caller).is_some() {
            return Err(RaffleError::AlreadyParticipated);
        }
        if self.raffles[i].1.participants.len() >= MAX_PARTICIPANTS {
            return Err(RaffleError::RaffleFull);
        }
        let in_window = now > self.raffles[i].1.start && now < self.raffles[i].1.end;
        if !in_window {
            return Err(RaffleError::OutsideWindow);
        }
        let ghost pre = self.raffles@;
        let ghost stake_entry = ((caller, deposit));
        let (owner_key, rec0) = self.raffles.remove(i);
        let RaffleDetails {
            prize: rprize,
            start: rstart,
            end: rend,
            participants: mut rparts,
            attempts: ratt,
        } = rec0;
        let ghost pparts = rparts@;
        rparts.push((caller, deposit));
        let rec2 = RaffleDetails {
            prize: rprize,
            start: rstart,
            end: rend,
            participants: rparts,
            attempts: ratt,
        };
        let ghost entry2 = ((owner_key, rec2));
        self.raffles.insert(i, (owner_key, rec2));
        proof {
            assert(self.raffles@ =~= pre.update(i as int, entry2));
            lemma_push_lookup(pparts, stake_entry);
            lemma_sum_push(pparts, stake_entry);
            assert(entry2.1.wf());
            assert(entry2.0@ == pre[i as int].0@);
            assert(!entry2.1.has_participant(entry2.0@));
            lemma_update_lookup(pre, i as int, entry2);
            lemma_key_idx(self.raffles@, raffle_id@, i as int);
            assert forall|j: int|
                0 <= j < self.raffles@.len() implies (#[trigger] self.raffles@[j]).1.wf()
                && !self.raffles@[j].1.has_participant(self.raffles@[j].0@) by {
                if j != i as int {
                    assert(self.raffles@[j] == pre[j]);
                }
            }
        }
        Ok(())
    }

    /// Close a raffle once its window has passed. Only the owner or the
    /// contract's own identity may call, and only strictly after `end`. With
    /// no participants the record is deleted and the prize returns to the
    /// owner; otherwise the draw runs over this step's random bytes and
    /// either settles the raffle (record deleted, transfers owed) or leaves
    /// it intact with one more recorded attempt, to be retried in a later
    /// step. A rejection writes nothing.
    pub fn finalize_raffle(
        &mut self,
        caller: String,
        now: u64,
        random_seed: &Vec<u8>,
        raffle_id: String,
    ) -> (r: Result<FinalizeAction, RaffleError>)
        requires
            old(self).wf(),
            old(self).raffle_view(raffle_id@) matches Some(rec) ==> rec.attempts < u8::MAX,
        ensures
            final(self).wf(),
            final(self).contract() == old(self).contract(),
            r == Err::<FinalizeAction, RaffleError>(RaffleError::UnauthorizedFinalize) <==> caller@
                != raffle_id@ && caller@ != old(self).contract(),
            r == Err::<FinalizeAction, RaffleError>(RaffleError::UnknownRaffle) <==> (caller@
                == raffle_id@ || caller@ == old(self).contract()) && !old(self).has_raffle(
                raffle_id@,
            ),
            r == Err::<FinalizeAction, RaffleError>(RaffleError::RaffleNotOver) <==> (caller@
                == raffle_id@ || caller@ == old(self).contract()) && old(self).has_raffle(
                raffle_id@,
            ) && now <= old(self).raffle_of(raffle_id@).end,
            r is Ok <==> (caller@ == raffle_id@ || caller@ == old(self).contract()) && old(
                self,
            ).has_raffle(raffle_id@) && now > old(self).raffle_of(raffle_id@).end,
            r is Err ==> *final(self) == *old(self),
            r is Ok && old(self).raffle_of(raffle_id@).participants@.len() == 0 ==> (r matches Ok(
                FinalizeAction::RefundOwner { owner, amount },
            ) && owner@ == raffle_id@ && amount == old(self).raffle_of(raffle_id@).prize
                && !final(self).has_raffle(raffle_id@)),
            r is Ok && old(self).raffle_of(raffle_id@).participants@.len() > 0 && spec_draw(
                random_seed@,
                old(self).raffle_of(raffle_id@).participants@.len() as int,
            ) is Unresolved ==> ({
                let rec = old(self).raffle_of(raffle_id@);
                &&& r matches Ok(FinalizeAction::Retry { raffle_id: rid, attempts }) && rid@
                    == raffle_id@ && attempts == rec.attempts + 1
                &&& final(self).raffle_view(raffle_id@) matches Some(rec2) && rec2.prize
                    == rec.prize && rec2.start == rec.start && rec2.end == rec.end
                    && rec2.participants == rec.participants && rec2.attempts == rec.attempts + 1
            }),
            r is Ok && old(self).raffle_of(raffle_id@).participants@.len() > 0 ==> (spec_draw(
                random_seed@,
                old(self).raffle_of(raffle_id@).participants@.len() as int,
            ) matches DrawOutcome::Resolved(b) ==> (r matches Ok(
                FinalizeAction::Settle { transfers },
            ) && transfers@ == spec_settle(
                old(self).raffle_of(raffle_id@).prize,
                old(self).raffle_of(raffle_id@).participants@,
                b as int,
            ) && sum_amounts(transfers@) == old(self).raffle_of(raffle_id@).prize + sum_amounts(
                old(self).raffle_of(raffle_id@).participants@,
            ) && !final(self).has_raffle(raffle_id@))),
            forall|k: Seq<char>|
                k != raffle_id@ ==> #[trigger] final(self).raffle_view(k) == old(self).raffle_view(
                    k,
                ),
    {
        let authorized = caller == raffle_id || caller == self.contract_id;
        if !authorized {
            return Err(RaffleError::UnauthorizedFinalize);
        }
        let i = match find_key(&self.raffles, &raffle_id) {
            Some(i) => i,
            None => { return Err(RaffleError::UnknownRaffle) },
        };
        proof {
            lemma_key_idx(self.raffles@, raffle_id@, i as int);
        }
        if now <= self.raffles[i].1.end {
            return Err(RaffleError::RaffleNotOver);
        }
        let ghost pre = self.raffles@;
        let (owner_key, rec0) = self.raffles.remove(i);
        proof {
            lemma_remove_lookup(pre, i as int);
            assert forall|j: int|
                0 <= j < self.raffles@.len() implies (#[trigger] self.raffles@[j]).1.wf()
                && !self.raffles@[j].1.has_participant(self.raffles@[j].0@) by {
                if j < i as int {
                    assert(self.raffles@[j] == pre[j]);
                } else {
                    assert(self.raffles@[j] == pre[j + 1]);
                }
            }
        }
        if rec0.participants.len() == 0 {
            return Ok(FinalizeAction::RefundOwner { owner: raffle_id, amount: rec0.prize });
        }
        let n = rec0.participants.len();
        match select_winner(random_seed, n) {
            DrawOutcome::Unresolved => {
                let attempts = rec0.attempts + 1;
                let RaffleDetails {
                    prize: rprize,
                    start: rstart,
                    end: rend,
                    participants: rparts,
                    attempts: _,
                } = rec0;
                let rec2 = RaffleDetails {
                    prize: rprize,
                    start: rstart,
                    end: rend,
                    participants: rparts,
                    attempts,
                };
                let ghost entry2 = ((owner_key, rec2));
                self.raffles.insert(i, (owner_key, rec2));
                proof {
                    assert(self.raffles@ =~= pre.update(i as int, entry2));
                    lemma_update_lookup(pre, i as int, entry2);
                    assert forall|j: int|
                        0 <= j < self.raffles@.len() implies (#[trigger] self.raffles@[j]).1.wf()
                        && !self.raffles@[j].1.has_participant(self.raffles@[j].0@) by {
                        if j != i as int {
                            assert(self.raffles@[j] == pre[j]);
                        }
                    }
                }
                Ok(FinalizeAction::Retry { raffle_id, attempts })
            },
            DrawOutcome::Resolved(b) => {
                let transfers = settle(rec0.prize, &rec0.participants, b as usize);
                Ok(FinalizeAction::Settle { transfers })
            },
        }
    }
}

} // verus!
