//! On-ledger raffle service: an owner escrows a prize, other accounts join by
//! escrowing a stake, and after the raffle window closes a winner is drawn by
//! rejection sampling over a per-step random byte sequence and paid the prize
//! plus their own stake, while every other participant is refunded.
//!
//! The host ledger (caller identity, attached value, current time, random
//! bytes, transfers, scheduling of retry steps) is an external collaborator:
//! every entry point takes those as plain values and returns the action the
//! host should perform.
use vstd::prelude::*;

pub mod errors;
pub mod ledger;
pub mod record;
pub mod registry;
pub mod selector;
pub mod settlement;
pub mod sums;

pub use errors::RaffleError;
pub use record::RaffleDetails;
pub use registry::FinalizeAction;
pub use registry::RaffleDapp;
pub use selector::DrawOutcome;
pub use selector::lemma_draw_all_high_unresolved;
pub use selector::lemma_draw_resolved_in_range;
pub use selector::select_winner;
pub use selector::spec_draw;
pub use settlement::lemma_settlement_conservative;
pub use settlement::settle;
pub use settlement::spec_settle;
pub use sums::sum_amounts;

verus! {

/// One whole unit of the ledger's currency, in its smallest denomination.
pub const ONE_NEAR: u128 = 1_000_000_000_000_000_000_000_000;

/// Factor between the caller's clock unit (milliseconds) and the ledger's
/// native time unit (nanoseconds).
pub const TO_FROM_NANOSECONDS: u64 = 1_000_000;

/// Fixed service/storage fee retained from the owner's deposit at registration.
pub const REGISTRATION_FEE: u128 = 2 * ONE_NEAR;

/// Minimum stake a participant must lock to join a raffle.
pub const MIN_STAKE: u128 = ONE_NEAR;

/// Upper bound on the number of participants of one raffle.
pub const MAX_PARTICIPANTS: usize = 256;

} // verus!
