//! Every failure of the raffle core is a precondition violation reported as an
//! immediate error; the host is expected to abort the whole call on one, so no
//! partial state is ever written.
use vstd::prelude::*;

verus! {

/// Reason a raffle operation was rejected. Each variant corresponds to exactly
/// one precondition of one entry point; the `ensures` clauses of the entry
/// points say precisely on which inputs each one is returned.
#[derive(Clone, Copy, Debug, PartialEq, Eq, Structural)]
pub enum RaffleError {
    /// Initialization attempted by an account other than the contract's own.
    UnauthorizedInit,
    /// Registration deposit does not exceed the fixed fee floor.
    InsufficientDeposit,
    /// The caller already has a live raffle.
    AlreadyRegistered,
    /// The requested window has `end <= start`.
    InvalidWindow,
    /// Participation stake is below the fixed minimum.
    InsufficientStake,
    /// The contract's own operating identity tried to participate.
    ContractParticipation,
    /// A caller tried to join their own raffle.
    SelfParticipation,
    /// No raffle is registered under the given owner identity.
    UnknownRaffle,
    /// The caller already joined this raffle.
    AlreadyParticipated,
    /// The raffle already holds the maximum number of participants.
    RaffleFull,
    /// The current time is outside the raffle's open window.
    OutsideWindow,
    /// Finalization attempted by neither the owner nor the contract identity.
    UnauthorizedFinalize,
    /// Finalization attempted before the raffle window has closed.
    RaffleNotOver,
}

} // verus!
