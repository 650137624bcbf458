//! The refusals of the engine.

use vstd::prelude::*;

verus! {

/// Why an operation of the governance engine was refused.
#[derive(Clone, Copy, Debug, PartialEq, Eq, Structural)]
pub enum DaoError {
    /// A proposal must pay a positive amount.
    AmountShouldNotBeZero,
    /// A proposal may not ask for more than the treasury holds.
    AmountShouldNotExceedTheBalance,
    /// The voting window must last at least one minute.
    DurationError,
    /// The combined weight of the votes is below the quorum, or nobody voted.
    QuorumNotReached,
    /// More weight was cast against the proposal than for it.
    ProposalNotAccepted,
    /// No proposal is stored under the identifier.
    ProposalNotFound,
    /// The proposal has been executed before.
    ProposalAlreadyExecuted,
    /// The voting window of the proposal is over.
    VotePeriodEnded,
    /// The account has voted on the proposal before.
    AlreadyVoted,
    /// The treasury could not pay the amount out.
    TransferFailed,
}

} // verus!
