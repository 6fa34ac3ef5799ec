use vstd::prelude::*;

verus! {

/// The reasons for which an operation of the ledger is refused.
#[derive(Debug, Clone, Copy, PartialEq, Eq, Structural)]
pub enum Error {
    InsufficientBalance,
    InsufficientAllowance,
    VotingIsNotOngoing,
    VotingIsAlreadyOngoing,
    AccountAlreadyVoted,
    AccountFrozenBecauseVoted,
    TimeToVoteNotElapsed,
    ExactAmountOfWeiRequired,
    TimeForFeeBurnHasNotLapsed,
}

} // verus!
