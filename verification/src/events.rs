use crate::account::AccountId;
use vstd::prelude::*;

verus! {

/// Tokens moved into the account `to`: out of the account `from`, or, where
/// `from` is `None`, out of nothing when the ledger was created.
#[derive(Clone, Copy, Debug, PartialEq, Eq)]
pub struct Transfer {
    pub from: Option<AccountId>,
    pub to: AccountId,
    pub value: u128,
}

/// The account `owner` set what `spender` may move out of it to `value`.
#[derive(Clone, Copy, Debug, PartialEq, Eq)]
pub struct Approval {
    pub owner: AccountId,
    pub spender: AccountId,
    pub value: u128,
}

/// A voting round was opened at `voting_begin_time`; it is round number
/// `voting_number` of the ledger.
#[derive(Clone, Copy, Debug, PartialEq, Eq)]
pub struct VotingStartedTime {
    pub voting_begin_time: u64,
    pub voting_number: u32,
}

} // verus!
