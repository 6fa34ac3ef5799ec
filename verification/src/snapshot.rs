use crate::account::{AccountId, Delegation};
use crate::model::State;
use crate::table::{bindings, distinct_keys};
use vstd::prelude::*;

verus! {

/// All that a ledger remembers, as plain values that can be stored and read
/// back: each table as the list of its bindings.
#[derive(Clone, Debug)]
pub struct Snapshot {
    pub total_supply: u128,
    pub balances: Vec<(AccountId, u128)>,
    pub allowances: Vec<(Delegation, u128)>,
    pub is_voting_happening: bool,
    pub votes: Vec<(u128, u128)>,
    pub time_to_vote: u64,
    pub voting_begin_time: u64,
    pub voting_end_time: u64,
    pub already_voted: Vec<(AccountId, bool)>,
    pub current_winner: u128,
    pub voting_number: u32,
    pub token_price: u128,
    pub fee: u128,
    pub fee_divider: u128,
    pub weekly_fee_to_burn: u128,
    pub time_lapsed_for_fee_to_burn: u64,
}

impl Snapshot {
    /// The state of the ledger that the snapshot was taken of.
    pub open spec fn state(self) -> State {
        State {
            total_supply: self.total_supply,
            balances: bindings(self.balances@),
            allowances: bindings(self.allowances@),
            is_voting_happening: self.is_voting_happening,
            votes: bindings(self.votes@),
            time_to_vote: self.time_to_vote,
            voting_begin_time: self.voting_begin_time,
            voting_end_time: self.voting_end_time,
            already_voted: bindings(self.already_voted@),
            current_winner: self.current_winner,
            voting_number: self.voting_number,
            token_price: self.token_price,
            fee: self.fee,
            fee_divider: self.fee_divider,
            weekly_fee_to_burn: self.weekly_fee_to_burn,
            time_lapsed_for_fee_to_burn: self.time_lapsed_for_fee_to_burn,
        }
    }

    /// Whether a ledger can be restored from the snapshot: no list binds a
    /// key twice, and the state is one that a ledger can be in.
    pub open spec fn valid(self) -> bool {
        &&& distinct_keys(self.balances@)
        &&& distinct_keys(self.allowances@)
        &&& distinct_keys(self.votes@)
        &&& distinct_keys(self.already_voted@)
        &&& self.state().consistent()
    }
}

} // verus!
