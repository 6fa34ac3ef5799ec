use crate::account::{AccountId, Delegation};
use crate::error::Error;
use crate::supply::{held, sum_of};
use vstd::prelude::*;

verus! {

/// How long a voting round stays open, in units of the clock.
pub const VOTING_PERIOD: u64 = 86400;

/// How long the fee pool must rest between two burns, in units of the clock.
pub const FEE_BURN_PERIOD: u64 = 604800;

/// The price of one token when the ledger is created.
pub const INITIAL_TOKEN_PRICE: u128 = 5;

/// The fee on a purchase or a sale is `FEE_NUMERATOR / FEE_DENOMINATOR` of the
/// amount, rounded down.
pub const FEE_NUMERATOR: u128 = 1;

/// The parts that an amount is divided into to take `FEE_NUMERATOR` of them
/// as the fee.
pub const FEE_DENOMINATOR: u128 = 100;

/// Who opens a voting round holds at least one part in `INITIATOR_SHARE` of
/// the supply.
pub const INITIATOR_SHARE: u128 = 10;

/// Who votes holds at least one part in `VOTER_SHARE` of the supply.
pub const VOTER_SHARE: u128 = 20;

/// All that the ledger remembers between two calls.
pub struct State {
    pub total_supply: u128,
    pub balances: Map<AccountId, u128>,
    pub allowances: Map<Delegation, u128>,
    pub is_voting_happening: bool,
    pub votes: Map<u128, u128>,
    pub time_to_vote: u64,
    pub voting_begin_time: u64,
    pub voting_end_time: u64,
    pub already_voted: Map<AccountId, bool>,
    pub current_winner: u128,
    pub voting_number: u32,
    pub token_price: u128,
    pub fee: u128,
    pub fee_divider: u128,
    pub weekly_fee_to_burn: u128,
    pub time_lapsed_for_fee_to_burn: u64,
}

impl State {
    /// The ledger at its creation: `deployer` holds the whole supply and no
    /// voting round has ever been opened.
    pub open spec fn genesis(deployer: AccountId, total_supply: u128) -> State {
        State {
            total_supply,
            balances: Map::empty().insert(deployer, total_supply),
            allowances: Map::empty(),
            is_voting_happening: false,
            votes: Map::empty(),
            time_to_vote: VOTING_PERIOD,
            voting_begin_time: 0,
            voting_end_time: 0,
            already_voted: Map::empty(),
            current_winner: 0,
            voting_number: 0,
            token_price: INITIAL_TOKEN_PRICE,
            fee: FEE_NUMERATOR,
            fee_divider: FEE_DENOMINATOR,
            weekly_fee_to_burn: 0,
            time_lapsed_for_fee_to_burn: 0,
        }
    }

    /// What `owner` holds; an account that the ledger has never seen holds
    /// nothing.
    pub open spec fn balance_of(self, owner: AccountId) -> u128 {
        held(self.balances, owner)
    }

    /// What `spender` may move out of the account of `owner`.
    pub open spec fn allowance(self, owner: AccountId, spender: AccountId) -> u128 {
        held(self.allowances, Delegation { owner, spender })
    }

    /// Whether `account` has cast its vote in the round that is open. An
    /// account that has is frozen: it can neither send, buy nor sell.
    pub open spec fn has_voted(self, account: AccountId) -> bool {
        self.already_voted.contains_key(account) && self.already_voted[account]
    }

    /// The weight recorded for the price `option` in the round that is open.
    pub open spec fn weight_of(self, option: u128) -> u128 {
        held(self.votes, option)
    }

    /// The tokens that the accounts hold, all together.
    pub open spec fn circulating(self) -> nat {
        sum_of(self.balances)
    }

    /// The fee taken on a purchase or a sale of `amount` tokens.
    pub open spec fn fee_on(self, amount: u128) -> int {
        (amount * self.fee) / (self.fee_divider as int)
    }

    /// Whether `account` holds at least one part in `parts` of the supply.
    pub open spec fn holds_share(self, account: AccountId, parts: u128) -> bool {
        self.balance_of(account) * parts >= self.total_supply
    }

    /// Whether the clock reading `now` falls inside the round that is open.
    pub open spec fn voting_open_at(self, now: u64) -> bool {
        self.is_voting_happening && self.voting_begin_time <= now <= self.voting_end_time
    }

    /// What holds of the ledger between any two calls.
    ///
    /// The accounts and the fee pool together never hold more than was issued;
    /// the fee rate and the length of a round are those of the creation; and
    /// while no round is open, nothing is left of an earlier one.
    pub open spec fn consistent(self) -> bool {
        &&& self.balances.dom().finite()
        &&& self.circulating() + self.weekly_fee_to_burn <= self.total_supply
        &&& self.fee == FEE_NUMERATOR
        &&& self.fee_divider == FEE_DENOMINATOR
        &&& self.time_to_vote == VOTING_PERIOD
        &&& self.is_voting_happening ==> self.voting_end_time == self.voting_begin_time
            + self.time_to_vote
        &&& !self.is_voting_happening ==> {
            &&& self.voting_begin_time == 0
            &&& self.voting_end_time == 0
            &&& self.votes == Map::<u128, u128>::empty()
            &&& self.already_voted == Map::<AccountId, bool>::empty()
        }
    }

    /// The ledger once `tokens` have left the account `from` for the account
    /// `to`. The account `to` is credited after `from` was debited, so tokens
    /// sent to oneself come back.
    pub open spec fn moved(self, from: AccountId, to: AccountId, tokens: u128) -> State {
        let debited = self.balances.insert(from, (held(self.balances, from) - tokens) as u128);
        let credited = debited.insert(to, (held(debited, to) + tokens) as u128);
        State { balances: credited, ..self }
    }

    /// Why `transfer` refuses to send `tokens` out of the account of `caller`,
    /// or `None` where it accepts.
    pub open spec fn transfer_refusal(self, caller: AccountId, tokens: u128) -> Option<Error> {
        if self.balance_of(caller) < tokens {
            Some(Error::InsufficientBalance)
        } else if self.has_voted(caller) {
            Some(Error::AccountFrozenBecauseVoted)
        } else {
            None
        }
    }

    /// Why `transfer_from` refuses to let `caller` send `tokens` out of the
    /// account `from`, or `None` where it accepts.
    pub open spec fn transfer_from_refusal(
        self,
        caller: AccountId,
        from: AccountId,
        tokens: u128,
    ) -> Option<Error> {
        if self.balance_of(from) < tokens {
            Some(Error::InsufficientBalance)
        } else if self.allowance(from, caller) < tokens {
            Some(Error::InsufficientAllowance)
        } else if self.has_voted(from) {
            Some(Error::AccountFrozenBecauseVoted)
        } else {
            None
        }
    }

    /// Why `approve` refuses to let `caller` grant `tokens`, or `None` where it
    /// accepts.
    pub open spec fn approve_refusal(self, caller: AccountId, tokens: u128) -> Option<Error> {
        if self.balance_of(caller) < tokens {
            Some(Error::InsufficientBalance)
        } else {
            None
        }
    }

    /// The ledger once `spender` may move exactly `tokens` out of the account
    /// of `owner`.
    pub open spec fn after_approve(self, owner: AccountId, spender: AccountId, tokens: u128) -> State {
        State { allowances: self.allowances.insert(Delegation { owner, spender }, tokens), ..self }
    }

    /// Why `vote` refuses the vote of `caller` at the time `now`, or `None`
    /// where it accepts.
    pub open spec fn vote_refusal(self, caller: AccountId, now: u64) -> Option<Error> {
        if !self.voting_open_at(now) {
            Some(Error::VotingIsNotOngoing)
        } else if !self.holds_share(caller, VOTER_SHARE) {
            Some(Error::InsufficientBalance)
        } else if self.has_voted(caller) {
            Some(Error::AccountAlreadyVoted)
        } else {
            None
        }
    }

    /// The ledger once `caller` has voted for the price `price`.
    ///
    /// The weight of `price` becomes what `caller` holds, whatever it was, and
    /// `price` takes the lead where the leading price has no weight or less
    /// weight than that.
    pub open spec fn after_vote(self, caller: AccountId, price: u128) -> State {
        let votes = self.votes.insert(price, self.balance_of(caller));
        let leading = held(votes, self.current_winner);
        State {
            votes,
            already_voted: self.already_voted.insert(caller, true),
            current_winner: if leading == 0 || leading < held(votes, price) {
                price
            } else {
                self.current_winner
            },
            ..self
        }
    }

    /// Why `initiate_voting` refuses to let `caller` open a round at the time
    /// `now`, or `None` where it accepts.
    pub open spec fn initiate_voting_refusal(self, caller: AccountId, now: u64) -> Option<Error> {
        if !self.holds_share(caller, INITIATOR_SHARE) {
            Some(Error::InsufficientBalance)
        } else if self.is_voting_happening || now < self.voting_end_time {
            Some(Error::VotingIsAlreadyOngoing)
        } else {
            None
        }
    }

    /// The ledger with a round opened at the time `now` and no vote cast yet.
    pub open spec fn round_opened(self, now: u64) -> State {
        State {
            is_voting_happening: true,
            voting_begin_time: now,
            voting_end_time: (now + self.time_to_vote) as u64,
            ..self
        }
    }

    /// The ledger once `caller` has opened a round at the time `now` with a
    /// vote for the price `option`. Were that vote refused, the round would be
    /// open all the same.
    pub open spec fn after_initiate_voting(self, caller: AccountId, now: u64, option: u128) -> State {
        let opened = self.round_opened(now);
        let voted = if opened.vote_refusal(caller, now) is None {
            opened.after_vote(caller, option)
        } else {
            opened
        };
        State { voting_number: (self.voting_number + 1) as u32, ..voted }
    }

    /// Whether the clock and the round counter have room for a round opened at
    /// the time `now`.
    pub open spec fn round_fits(self, now: u64) -> bool {
        now + self.time_to_vote <= u64::MAX && self.voting_number < u32::MAX
    }

    /// Why `end_voting` refuses to close the round at the time `now`, or `None`
    /// where it accepts.
    pub open spec fn end_voting_refusal(self, now: u64) -> Option<Error> {
        if now < self.voting_end_time {
            Some(Error::TimeToVoteNotElapsed)
        } else if now < self.voting_begin_time || !self.is_voting_happening {
            Some(Error::VotingIsNotOngoing)
        } else {
            None
        }
    }

    /// The ledger once the round is closed: the leading price is the price of a
    /// token, and nothing is left of the round but its leading price.
    pub open spec fn after_end_voting(self) -> State {
        State {
            token_price: self.current_winner,
            is_voting_happening: false,
            voting_begin_time: 0,
            voting_end_time: 0,
            votes: Map::empty(),
            already_voted: Map::empty(),
            ..self
        }
    }

    /// The ledger once `value` tokens were issued to nobody.
    pub open spec fn after_mint(self, value: u128) -> State {
        State { total_supply: (self.total_supply + value) as u128, ..self }
    }

    /// The ledger once `value` tokens of the account `address` were destroyed.
    pub open spec fn after_burn(self, value: u128, address: AccountId) -> State {
        State {
            total_supply: (self.total_supply - value) as u128,
            balances: self.balances.insert(address, (self.balance_of(address) - value) as u128),
            ..self
        }
    }

    /// Why `buy` refuses to sell `amount` tokens to `caller` for `payment`, or
    /// `None` where it accepts.
    pub open spec fn buy_refusal(self, caller: AccountId, amount: u128, payment: u128) -> Option<
        Error,
    > {
        if self.has_voted(caller) {
            Some(Error::AccountFrozenBecauseVoted)
        } else if payment != amount * self.token_price {
            Some(Error::ExactAmountOfWeiRequired)
        } else {
            None
        }
    }

    /// The ledger once `caller` has bought `amount` tokens: they are issued,
    /// the fee goes to the fee pool and the rest to `caller`.
    pub open spec fn after_buy(self, caller: AccountId, amount: u128) -> State {
        let fee = self.fee_on(amount);
        State {
            total_supply: (self.total_supply + amount) as u128,
            balances: self.balances.insert(
                caller,
                (self.balance_of(caller) + amount - fee) as u128,
            ),
            weekly_fee_to_burn: (self.weekly_fee_to_burn + fee) as u128,
            ..self
        }
    }

    /// Why `sell` refuses to take `amount` tokens back from `caller`, or `None`
    /// where it accepts.
    pub open spec fn sell_refusal(self, caller: AccountId, amount: u128) -> Option<Error> {
        if self.has_voted(caller) {
            Some(Error::AccountFrozenBecauseVoted)
        } else if self.balance_of(caller) < amount + self.fee_on(amount) {
            Some(Error::InsufficientBalance)
        } else {
            None
        }
    }

    /// The ledger once `caller` has sold `amount` tokens: they are destroyed,
    /// and `caller` pays the fee on top, which goes to the fee pool.
    pub open spec fn after_sell(self, caller: AccountId, amount: u128) -> State {
        let fee = self.fee_on(amount);
        State {
            total_supply: (self.total_supply - amount) as u128,
            balances: self.balances.insert(
                caller,
                (self.balance_of(caller) - amount - fee) as u128,
            ),
            weekly_fee_to_burn: (self.weekly_fee_to_burn + fee) as u128,
            ..self
        }
    }

    /// Why `burn_fee_weekly` refuses to burn the fee pool at the time `now`, or
    /// `None` where it accepts.
    pub open spec fn burn_fee_weekly_refusal(self, now: u64) -> Option<Error> {
        if now - self.time_lapsed_for_fee_to_burn < FEE_BURN_PERIOD {
            Some(Error::TimeForFeeBurnHasNotLapsed)
        } else {
            None
        }
    }

    /// The ledger once the fee pool was burnt at the time `now`, out of the
    /// account of `caller`.
    pub open spec fn after_burn_fee_weekly(self, caller: AccountId, now: u64) -> State {
        let burnt = self.after_burn(self.weekly_fee_to_burn, caller);
        State { weekly_fee_to_burn: 0, time_lapsed_for_fee_to_burn: now, ..burnt }
    }
}

/// One call of an operation that may change the ledger, with all that the
/// operation is told.
#[derive(Clone, Copy, Debug)]
pub enum Call {
    Transfer { caller: AccountId, to: AccountId, tokens: u128 },
    TransferFrom { caller: AccountId, from: AccountId, to: AccountId, tokens: u128 },
    Approve { caller: AccountId, spender: AccountId, tokens: u128 },
    InitiateVoting { caller: AccountId, now: u64, option: u128 },
    Vote { caller: AccountId, now: u64, price: u128 },
    EndVoting { now: u64 },
    Buy { caller: AccountId, amount: u128, payment: u128 },
    Sell { caller: AccountId, amount: u128 },
    BurnFeeWeekly { caller: AccountId, now: u64 },
    Mint { value: u128 },
    Burn { value: u128, address: AccountId },
}

impl State {
    /// Why the ledger refuses `call`, or `None` where it accepts.
    pub open spec fn refusal(self, call: Call) -> Option<Error> {
        match call {
            Call::Transfer { caller, to, tokens } => self.transfer_refusal(caller, tokens),
            Call::TransferFrom { caller, from, to, tokens } => self.transfer_from_refusal(
                caller,
                from,
                tokens,
            ),
            Call::Approve { caller, spender, tokens } => self.approve_refusal(caller, tokens),
            Call::InitiateVoting { caller, now, option } => self.initiate_voting_refusal(
                caller,
                now,
            ),
            Call::Vote { caller, now, price } => self.vote_refusal(caller, now),
            Call::EndVoting { now } => self.end_voting_refusal(now),
            Call::Buy { caller, amount, payment } => self.buy_refusal(caller, amount, payment),
            Call::Sell { caller, amount } => self.sell_refusal(caller, amount),
            Call::BurnFeeWeekly { caller, now } => self.burn_fee_weekly_refusal(now),
            Call::Mint { value } => None,
            Call::Burn { value, address } => None,
        }
    }

    /// Whether `call` can be made at all: the operation asks this of whoever
    /// calls it, where it is about to accept.
    pub open spec fn admits(self, call: Call) -> bool {
        self.refusal(call) is None ==> match call {
            Call::InitiateVoting { caller, now, option } => self.round_fits(now),
            Call::Buy { caller, amount, payment } => self.total_supply + amount <= u128::MAX,
            Call::BurnFeeWeekly { caller, now } => self.balance_of(caller)
                >= self.weekly_fee_to_burn,
            Call::Mint { value } => self.total_supply + value <= u128::MAX,
            Call::Burn { value, address } => self.balance_of(address) >= value,
            _ => true,
        }
    }

    /// The ledger once `call` was accepted.
    pub open spec fn after(self, call: Call) -> State {
        match call {
            Call::Transfer { caller, to, tokens } => self.moved(caller, to, tokens),
            Call::TransferFrom { caller, from, to, tokens } => self.moved(from, to, tokens),
            Call::Approve { caller, spender, tokens } => self.after_approve(
                caller,
                spender,
                tokens,
            ),
            Call::InitiateVoting { caller, now, option } => self.after_initiate_voting(
                caller,
                now,
                option,
            ),
            Call::Vote { caller, now, price } => self.after_vote(caller, price),
            Call::EndVoting { now } => self.after_end_voting(),
            Call::Buy { caller, amount, payment } => self.after_buy(caller, amount),
            Call::Sell { caller, amount } => self.after_sell(caller, amount),
            Call::BurnFeeWeekly { caller, now } => self.after_burn_fee_weekly(caller, now),
            Call::Mint { value } => self.after_mint(value),
            Call::Burn { value, address } => self.after_burn(value, address),
        }
    }

    /// Whether `call` can be made and is accepted.
    pub open spec fn accepts(self, call: Call) -> bool {
        self.admits(call) && self.refusal(call) is None
    }

    /// The ledger after `call`: changed where the call is accepted, and as it
    /// was where the call is refused or cannot be made.
    pub open spec fn step(self, call: Call) -> State {
        if self.accepts(call) {
            self.after(call)
        } else {
            self
        }
    }

    /// The ledger after all of `calls`, made one after the other.
    pub open spec fn run(self, calls: Seq<Call>) -> State
        decreases calls.len(),
    {
        if calls.len() == 0 {
            self
        } else {
            self.run(calls.drop_last()).step(calls.last())
        }
    }

    /// By how much the supply exceeds what the accounts hold.
    pub open spec fn unheld(self) -> int {
        self.total_supply - self.circulating()
    }

    /// The tokens that `call` issues without putting them into an account:
    /// what a call of `mint` issues, and the fee on a purchase or a sale.
    pub open spec fn issues_unheld(self, call: Call) -> int {
        if self.accepts(call) {
            match call {
                Call::Mint { value } => value as int,
                Call::Buy { caller, amount, payment } => self.fee_on(amount),
                Call::Sell { caller, amount } => self.fee_on(amount),
                _ => 0,
            }
        } else {
            0
        }
    }
}

} // verus!
