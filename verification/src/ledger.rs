use crate::account::{AccountId, Delegation};
use crate::consistency::{
    lemma_burn, lemma_burn_fee_weekly, lemma_buy, lemma_fee, lemma_genesis, lemma_mint, lemma_moved,
    lemma_sell,
};
use crate::error::Error;
use crate::events::{Approval, Transfer, VotingStartedTime};
use crate::model::{
    Call, State, FEE_BURN_PERIOD, FEE_DENOMINATOR, FEE_NUMERATOR, INITIAL_TOKEN_PRICE, INITIATOR_SHARE,
    VOTER_SHARE, VOTING_PERIOD,
};
use crate::snapshot::Snapshot;
use crate::table::Table;
use vstd::prelude::*;

verus! {

/// A token ledger whose holders vote on the price at which tokens are bought
/// and sold.
///
/// Every operation is told who calls it and, where it matters, what the clock
/// reads and what was paid with the call. An operation that is refused leaves
/// the ledger as it was.
pub struct Erc20 {
    total_supply: u128,
    balances: Table<AccountId, u128>,
    allowances: Table<Delegation, u128>,
    is_voting_happening: bool,
    votes: Table<u128, u128>,
    time_to_vote: u64,
    voting_begin_time: u64,
    voting_end_time: u64,
    already_voted: Table<AccountId, bool>,
    current_winner: u128,
    voting_number: u32,
    token_price: u128,
    fee: u128,
    fee_divider: u128,
    weekly_fee_to_burn: u128,
    time_lapsed_for_fee_to_burn: u64,
}

impl View for Erc20 {
    type V = State;

    closed spec fn view(&self) -> State {
        State {
            total_supply: self.total_supply,
            balances: self.balances@,
            allowances: self.allowances@,
            is_voting_happening: self.is_voting_happening,
            votes: self.votes@,
            time_to_vote: self.time_to_vote,
            voting_begin_time: self.voting_begin_time,
            voting_end_time: self.voting_end_time,
            already_voted: self.already_voted@,
            current_winner: self.current_winner,
            voting_number: self.voting_number,
            token_price: self.token_price,
            fee: self.fee,
            fee_divider: self.fee_divider,
            weekly_fee_to_burn: self.weekly_fee_to_burn,
            time_lapsed_for_fee_to_burn: self.time_lapsed_for_fee_to_burn,
        }
    }
}

impl Erc20 {
    /// Whether the ledger is in a state that its operations can work on. The
    /// constructor gives such a ledger and every operation keeps it so.
    pub open spec fn wf(&self) -> bool {
        self@.consistent()
    }

    /// Creates the ledger, with the whole of `total_supply` in the account of
    /// `deployer`, and returns it with the notice of that first credit.
    pub fn new(deployer: AccountId, total_supply: u128) -> (created: (Erc20, Transfer))
        ensures
            created.0.wf(),
            created.0@ == State::genesis(deployer, total_supply),
            created.1 == (Transfer { from: None, to: deployer, value: total_supply }),
    {
        let mut balances = Table::new();
        balances.insert(deployer, total_supply);
        let ledger = Erc20 {
            total_supply,
            balances,
            allowances: Table::new(),
            is_voting_happening: false,
            votes: Table::new(),
            time_to_vote: VOTING_PERIOD,
            voting_begin_time: 0,
            voting_end_time: 0,
            already_voted: Table::new(),
            current_winner: 0,
            voting_number: 0,
            token_price: INITIAL_TOKEN_PRICE,
            fee: FEE_NUMERATOR,
            fee_divider: FEE_DENOMINATOR,
            weekly_fee_to_burn: 0,
            time_lapsed_for_fee_to_burn: 0,
        };
        proof {
            lemma_genesis(deployer, total_supply);
        }
        (ledger, Transfer { from: None, to: deployer, value: total_supply })
    }

    /// All that the ledger remembers, as plain values to store.
    pub fn snapshot(&self) -> (taken: Snapshot)
        ensures
            taken.state() == self@,
            self.wf() ==> taken.valid(),
    {
        Snapshot {
            total_supply: self.total_supply,
            balances: self.balances.entries(),
            allowances: self.allowances.entries(),
            is_voting_happening: self.is_voting_happening,
            votes: self.votes.entries(),
            time_to_vote: self.time_to_vote,
            voting_begin_time: self.voting_begin_time,
            voting_end_time: self.voting_end_time,
            already_voted: self.already_voted.entries(),
            current_winner: self.current_winner,
            voting_number: self.voting_number,
            token_price: self.token_price,
            fee: self.fee,
            fee_divider: self.fee_divider,
            weekly_fee_to_burn: self.weekly_fee_to_burn,
            time_lapsed_for_fee_to_burn: self.time_lapsed_for_fee_to_burn,
        }
    }

    /// The ledger that `stored` was taken of, or `None` where `stored` is not
    /// the snapshot of any ledger.
    pub fn restore(stored: Snapshot) -> (restored: Option<Erc20>)
        ensures
            restored is Some <==> stored.valid(),
            restored matches Some(ledger) ==> ledger.wf() && ledger@ == stored.state(),
    {
        let Snapshot {
            total_supply,
            balances,
            allowances,
            is_voting_happening,
            votes,
            time_to_vote,
            voting_begin_time,
            voting_end_time,
            already_voted,
            current_winner,
            voting_number,
            token_price,
            fee,
            fee_divider,
            weekly_fee_to_burn,
            time_lapsed_for_fee_to_burn,
        } = stored;
        let balances = match Table::from_entries(balances) {
            Some(table) => table,
            None => {
                return None;
            },
        };
        let allowances = match Table::from_entries(allowances) {
            Some(table) => table,
            None => {
                return None;
            },
        };
        let votes = match Table::from_entries(votes) {
            Some(table) => table,
            None => {
                return None;
            },
        };
        let already_voted = match Table::from_entries(already_voted) {
            Some(table) => table,
            None => {
                return None;
            },
        };
        proof {
            balances.lemma_finite();
        }
        let backed = match balances.total() {
            Some(held) => match held.checked_add(weekly_fee_to_burn) {
                Some(owed) => owed <= total_supply,
                None => false,
            },
            None => false,
        };
        if !backed || fee != FEE_NUMERATOR || fee_divider != FEE_DENOMINATOR || time_to_vote
            != VOTING_PERIOD {
            return None;
        }
        if is_voting_happening {
            match voting_begin_time.checked_add(time_to_vote) {
                Some(end) => {
                    if voting_end_time != end {
                        return None;
                    }
                },
                None => {
                    return None;
                },
            }
        } else {
            if voting_begin_time != 0 || voting_end_time != 0 || !votes.is_empty()
                || !already_voted.is_empty() {
                return None;
            }
        }
        Some(
            Erc20 {
                total_supply,
                balances,
                allowances,
                is_voting_happening,
                votes,
                time_to_vote,
                voting_begin_time,
                voting_end_time,
                already_voted,
                current_winner,
                voting_number,
                token_price,
                fee,
                fee_divider,
                weekly_fee_to_burn,
                time_lapsed_for_fee_to_burn,
            },
        )
    }

    /// The number of tokens issued and not destroyed.
    pub fn total_supply(&self) -> (supply: u128)
        ensures
            supply == self@.total_supply,
    {
        self.total_supply
    }

    /// What the account `owner` holds: nothing, where the ledger has never
    /// seen it.
    pub fn balance_of(&self, owner: AccountId) -> (balance: u128)
        ensures
            balance == self@.balance_of(owner),
    {
        match self.balances.get(&owner) {
            Some(balance) => balance,
            None => 0,
        }
    }

    /// What `spender` may move out of the account of `token_owner`: nothing,
    /// where it was never granted anything.
    pub fn allowances(&self, token_owner: AccountId, spender: AccountId) -> (allowance: u128)
        ensures
            allowance == self@.allowance(token_owner, spender),
    {
        match self.allowances.get(&Delegation { owner: token_owner, spender }) {
            Some(allowance) => allowance,
            None => 0,
        }
    }

    /// Whether `account` has cast its vote in the round that is open.
    pub fn already_voted(&self, account: AccountId) -> (voted: bool)
        ensures
            voted == self@.has_voted(account),
    {
        match self.already_voted.get(&account) {
            Some(voted) => voted,
            None => false,
        }
    }

    /// Whether a voting round is open.
    pub fn is_voting_happening(&self) -> (open: bool)
        ensures
            open == self@.is_voting_happening,
    {
        self.is_voting_happening
    }

    /// How long a voting round lasts.
    pub fn time_to_vote(&self) -> (period: u64)
        ensures
            period == self@.time_to_vote,
    {
        self.time_to_vote
    }

    /// When the round that is open began: zero, while none is.
    pub fn voting_begin_time(&self) -> (time: u64)
        ensures
            time == self@.voting_begin_time,
    {
        self.voting_begin_time
    }

    /// When the round that is open ends: zero, while none is.
    pub fn voting_end_time(&self) -> (time: u64)
        ensures
            time == self@.voting_end_time,
    {
        self.voting_end_time
    }

    /// The price that leads in the round that is open, or that led when the
    /// last round was closed.
    pub fn current_winner(&self) -> (price: u128)
        ensures
            price == self@.current_winner,
    {
        self.current_winner
    }

    /// How many voting rounds were opened so far.
    pub fn voting_number(&self) -> (rounds: u32)
        ensures
            rounds == self@.voting_number,
    {
        self.voting_number
    }

    /// The price of one token, in the currency that purchases are paid in.
    pub fn token_price(&self) -> (price: u128)
        ensures
            price == self@.token_price,
    {
        self.token_price
    }

    /// The fees taken since the fee pool was last burnt.
    pub fn weekly_fee_to_burn(&self) -> (pool: u128)
        ensures
            pool == self@.weekly_fee_to_burn,
    {
        self.weekly_fee_to_burn
    }

    /// When the fee pool was last burnt: zero, where it never was.
    pub fn time_lapsed_for_fee_to_burn(&self) -> (time: u64)
        ensures
            time == self@.time_lapsed_for_fee_to_burn,
    {
        self.time_lapsed_for_fee_to_burn
    }

    /// Takes `tokens` out of the account `from` and puts them into the account
    /// `to`.
    fn move_tokens(&mut self, from: AccountId, to: AccountId, tokens: u128)
        requires
            old(self).wf(),
            old(self)@.balance_of(from) >= tokens,
        ensures
            final(self).wf(),
            final(self)@ == old(self)@.moved(from, to, tokens),
    {
        proof {
            lemma_moved(self@, from, to, tokens);
        }
        let from_balance = self.balance_of(from);
        self.balances.insert(from, from_balance - tokens);
        let to_balance = self.balance_of(to);
        self.balances.insert(to, to_balance + tokens);
    }

    /// Sends `tokens` from the account of `caller` to the account `to`.
    ///
    /// Refused with `InsufficientBalance` where `caller` holds less than
    /// `tokens`, and otherwise with `AccountFrozenBecauseVoted` where `caller`
    /// has voted in the round that is open.
    pub fn transfer(&mut self, caller: AccountId, to: AccountId, tokens: u128) -> (outcome: Result<
        Transfer,
        Error,
    >)
        requires
            old(self).wf(),
        ensures
            final(self).wf(),
            match outcome {
                Ok(notice) => {
                    &&& old(self)@.transfer_refusal(caller, tokens) is None
                    &&& final(self)@ == old(self)@.moved(caller, to, tokens)
                    &&& notice == (Transfer { from: Some(caller), to, value: tokens })
                },
                Err(error) => {
                    &&& old(self)@.transfer_refusal(caller, tokens) == Some(error)
                    &&& final(self)@ == old(self)@
                },
            },
            old(self)@.balance_of(caller) < tokens ==> outcome == Err::<Transfer, Error>(
                Error::InsufficientBalance,
            ),
    {
        if self.balance_of(caller) < tokens {
            return Err(Error::InsufficientBalance);
        }
        if self.already_voted(caller) {
            return Err(Error::AccountFrozenBecauseVoted);
        }
        self.move_tokens(caller, to, tokens);
        Ok(Transfer { from: Some(caller), to, value: tokens })
    }

    /// Lets `caller` send `tokens` from the account `from` to the account `to`,
    /// within what `from` has granted to `caller`. The grant is left as it was.
    ///
    /// Refused with `InsufficientBalance` where `from` holds less than
    /// `tokens`, otherwise with `InsufficientAllowance` where `caller` was
    /// granted less, and otherwise with `AccountFrozenBecauseVoted` where
    /// `from` has voted in the round that is open.
    pub fn transfer_from(
        &mut self,
        caller: AccountId,
        from: AccountId,
        to: AccountId,
        tokens: u128,
    ) -> (outcome: Result<Transfer, Error>)
        requires
            old(self).wf(),
        ensures
            final(self).wf(),
            match outcome {
                Ok(notice) => {
                    &&& old(self)@.transfer_from_refusal(caller, from, tokens) is None
                    &&& final(self)@ == old(self)@.moved(from, to, tokens)
                    &&& notice == (Transfer { from: Some(from), to, value: tokens })
                },
                Err(error) => {
                    &&& old(self)@.transfer_from_refusal(caller, from, tokens) == Some(error)
                    &&& final(self)@ == old(self)@
                },
            },
    {
        if self.balance_of(from) < tokens {
            return Err(Error::InsufficientBalance);
        }
        if self.allowances(from, caller) < tokens {
            return Err(Error::InsufficientAllowance);
        }
        if self.already_voted(from) {
            return Err(Error::AccountFrozenBecauseVoted);
        }
        self.move_tokens(from, to, tokens);
        Ok(Transfer { from: Some(from), to, value: tokens })
    }

    /// Sets what `spender` may move out of the account of `caller` to
    /// `tokens`, whatever it was.
    ///
    /// Refused with `InsufficientBalance` where `caller` holds less than
    /// `tokens`.
    pub fn approve(&mut self, caller: AccountId, spender: AccountId, tokens: u128) -> (outcome:
        Result<Approval, Error>)
        requires
            old(self).wf(),
        ensures
            final(self).wf(),
            match outcome {
                Ok(notice) => {
                    &&& old(self)@.approve_refusal(caller, tokens) is None
                    &&& final(self)@ == old(self)@.after_approve(caller, spender, tokens)
                    &&& notice == (Approval { owner: caller, spender, value: tokens })
                },
                Err(error) => {
                    &&& old(self)@.approve_refusal(caller, tokens) == Some(error)
                    &&& final(self)@ == old(self)@
                },
            },
    {
        if self.balance_of(caller) < tokens {
            return Err(Error::InsufficientBalance);
        }
        self.allowances.insert(Delegation { owner: caller, spender }, tokens);
        Ok(Approval { owner: caller, spender, value: tokens })
    }

    /// Whether `account` holds at least one part in `parts` of the supply.
    fn holds_share(&self, account: AccountId, parts: u128) -> (holds: bool)
        ensures
            holds == self@.holds_share(account, parts),
    {
        match self.balance_of(account).checked_mul(parts) {
            Some(scaled) => scaled >= self.total_supply,
            None => true,
        }
    }

    /// Why `initiate_voting` would refuse to let `caller` open a round at the
    /// time `now`, or `None` where it would accept.
    fn initiate_voting_refusal(&self, caller: AccountId, now: u64) -> (refusal: Option<Error>)
        ensures
            refusal == self@.initiate_voting_refusal(caller, now),
    {
        if !self.holds_share(caller, INITIATOR_SHARE) {
            Some(Error::InsufficientBalance)
        } else if self.is_voting_happening || now < self.voting_end_time {
            Some(Error::VotingIsAlreadyOngoing)
        } else {
            None
        }
    }

    /// Why `buy` would refuse to sell `amount` tokens to `caller` for
    /// `payment`, or `None` where it would accept.
    fn buy_refusal(&self, caller: AccountId, amount: u128, payment: u128) -> (refusal: Option<
        Error,
    >)
        ensures
            refusal == self@.buy_refusal(caller, amount, payment),
    {
        if self.already_voted(caller) {
            return Some(Error::AccountFrozenBecauseVoted);
        }
        match amount.checked_mul(self.token_price) {
            Some(cost) => {
                if cost != payment {
                    Some(Error::ExactAmountOfWeiRequired)
                } else {
                    None
                }
            },
            None => Some(Error::ExactAmountOfWeiRequired),
        }
    }

    /// Why `burn_fee_weekly` would refuse to burn the fee pool at the time
    /// `now`, or `None` where it would accept.
    fn burn_fee_weekly_refusal(&self, now: u64) -> (refusal: Option<Error>)
        ensures
            refusal == self@.burn_fee_weekly_refusal(now),
    {
        if now < self.time_lapsed_for_fee_to_burn || now - self.time_lapsed_for_fee_to_burn
            < FEE_BURN_PERIOD {
            Some(Error::TimeForFeeBurnHasNotLapsed)
        } else {
            None
        }
    }

    /// Whether `call` can be made of the ledger as it is: whether it meets
    /// what the operation asks of whoever calls it. A call that would be
    /// refused can always be made.
    pub fn admits(&self, call: Call) -> (admitted: bool)
        ensures
            admitted == self@.admits(call),
    {
        match call {
            Call::InitiateVoting { caller, now, option } => {
                match self.initiate_voting_refusal(caller, now) {
                    Some(_) => true,
                    None => now.checked_add(self.time_to_vote).is_some() && self.voting_number
                        < u32::MAX,
                }
            },
            Call::Buy { caller, amount, payment } => {
                match self.buy_refusal(caller, amount, payment) {
                    Some(_) => true,
                    None => self.total_supply.checked_add(amount).is_some(),
                }
            },
            Call::BurnFeeWeekly { caller, now } => {
                match self.burn_fee_weekly_refusal(now) {
                    Some(_) => true,
                    None => self.balance_of(caller) >= self.weekly_fee_to_burn,
                }
            },
            Call::Mint { value } => self.total_supply.checked_add(value).is_some(),
            Call::Burn { value, address } => self.balance_of(address) >= value,
            _ => true,
        }
    }

    /// The weight recorded for the price `option` in the round that is open,
    /// or `None` where nobody has voted for it.
    pub fn votes(&self, option: u128) -> (weight: Option<u128>)
        ensures
            weight == (if self@.votes.contains_key(option) {
                Some(self@.votes[option])
            } else {
                None
            }),
    {
        self.votes.get(&option)
    }

    /// Opens a voting round at the time `now`, which lasts `time_to_vote`, and
    /// casts the vote of `caller` for the price `option` in it. Should that
    /// vote be refused, the round is open all the same.
    ///
    /// Refused with `InsufficientBalance` where `caller` holds less than a
    /// tenth of the supply, and otherwise with `VotingIsAlreadyOngoing` where a
    /// round is open or `now` is before the end of a round.
    pub fn initiate_voting(&mut self, caller: AccountId, now: u64, option: u128) -> (outcome:
        Result<VotingStartedTime, Error>)
        requires
            old(self).wf(),
            old(self)@.initiate_voting_refusal(caller, now) is None ==> old(self)@.round_fits(now),
        ensures
            final(self).wf(),
            match outcome {
                Ok(notice) => {
                    &&& old(self)@.initiate_voting_refusal(caller, now) is None
                    &&& final(self)@ == old(self)@.after_initiate_voting(caller, now, option)
                    &&& notice == (VotingStartedTime {
                        voting_begin_time: now,
                        voting_number: final(self)@.voting_number,
                    })
                },
                Err(error) => {
                    &&& old(self)@.initiate_voting_refusal(caller, now) == Some(error)
                    &&& final(self)@ == old(self)@
                },
            },
    {
        match self.initiate_voting_refusal(caller, now) {
            Some(error) => {
                return Err(error);
            },
            None => {},
        }
        self.voting_begin_time = now;
        self.voting_end_time = now + self.time_to_vote;
        self.is_voting_happening = true;
        let _ = self.vote(caller, now, option);
        self.voting_number = self.voting_number + 1;
        Ok(
            VotingStartedTime {
                voting_begin_time: self.voting_begin_time,
                voting_number: self.voting_number,
            },
        )
    }

    /// Casts the vote of `caller` for the price `price` at the time `now`. The
    /// weight of `price` becomes what `caller` holds, `caller` is frozen until
    /// the round is closed, and `price` takes the lead where the leading price
    /// has no weight or less weight than that.
    ///
    /// Refused with `VotingIsNotOngoing` where no round is open at `now`,
    /// otherwise with `InsufficientBalance` where `caller` holds less than a
    /// twentieth of the supply, and otherwise with `AccountAlreadyVoted` where
    /// `caller` has voted in this round.
    pub fn vote(&mut self, caller: AccountId, now: u64, price: u128) -> (outcome: Result<(), Error>)
        requires
            old(self).wf(),
        ensures
            final(self).wf(),
            match outcome {
                Ok(_) => {
                    &&& old(self)@.vote_refusal(caller, now) is None
                    &&& final(self)@ == old(self)@.after_vote(caller, price)
                },
                Err(error) => {
                    &&& old(self)@.vote_refusal(caller, now) == Some(error)
                    &&& final(self)@ == old(self)@
                },
            },
            !old(self)@.voting_open_at(now) ==> outcome == Err::<(), Error>(
                Error::VotingIsNotOngoing,
            ),
    {
        if !self.is_voting_happening || now > self.voting_end_time || now
            < self.voting_begin_time {
            return Err(Error::VotingIsNotOngoing);
        }
        if !self.holds_share(caller, VOTER_SHARE) {
            return Err(Error::InsufficientBalance);
        }
        if self.already_voted(caller) {
            return Err(Error::AccountAlreadyVoted);
        }
        let weight = self.balance_of(caller);
        self.votes.insert(price, weight);
        self.already_voted.insert(caller, true);
        let leading = match self.votes.get(&self.current_winner) {
            Some(leading) => leading,
            None => 0,
        };
        if leading == 0 || leading < weight {
            self.current_winner = price;
        }
        Ok(())
    }

    /// Closes the round at the time `now`: the leading price becomes the price
    /// of a token, the votes are forgotten and every account is unfrozen.
    ///
    /// Refused with `TimeToVoteNotElapsed` where `now` is before the end of the
    /// round, and otherwise with `VotingIsNotOngoing` where no round is open.
    pub fn end_voting(&mut self, now: u64) -> (outcome: Result<(), Error>)
        requires
            old(self).wf(),
        ensures
            final(self).wf(),
            match outcome {
                Ok(_) => {
                    &&& old(self)@.end_voting_refusal(now) is None
                    &&& final(self)@ == old(self)@.after_end_voting()
                    &&& final(self)@.votes == Map::<u128, u128>::empty()
                    &&& final(self)@.already_voted == Map::<AccountId, bool>::empty()
                    &&& final(self)@.token_price == old(self)@.current_winner
                },
                Err(error) => {
                    &&& old(self)@.end_voting_refusal(now) == Some(error)
                    &&& final(self)@ == old(self)@
                },
            },
    {
        if now < self.voting_end_time {
            return Err(Error::TimeToVoteNotElapsed);
        }
        if now < self.voting_begin_time || !self.is_voting_happening {
            return Err(Error::VotingIsNotOngoing);
        }
        self.token_price = self.current_winner;
        self.is_voting_happening = false;
        self.voting_begin_time = 0;
        self.voting_end_time = 0;
        self.votes.clear();
        self.already_voted.clear();
        Ok(())
    }

    /// The fee on a purchase or a sale of `amount` tokens.
    fn fee_on(&self, amount: u128) -> (fee: u128)
        requires
            self.wf(),
        ensures
            fee == self@.fee_on(amount),
            fee <= amount,
    {
        proof {
            lemma_fee(self@, amount);
        }
        amount * self.fee / self.fee_divider
    }

    /// Sells `amount` newly issued tokens to `caller` for `payment`, the
    /// currency that came with the call: `caller` gets them less the fee, which
    /// goes to the fee pool.
    ///
    /// Refused with `AccountFrozenBecauseVoted` where `caller` has voted in the
    /// round that is open, and otherwise with `ExactAmountOfWeiRequired` where
    /// `payment` is not `amount` times the price of a token. The supply must
    /// have room for a purchase that is accepted.
    pub fn buy(&mut self, caller: AccountId, amount: u128, payment: u128) -> (outcome: Result<
        (),
        Error,
    >)
        requires
            old(self).wf(),
            old(self)@.buy_refusal(caller, amount, payment) is None ==> old(self)@.total_supply
                + amount <= u128::MAX,
        ensures
            final(self).wf(),
            match outcome {
                Ok(_) => {
                    &&& old(self)@.buy_refusal(caller, amount, payment) is None
                    &&& final(self)@ == old(self)@.after_buy(caller, amount)
                },
                Err(error) => {
                    &&& old(self)@.buy_refusal(caller, amount, payment) == Some(error)
                    &&& final(self)@ == old(self)@
                },
            },
    {
        match self.buy_refusal(caller, amount, payment) {
            Some(error) => {
                return Err(error);
            },
            None => {},
        }
        proof {
            lemma_buy(self@, caller, amount);
        }
        let fee_to_take = self.fee_on(amount);
        let _ = self.mint(amount);
        let balance = self.balance_of(caller);
        self.balances.insert(caller, balance + amount - fee_to_take);
        self.weekly_fee_to_burn = self.weekly_fee_to_burn + fee_to_take;
        Ok(())
    }

    /// Burns the fee pool at the time `now`, out of the account of `caller`,
    /// and empties it.
    ///
    /// Refused with `TimeForFeeBurnHasNotLapsed` where less than a week has
    /// passed since the pool was last burnt. Where the burn is due, `caller`
    /// must hold as much as the pool.
    pub fn burn_fee_weekly(&mut self, caller: AccountId, now: u64) -> (outcome: Result<(), Error>)
        requires
            old(self).wf(),
            old(self)@.burn_fee_weekly_refusal(now) is None ==> old(self)@.balance_of(caller)
                >= old(self)@.weekly_fee_to_burn,
        ensures
            final(self).wf(),
            match outcome {
                Ok(_) => {
                    &&& old(self)@.burn_fee_weekly_refusal(now) is None
                    &&& final(self)@ == old(self)@.after_burn_fee_weekly(caller, now)
                },
                Err(error) => {
                    &&& old(self)@.burn_fee_weekly_refusal(now) == Some(error)
                    &&& final(self)@ == old(self)@
                },
            },
    {
        match self.burn_fee_weekly_refusal(now) {
            Some(error) => {
                return Err(error);
            },
            None => {},
        }
        proof {
            lemma_burn_fee_weekly(self@, caller, now);
        }
        let _ = self.burn(self.weekly_fee_to_burn, caller);
        self.weekly_fee_to_burn = 0;
        self.time_lapsed_for_fee_to_burn = now;
        Ok(())
    }

    /// Issues `value` tokens to nobody: the supply grows and no account does.
    /// The supply must have room for them. Never refused.
    pub fn mint(&mut self, value: u128) -> (outcome: Result<(), Error>)
        requires
            old(self).wf(),
            old(self)@.total_supply + value <= u128::MAX,
        ensures
            final(self).wf(),
            outcome is Ok,
            final(self)@ == old(self)@.after_mint(value),
    {
        proof {
            lemma_mint(self@, value);
        }
        self.total_supply = self.total_supply + value;
        Ok(())
    }

    /// Takes `amount` tokens back from `caller` and destroys them; `caller`
    /// pays the fee on top, which goes to the fee pool.
    ///
    /// Refused with `AccountFrozenBecauseVoted` where `caller` has voted in the
    /// round that is open, and otherwise with `InsufficientBalance` where
    /// `caller` holds less than `amount` and the fee together.
    pub fn sell(&mut self, caller: AccountId, amount: u128) -> (outcome: Result<(), Error>)
        requires
            old(self).wf(),
        ensures
            final(self).wf(),
            match outcome {
                Ok(_) => {
                    &&& old(self)@.sell_refusal(caller, amount) is None
                    &&& final(self)@ == old(self)@.after_sell(caller, amount)
                },
                Err(error) => {
                    &&& old(self)@.sell_refusal(caller, amount) == Some(error)
                    &&& final(self)@ == old(self)@
                },
            },
    {
        if self.already_voted(caller) {
            return Err(Error::AccountFrozenBecauseVoted);
        }
        let fee_to_take = self.fee_on(amount);
        match amount.checked_add(fee_to_take) {
            Some(due) => {
                if self.balance_of(caller) < due {
                    return Err(Error::InsufficientBalance);
                }
            },
            None => {
                return Err(Error::InsufficientBalance);
            },
        }
        proof {
            lemma_sell(self@, caller, amount);
        }
        let _ = self.burn(amount, caller);
        let balance = self.balance_of(caller);
        self.balances.insert(caller, balance - fee_to_take);
        self.weekly_fee_to_burn = self.weekly_fee_to_burn + fee_to_take;
        assert(self@.balances =~= old(self)@.after_sell(caller, amount).balances);
        Ok(())
    }

    /// Destroys `value` tokens of the account `address`, which must hold as
    /// many: the supply and that account both shrink. Never refused.
    pub fn burn(&mut self, value: u128, address: AccountId) -> (outcome: Result<(), Error>)
        requires
            old(self).wf(),
            old(self)@.balance_of(address) >= value,
        ensures
            final(self).wf(),
            outcome is Ok,
            final(self)@ == old(self)@.after_burn(value, address),
    {
        proof {
            lemma_burn(self@, value, address);
        }
        self.total_supply = self.total_supply - value;
        let balance = self.balance_of(address);
        self.balances.insert(address, balance - value);
        Ok(())
    }
}

} // verus!
