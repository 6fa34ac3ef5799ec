use crate::account::AccountId;
use crate::model::State;
use crate::supply::{held, lemma_sum_bounds, lemma_sum_insert};
use vstd::prelude::*;

verus! {

/// A newly created ledger is consistent, and its supply is what its accounts
/// hold.
pub proof fn lemma_genesis(deployer: AccountId, total_supply: u128)
    ensures
        State::genesis(deployer, total_supply).consistent(),
        State::genesis(deployer, total_supply).circulating() == total_supply,
{
    lemma_sum_insert(Map::<AccountId, u128>::empty(), deployer, total_supply);
}

/// Moving tokens that the sender holds keeps the ledger consistent and changes
/// two balances at most: the sender has that much less and the receiver that
/// much more, and where they are one account it holds what it held.
pub proof fn lemma_moved(s: State, from: AccountId, to: AccountId, tokens: u128)
    requires
        s.consistent(),
        s.balance_of(from) >= tokens,
    ensures
        s.moved(from, to, tokens).consistent(),
        s.moved(from, to, tokens).circulating() == s.circulating(),
        from != to ==> s.moved(from, to, tokens).balance_of(from) == s.balance_of(from) - tokens,
        from != to ==> s.moved(from, to, tokens).balance_of(to) == s.balance_of(to) + tokens,
        from == to ==> s.moved(from, to, tokens).balance_of(from) == s.balance_of(from),
        forall|other: AccountId|
            other != from && other != to ==> s.moved(from, to, tokens).balance_of(other)
                == #[trigger] s.balance_of(other),
{
    let debited = s.balances.insert(from, (held(s.balances, from) - tokens) as u128);
    lemma_sum_insert(s.balances, from, (held(s.balances, from) - tokens) as u128);
    lemma_sum_bounds(debited, to);
    lemma_sum_insert(debited, to, (held(debited, to) + tokens) as u128);
}

/// The fee on an amount is a hundredth of it, rounded down, and so never more
/// than the amount.
pub proof fn lemma_fee(s: State, amount: u128)
    requires
        s.consistent(),
    ensures
        s.fee_on(amount) == amount / 100,
        0 <= s.fee_on(amount) <= amount,
{
}

/// Issuing tokens to nobody keeps the ledger consistent, as long as the supply
/// has room for them.
pub proof fn lemma_mint(s: State, value: u128)
    requires
        s.consistent(),
        s.total_supply + value <= u128::MAX,
    ensures
        s.after_mint(value).consistent(),
        s.after_mint(value).total_supply == s.total_supply + value,
        s.after_mint(value).circulating() == s.circulating(),
{
}

/// Destroying tokens that an account holds keeps the ledger consistent: the
/// supply and what the accounts hold both go down by that much.
pub proof fn lemma_burn(s: State, value: u128, address: AccountId)
    requires
        s.consistent(),
        s.balance_of(address) >= value,
    ensures
        s.after_burn(value, address).consistent(),
        s.after_burn(value, address).total_supply == s.total_supply - value,
        s.after_burn(value, address).circulating() == s.circulating() - value,
        s.after_burn(value, address).balance_of(address) == s.balance_of(address) - value,
{
    lemma_sum_bounds(s.balances, address);
    lemma_sum_insert(s.balances, address, (s.balance_of(address) - value) as u128);
}

/// A purchase that the supply has room for keeps the ledger consistent: the
/// supply goes up by the amount, the buyer gets the amount less the fee, and
/// the fee pool gets the fee.
pub proof fn lemma_buy(s: State, caller: AccountId, amount: u128)
    requires
        s.consistent(),
        s.total_supply + amount <= u128::MAX,
    ensures
        s.after_buy(caller, amount).consistent(),
        s.balance_of(caller) + amount <= u128::MAX,
        s.after_buy(caller, amount).total_supply == s.total_supply + amount,
        s.after_buy(caller, amount).balance_of(caller) == s.balance_of(caller) + amount
            - s.fee_on(amount),
        s.after_buy(caller, amount).weekly_fee_to_burn == s.weekly_fee_to_burn + s.fee_on(amount),
        s.after_buy(caller, amount).circulating() == s.circulating() + amount - s.fee_on(amount),
{
    lemma_fee(s, amount);
    lemma_sum_bounds(s.balances, caller);
    lemma_sum_insert(
        s.balances,
        caller,
        (s.balance_of(caller) + amount - s.fee_on(amount)) as u128,
    );
}

/// A sale that the seller can pay for keeps the ledger consistent: the supply
/// goes down by the amount, the seller loses the amount and the fee, and the
/// fee pool gets the fee.
pub proof fn lemma_sell(s: State, caller: AccountId, amount: u128)
    requires
        s.consistent(),
        s.balance_of(caller) >= amount + s.fee_on(amount),
    ensures
        s.after_sell(caller, amount).consistent(),
        s.after_sell(caller, amount).total_supply == s.total_supply - amount,
        s.after_sell(caller, amount).balance_of(caller) == s.balance_of(caller) - amount
            - s.fee_on(amount),
        s.after_sell(caller, amount).weekly_fee_to_burn == s.weekly_fee_to_burn + s.fee_on(amount),
        s.after_sell(caller, amount).circulating() == s.circulating() - amount - s.fee_on(amount),
{
    lemma_fee(s, amount);
    lemma_sum_bounds(s.balances, caller);
    lemma_sum_insert(
        s.balances,
        caller,
        (s.balance_of(caller) - amount - s.fee_on(amount)) as u128,
    );
}

/// Burning the fee pool out of an account that holds as much keeps the ledger
/// consistent: the supply and that account both go down by the pool, and the
/// pool is empty.
pub proof fn lemma_burn_fee_weekly(s: State, caller: AccountId, now: u64)
    requires
        s.consistent(),
        s.balance_of(caller) >= s.weekly_fee_to_burn,
    ensures
        s.after_burn_fee_weekly(caller, now).consistent(),
        s.after_burn_fee_weekly(caller, now).total_supply == s.total_supply - s.weekly_fee_to_burn,
        s.after_burn_fee_weekly(caller, now).circulating() == s.circulating()
            - s.weekly_fee_to_burn,
        s.after_burn_fee_weekly(caller, now).weekly_fee_to_burn == 0,
{
    lemma_burn(s, s.weekly_fee_to_burn, caller);
}

} // verus!
