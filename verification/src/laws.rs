use crate::account::AccountId;
use crate::consistency::{
    lemma_burn, lemma_burn_fee_weekly, lemma_buy, lemma_mint, lemma_moved, lemma_sell,
};
use crate::error::Error;
use crate::model::{Call, State, INITIATOR_SHARE, VOTING_PERIOD};
use vstd::prelude::*;

verus! {

/// Whatever is called, a consistent ledger stays consistent, and the supply
/// moves away from what the accounts hold by exactly the tokens that the call
/// issues without putting them into an account.
pub proof fn law_step_accounts_for_supply(s: State, call: Call)
    requires
        s.consistent(),
    ensures
        s.step(call).consistent(),
        s.step(call).unheld() == s.unheld() + s.issues_unheld(call),
{
    if s.accepts(call) {
        match call {
            Call::Transfer { caller, to, tokens } => {
                lemma_moved(s, caller, to, tokens);
            },
            Call::TransferFrom { caller, from, to, tokens } => {
                lemma_moved(s, from, to, tokens);
            },
            Call::Approve { caller, spender, tokens } => {},
            Call::InitiateVoting { caller, now, option } => {},
            Call::Vote { caller, now, price } => {},
            Call::EndVoting { now } => {},
            Call::Buy { caller, amount, payment } => {
                lemma_buy(s, caller, amount);
            },
            Call::Sell { caller, amount } => {
                lemma_sell(s, caller, amount);
            },
            Call::BurnFeeWeekly { caller, now } => {
                lemma_burn_fee_weekly(s, caller, now);
            },
            Call::Mint { value } => {
                lemma_mint(s, value);
            },
            Call::Burn { value, address } => {
                lemma_burn(s, value, address);
            },
        }
    }
}

/// Whatever calls are made, one after the other, a consistent ledger stays
/// consistent.
pub proof fn law_run_stays_consistent(s: State, calls: Seq<Call>)
    requires
        s.consistent(),
    ensures
        s.run(calls).consistent(),
    decreases calls.len(),
{
    if calls.len() > 0 {
        law_run_stays_consistent(s, calls.drop_last());
        law_step_accounts_for_supply(s.run(calls.drop_last()), calls.last());
    }
}

/// The supply is what the accounts hold, at every point of any run of calls
/// that starts where it is so and in which no call issues tokens without
/// putting them into an account: no call of `mint` for more than nothing, and
/// no purchase or sale large enough to bear a fee.
pub proof fn law_supply_is_sum_of_balances(s: State, calls: Seq<Call>)
    requires
        s.consistent(),
        s.total_supply == s.circulating(),
        forall|i: int|
            0 <= i < calls.len() ==> s.run(calls.take(i)).issues_unheld(#[trigger] calls[i]) == 0,
    ensures
        forall|n: int|
            0 <= n <= calls.len() ==> (#[trigger] s.run(calls.take(n))).total_supply == s.run(
                calls.take(n),
            ).circulating(),
    decreases calls.len(),
{
    assert forall|n: int| 0 <= n <= calls.len() implies (#[trigger] s.run(
        calls.take(n),
    )).total_supply == s.run(calls.take(n)).circulating() by {
        if n == calls.len() {
            assert(calls.take(n) =~= calls);
            if n > 0 {
                let before = calls.drop_last();
                assert(before =~= calls.take(n - 1));
                assert forall|i: int| 0 <= i < before.len() implies s.run(
                    before.take(i),
                ).issues_unheld(#[trigger] before[i]) == 0 by {
                    assert(before.take(i) =~= calls.take(i));
                    assert(before[i] == calls[i]);
                }
                law_supply_is_sum_of_balances(s, before);
                assert(before.take(n - 1) =~= before);
                law_run_stays_consistent(s, before);
                law_step_accounts_for_supply(s.run(before), calls.last());
                assert(calls[n - 1] == calls.last());
            }
        } else {
            let shorter = calls.take(n);
            assert forall|i: int| 0 <= i < shorter.len() implies s.run(
                shorter.take(i),
            ).issues_unheld(#[trigger] shorter[i]) == 0 by {
                assert(shorter.take(i) =~= calls.take(i));
                assert(shorter[i] == calls[i]);
            }
            law_supply_is_sum_of_balances(s, shorter);
            assert(shorter.take(n) =~= shorter);
        }
    }
}

/// Sending more than the sender holds is refused with `InsufficientBalance`,
/// and the ledger is left as it was.
pub proof fn law_transfer_needs_balance(s: State, caller: AccountId, to: AccountId, tokens: u128)
    requires
        s.balance_of(caller) < tokens,
    ensures
        s.transfer_refusal(caller, tokens) == Some(Error::InsufficientBalance),
        s.step(Call::Transfer { caller, to, tokens }) == s,
{
}

/// An account that has voted cannot be the source of a transfer: `transfer`
/// out of it and `transfer_from` out of it are refused, and with
/// `AccountFrozenBecauseVoted` where the account holds the tokens and, for
/// `transfer_from`, the caller was granted them.
pub proof fn law_voter_is_frozen(
    s: State,
    account: AccountId,
    spender: AccountId,
    to: AccountId,
    tokens: u128,
)
    requires
        s.has_voted(account),
    ensures
        s.transfer_refusal(account, tokens) is Some,
        s.transfer_from_refusal(spender, account, tokens) is Some,
        s.balance_of(account) >= tokens ==> s.transfer_refusal(account, tokens) == Some(
            Error::AccountFrozenBecauseVoted,
        ),
        s.balance_of(account) >= tokens && s.allowance(account, spender) >= tokens
            ==> s.transfer_from_refusal(spender, account, tokens) == Some(
            Error::AccountFrozenBecauseVoted,
        ),
        s.step(Call::Transfer { caller: account, to, tokens }) == s,
        s.step(Call::TransferFrom { caller: spender, from: account, to, tokens }) == s,
{
}

/// Only in an open round is any account frozen.
pub proof fn law_frozen_only_in_round(s: State, account: AccountId)
    requires
        s.consistent(),
        s.has_voted(account),
    ensures
        s.is_voting_happening,
{
}

/// Whether `call` closes the round of the ledger `s`.
pub open spec fn closes_round(s: State, call: Call) -> bool {
    call is EndVoting && s.accepts(call)
}

/// An account that has voted stays frozen through every call that does not
/// close the round.
pub proof fn law_step_keeps_frozen(s: State, account: AccountId, call: Call)
    requires
        s.consistent(),
        s.has_voted(account),
        !closes_round(s, call),
    ensures
        s.step(call).has_voted(account),
{
}

/// An account that has voted stays frozen at every point of any run of calls
/// none of which closes the round.
pub proof fn law_frozen_until_round_ends(s: State, account: AccountId, calls: Seq<Call>)
    requires
        s.consistent(),
        s.has_voted(account),
        forall|i: int|
            0 <= i < calls.len() ==> !closes_round(s.run(calls.take(i)), #[trigger] calls[i]),
    ensures
        forall|n: int| 0 <= n <= calls.len() ==> (#[trigger] s.run(calls.take(n))).has_voted(account),
    decreases calls.len(),
{
    assert forall|n: int| 0 <= n <= calls.len() implies (#[trigger] s.run(
        calls.take(n),
    )).has_voted(account) by {
        if n == calls.len() {
            assert(calls.take(n) =~= calls);
            if n > 0 {
                let before = calls.drop_last();
                assert(before =~= calls.take(n - 1));
                assert forall|i: int| 0 <= i < before.len() implies !closes_round(
                    s.run(before.take(i)),
                    #[trigger] before[i],
                ) by {
                    assert(before.take(i) =~= calls.take(i));
                    assert(before[i] == calls[i]);
                }
                law_frozen_until_round_ends(s, account, before);
                assert(before.take(n - 1) =~= before);
                law_run_stays_consistent(s, before);
                assert(calls[n - 1] == calls.last());
                law_step_keeps_frozen(s.run(before), account, calls.last());
            }
        } else {
            let shorter = calls.take(n);
            assert forall|i: int| 0 <= i < shorter.len() implies !closes_round(
                s.run(shorter.take(i)),
                #[trigger] shorter[i],
            ) by {
                assert(shorter.take(i) =~= calls.take(i));
                assert(shorter[i] == calls[i]);
            }
            law_frozen_until_round_ends(s, account, shorter);
            assert(shorter.take(n) =~= shorter);
        }
    }
}

/// A vote cast while no round is open, before the round began or after it
/// ended is refused with `VotingIsNotOngoing`.
pub proof fn law_vote_needs_open_round(s: State, caller: AccountId, now: u64, price: u128)
    requires
        !s.is_voting_happening || now < s.voting_begin_time || now > s.voting_end_time,
    ensures
        s.vote_refusal(caller, now) == Some(Error::VotingIsNotOngoing),
        s.step(Call::Vote { caller, now, price }) == s,
{
}

/// Once the round is closed no vote and no voter is remembered, every account
/// is unfrozen, no round is open, and the price of a token is the price that
/// was leading.
pub proof fn law_round_end_clears(s: State, now: u64)
    requires
        s.end_voting_refusal(now) is None,
    ensures
        s.step(Call::EndVoting { now }) == s.after_end_voting(),
        s.after_end_voting().votes == Map::<u128, u128>::empty(),
        s.after_end_voting().already_voted == Map::<AccountId, bool>::empty(),
        s.after_end_voting().token_price == s.current_winner,
        !s.after_end_voting().is_voting_happening,
        forall|account: AccountId| !#[trigger] s.after_end_voting().has_voted(account),
        forall|option: u128| #[trigger] s.after_end_voting().weight_of(option) == 0,
{
}

/// A vote changes the leading price only to the price voted for, and only
/// where the price that led has no weight or less weight than the voter
/// brings. A voter who brings no more than the leading price has does not
/// change it.
pub proof fn law_lead_changes_only_to_heavier(s: State, caller: AccountId, price: u128)
    ensures
        s.after_vote(caller, price).weight_of(price) == s.balance_of(caller),
        s.after_vote(caller, price).has_voted(caller),
        s.after_vote(caller, price).current_winner == price || s.after_vote(
            caller,
            price,
        ).current_winner == s.current_winner,
        s.after_vote(caller, price).current_winner != s.current_winner ==> {
            ||| s.weight_of(s.current_winner) == 0
            ||| s.weight_of(s.current_winner) < s.balance_of(caller)
        },
        price != s.current_winner && 0 < s.weight_of(s.current_winner) && s.balance_of(caller)
            <= s.weight_of(s.current_winner) ==> s.after_vote(caller, price).current_winner
            == s.current_winner,
{
}

/// In a consistent ledger the vote of whoever opens a round is never refused:
/// the round is open from `now` for the voting period, the opener is frozen,
/// and the price voted for leads with the weight of what the opener holds.
pub proof fn law_opener_votes(s: State, caller: AccountId, now: u64, option: u128)
    requires
        s.consistent(),
        s.initiate_voting_refusal(caller, now) is None,
        s.round_fits(now),
    ensures
        s.round_opened(now).vote_refusal(caller, now) is None,
        s.after_initiate_voting(caller, now, option).consistent(),
        s.after_initiate_voting(caller, now, option).is_voting_happening,
        s.after_initiate_voting(caller, now, option).voting_begin_time == now,
        s.after_initiate_voting(caller, now, option).voting_end_time == now + VOTING_PERIOD,
        s.after_initiate_voting(caller, now, option).voting_number == s.voting_number + 1,
        s.after_initiate_voting(caller, now, option).current_winner == option,
        s.after_initiate_voting(caller, now, option).has_voted(caller),
        s.after_initiate_voting(caller, now, option).weight_of(option) == s.balance_of(caller),
{
    assert(s.holds_share(caller, INITIATOR_SHARE));
}

/// While a round is open, or `now` is before the end of one, no round can be
/// opened: in a consistent ledger that is exactly while a round is open.
pub proof fn law_one_round_at_a_time(s: State, caller: AccountId, now: u64)
    requires
        s.consistent(),
    ensures
        s.is_voting_happening ==> s.initiate_voting_refusal(caller, now) is Some,
        s.is_voting_happening && s.holds_share(caller, INITIATOR_SHARE)
            ==> s.initiate_voting_refusal(caller, now) == Some(Error::VotingIsAlreadyOngoing),
        !s.is_voting_happening && s.holds_share(caller, INITIATOR_SHARE)
            ==> s.initiate_voting_refusal(caller, now) is None,
{
}

} // verus!
