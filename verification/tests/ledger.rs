use erc20::{AccountId, Erc20, Error, Transfer};

fn alice() -> AccountId {
    AccountId::new([1u8; 32])
}

fn bob() -> AccountId {
    AccountId::new([2u8; 32])
}

fn charlie() -> AccountId {
    AccountId::new([3u8; 32])
}

fn deploy(total_supply: u128) -> Erc20 {
    let (contract, notice) = Erc20::new(alice(), total_supply);
    assert_eq!(notice, Transfer { from: None, to: alice(), value: total_supply });
    contract
}

#[test]
fn returns_zero_balance() {
    let contract = deploy(100);
    assert_eq!(contract.balance_of(bob()), 0);
}

#[test]
fn returns_total_supply() {
    let contract = deploy(777);
    assert_eq!(contract.total_supply(), 777);
}

#[test]
fn returns_balance_of_msg_sender() {
    let contract = deploy(100);
    assert_eq!(contract.balance_of(alice()), 100);
}

#[test]
fn transfer_happens() {
    let mut contract = deploy(100);
    assert_eq!(contract.balance_of(bob()), 0);
    assert_eq!(contract.transfer(alice(), bob(), 20).map(|_| ()), Ok(()));
    assert_eq!(contract.balance_of(bob()), 20);
}

#[test]
fn transfer_error_when_insfficient_funds() {
    let mut contract = deploy(0);
    assert_eq!(contract.balance_of(bob()), 0);
    assert!(contract.transfer(alice(), bob(), 100).is_err());
    assert_eq!(
        contract.transfer(alice(), bob(), 100),
        Err(Error::InsufficientBalance)
    );
}

#[test]
fn transfer_from_happens() {
    let mut contract = deploy(100);
    assert_eq!(contract.balance_of(bob()), 0);
    assert_eq!(contract.approve(alice(), bob(), 20).map(|_| ()), Ok(()));
    assert_eq!(
        contract.transfer_from(bob(), alice(), bob(), 20).map(|_| ()),
        Ok(())
    );
    assert_eq!(contract.balance_of(bob()), 20);
}

#[test]
fn transfer_from_error_when_insfficient_funds() {
    let mut contract = deploy(0);
    assert_eq!(contract.balance_of(bob()), 0);
    assert!(contract.transfer_from(bob(), alice(), bob(), 100).is_err());
    assert_eq!(
        contract.transfer_from(bob(), alice(), bob(), 100),
        Err(Error::InsufficientBalance)
    );
}

#[test]
fn transfer_from_error_insufficient_allowance() {
    let mut contract = deploy(100);
    assert_eq!(contract.approve(alice(), bob(), 10).map(|_| ()), Ok(()));
    assert_eq!(contract.allowances(alice(), bob()), 10);
    assert_eq!(
        contract.transfer_from(bob(), alice(), bob(), 100),
        Err(Error::InsufficientAllowance)
    );
}

#[test]
fn approve_happens() {
    let mut contract = deploy(100);
    assert_eq!(contract.approve(alice(), bob(), 10).map(|_| ()), Ok(()));
    assert_eq!(contract.allowances(alice(), bob()), 10);
}

#[test]
fn approve_error() {
    let mut contract = deploy(100);
    assert!(contract.approve(alice(), bob(), 110).is_err());
    assert_eq!(
        contract.approve(alice(), bob(), 110),
        Err(Error::InsufficientBalance)
    );
}

#[test]
fn initiate_voting_works() {
    let mut contract = deploy(100);
    let new_price: u128 = 50;
    assert_eq!(contract.is_voting_happening(), false);
    assert_eq!(contract.transfer(alice(), bob(), 1).map(|_| ()), Ok(()));
    assert_eq!(contract.balance_of(bob()), 1);
    assert_eq!(
        contract.initiate_voting(bob(), 0, new_price),
        Err(Error::InsufficientBalance)
    );
    assert_eq!(contract.transfer(alice(), bob(), 9).map(|_| ()), Ok(()));
    assert_eq!(contract.balance_of(bob()), 10);
    assert_eq!(contract.voting_end_time(), 0);
    let now: u64 = 1;
    assert_eq!(
        contract.initiate_voting(bob(), now, new_price).map(|_| ()),
        Ok(())
    );
    assert_eq!(contract.is_voting_happening(), true);
    assert_eq!(contract.voting_end_time(), now + contract.time_to_vote());
    assert_eq!(contract.voting_begin_time(), now);
}

#[test]
fn vote_accepted() {
    let mut contract = deploy(100);
    let mut new_price: u128 = 50;
    let now: u64 = 0;

    assert_eq!(contract.transfer(alice(), charlie(), 10).map(|_| ()), Ok(()));
    assert_eq!(
        contract.vote(charlie(), now, new_price),
        Err(Error::VotingIsNotOngoing)
    );
    assert_eq!(
        contract.initiate_voting(charlie(), now, new_price).map(|_| ()),
        Ok(())
    );
    assert_eq!(contract.current_winner(), new_price);
    assert_eq!(contract.votes(50).unwrap_or(0), 10);

    assert_eq!(
        contract.initiate_voting(alice(), now, new_price),
        Err(Error::VotingIsAlreadyOngoing)
    );
    assert_eq!(contract.balance_of(bob()), 0);
    assert_eq!(
        contract.vote(bob(), now, new_price),
        Err(Error::InsufficientBalance)
    );

    assert_eq!(contract.transfer(alice(), bob(), 15).map(|_| ()), Ok(()));
    assert_eq!(contract.balance_of(bob()), 15);

    assert_eq!(contract.already_voted(bob()), false);
    new_price = 60;
    assert_eq!(contract.vote(bob(), now, new_price), Ok(()));
    assert_eq!(contract.votes(60), Some(contract.balance_of(bob())));
    assert_eq!(contract.current_winner(), 60);
    assert_eq!(contract.votes(60).unwrap_or(0), 15);
    assert_eq!(contract.already_voted(bob()), true);
    assert_eq!(
        contract.vote(bob(), now, new_price),
        Err(Error::AccountAlreadyVoted)
    );

    assert_eq!(contract.balance_of(charlie()), 10);
    assert_eq!(
        contract.transfer(bob(), charlie(), 5),
        Err(Error::AccountFrozenBecauseVoted)
    );
    assert_eq!(contract.approve(bob(), charlie(), 5).map(|_| ()), Ok(()));
    assert_eq!(contract.allowances(bob(), charlie()), 5);
    assert_eq!(
        contract.transfer_from(charlie(), bob(), charlie(), 5),
        Err(Error::AccountFrozenBecauseVoted)
    );
    assert_eq!(contract.balance_of(bob()), 15);
    assert_eq!(contract.balance_of(charlie()), 10);
    assert_eq!(contract.current_winner(), 60);
}

#[test]
fn end_voting_success() {
    let mut contract = deploy(100);
    let new_price: u128 = 50;

    assert_eq!(contract.transfer(alice(), bob(), 10).map(|_| ()), Ok(()));
    assert_eq!(
        contract.vote(bob(), 0, new_price),
        Err(Error::VotingIsNotOngoing)
    );
    assert_eq!(contract.end_voting(0), Err(Error::VotingIsNotOngoing));
    assert_eq!(
        contract.initiate_voting(bob(), 1, new_price).map(|_| ()),
        Ok(())
    );

    assert_eq!(contract.end_voting(1), Err(Error::TimeToVoteNotElapsed));
    let end = contract.voting_end_time();
    assert_eq!(contract.end_voting(end), Ok(()));

    assert_eq!(contract.voting_end_time(), 0);
    assert_eq!(contract.voting_begin_time(), 0);
    assert_eq!(contract.is_voting_happening(), false);
    assert_eq!(contract.current_winner(), 50);
    assert_eq!(contract.token_price(), 50);
    // Closing the round forgets the votes and unfreezes the voters.
    assert_eq!(contract.votes(50).unwrap_or(0), 0);
    assert_eq!(contract.already_voted(bob()), false);
}

#[test]
fn buy_works() {
    let mut contract = deploy(100);
    assert_eq!(contract.total_supply(), 100);
    let payment: u128 = 50;
    assert_eq!(
        contract.buy(bob(), 8, payment),
        Err(Error::ExactAmountOfWeiRequired)
    );
    assert_eq!(contract.buy(bob(), 10, payment), Ok(()));
    assert_eq!(contract.total_supply(), 110);
    assert_eq!(contract.balance_of(bob()), 10);
}

#[test]
fn sell_works() {
    let mut contract = deploy(100);
    assert_eq!(contract.sell(bob(), 10), Err(Error::InsufficientBalance));
    assert_eq!(contract.transfer(alice(), bob(), 11).map(|_| ()), Ok(()));
    assert_eq!(contract.sell(bob(), 10), Ok(()));
    assert_eq!(contract.total_supply(), 90);
    // Alice holds what she kept after sending eleven tokens to Bob.
    assert_eq!(contract.balance_of(alice()), 89);
    assert_eq!(contract.balance_of(bob()), 1);
}

#[test]
fn burn_fee_works() {
    let mut contract = deploy(100);
    // The pool rests for a week after the ledger is created.
    assert_eq!(
        contract.burn_fee_weekly(alice(), 0),
        Err(Error::TimeForFeeBurnHasNotLapsed)
    );
    assert_eq!(contract.burn_fee_weekly(alice(), 604800), Ok(()));
}
