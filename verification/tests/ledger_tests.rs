use erc20::AccountId;
use erc20::Erc20;
use erc20::Error;
use erc20::Event;
use erc20::Transfer;
use erc20::Approval;

fn alice() -> AccountId {
    AccountId(1)
}

fn bob() -> AccountId {
    AccountId(2)
}

fn charlie() -> AccountId {
    AccountId(3)
}

#[test]
fn test_all() {
    let total_supply = 1000000000;
    let mut erc20 = Erc20::new(alice(), 1000000000);
    assert_eq!(total_supply, erc20.total_supply());

    // Alice owns all the tokens on ledger creation
    assert_eq!(erc20.balance_of(alice()), total_supply);
    // Bob does not own tokens
    assert_eq!(erc20.balance_of(bob()), 0);

    assert_eq!(erc20.transfer(alice(), bob(), 100), Ok(()));
    assert_eq!(erc20.balance_of(alice()), total_supply - 100);
    assert_eq!(erc20.balance_of(bob()), 100);

    assert_eq!(erc20.approve(alice(), charlie(), 5000), Ok(()));
    assert_eq!(erc20.allowance(alice(), charlie()), 5000);

    assert_eq!(erc20.transfer_from(charlie(), alice(), bob(), 1000), Ok(()));
    assert_eq!(erc20.balance_of(bob()), 1100);
    assert_eq!(erc20.balance_of(alice()), total_supply - 100 - 1000);
    assert_eq!(erc20.allowance(alice(), charlie()), 4000);
}

#[test]
fn new_credits_creator() {
    let l = Erc20::new(alice(), 1000000000);
    assert_eq!(l.balance_of(alice()), 1000000000);
    assert_eq!(l.balance_of(bob()), 0);
    assert_eq!(l.total_supply(), 1000000000);
    // Genesis issuance is recorded as a transfer from `None`.
    assert_eq!(l.events().len(), 1);
    assert_eq!(
        l.events()[0],
        Event::Transfer(Transfer { from: None, to: alice(), value: 1000000000 })
    );
}

#[test]
fn transfer_moves_value() {
    let mut l = Erc20::new(alice(), 1000000000);
    assert_eq!(l.transfer(alice(), bob(), 100), Ok(()));
    assert_eq!(l.balance_of(alice()), 999999900);
    assert_eq!(l.balance_of(bob()), 100);
    assert_eq!(
        l.events()[1],
        Event::Transfer(Transfer { from: Some(alice()), to: bob(), value: 100 })
    );
}

#[test]
fn approve_sets_allowance() {
    let mut l = Erc20::new(alice(), 1000000000);
    assert_eq!(l.approve(alice(), charlie(), 5000), Ok(()));
    assert_eq!(l.allowance(alice(), charlie()), 5000);
    assert_eq!(
        l.events()[1],
        Event::Approval(Approval { owner: alice(), spender: charlie(), value: 5000 })
    );
}

#[test]
fn transfer_from_consumes_allowance() {
    let mut l = Erc20::new(alice(), 1000000000);
    assert_eq!(l.transfer(alice(), bob(), 100), Ok(()));
    assert_eq!(l.approve(alice(), charlie(), 5000), Ok(()));
    assert_eq!(l.transfer_from(charlie(), alice(), bob(), 1000), Ok(()));
    assert_eq!(l.balance_of(bob()), 1100);
    assert_eq!(l.balance_of(alice()), 999998900);
    assert_eq!(l.allowance(alice(), charlie()), 4000);
    // No other allowance entry changed.
    assert_eq!(l.allowance(alice(), bob()), 0);
    assert_eq!(l.allowance(bob(), charlie()), 0);
    assert_eq!(
        l.events()[3],
        Event::Transfer(Transfer { from: Some(alice()), to: bob(), value: 1000 })
    );
}

#[test]
fn transfer_from_insufficient_allowance() {
    let mut l = Erc20::new(alice(), 1000000000);
    assert_eq!(l.transfer(alice(), bob(), 100), Ok(()));
    assert_eq!(l.approve(alice(), charlie(), 5000), Ok(()));
    assert_eq!(l.transfer_from(charlie(), alice(), bob(), 1000), Ok(()));
    assert_eq!(l.allowance(alice(), charlie()), 4000);
    let events_before = l.events().len();
    assert_eq!(
        l.transfer_from(charlie(), alice(), bob(), 999999000),
        Err(Error::InsufficientAllowance)
    );
    // No balance or allowance changed, and nothing was emitted.
    assert_eq!(l.balance_of(alice()), 999998900);
    assert_eq!(l.balance_of(bob()), 1100);
    assert_eq!(l.allowance(alice(), charlie()), 4000);
    assert_eq!(l.events().len(), events_before);
}

#[test]
fn transfer_insufficient_balance_fails_twice() {
    let mut l = Erc20::new(alice(), 1000);
    assert_eq!(l.transfer(alice(), bob(), 500), Ok(()));
    // Bob holds 500; both attempts to send 501 fail identically.
    assert_eq!(l.transfer(bob(), charlie(), 501), Err(Error::InsufficientBalance));
    assert_eq!(l.balance_of(bob()), 500);
    assert_eq!(l.balance_of(charlie()), 0);
    let events_mid = l.events().len();
    assert_eq!(l.transfer(bob(), charlie(), 501), Err(Error::InsufficientBalance));
    assert_eq!(l.balance_of(bob()), 500);
    assert_eq!(l.balance_of(charlie()), 0);
    assert_eq!(l.events().len(), events_mid);
}

#[test]
fn transfer_from_insufficient_balance_rolls_back_allowance() {
    let mut l = Erc20::new(alice(), 1000);
    assert_eq!(l.transfer(alice(), bob(), 100), Ok(()));
    // Bob authorizes Charlie while holding enough...
    assert_eq!(l.approve(bob(), charlie(), 50), Ok(()));
    // ...then spends most of his balance himself.
    assert_eq!(l.transfer(bob(), alice(), 80), Ok(()));
    assert_eq!(l.balance_of(bob()), 20);
    // The whole operation is one atomic unit: the failed balance check
    // must leave the allowance unconsumed too.
    assert_eq!(
        l.transfer_from(charlie(), bob(), alice(), 50),
        Err(Error::InsufficientBalance)
    );
    assert_eq!(l.allowance(bob(), charlie()), 50);
    assert_eq!(l.balance_of(bob()), 20);
    assert_eq!(l.balance_of(alice()), 980);
}

#[test]
fn zero_value_transfer_succeeds_and_emits() {
    let mut l = Erc20::new(alice(), 1000);
    // Bob holds nothing, yet a zero-value transfer is permitted and still
    // emits its notification.
    assert_eq!(l.transfer(bob(), charlie(), 0), Ok(()));
    assert_eq!(l.balance_of(bob()), 0);
    assert_eq!(l.balance_of(charlie()), 0);
    assert_eq!(
        l.events()[1],
        Event::Transfer(Transfer { from: Some(bob()), to: charlie(), value: 0 })
    );
}

#[test]
fn zero_value_approve_succeeds_and_emits() {
    let mut l = Erc20::new(alice(), 1000);
    assert_eq!(l.approve(bob(), charlie(), 0), Ok(()));
    assert_eq!(l.allowance(bob(), charlie()), 0);
    assert_eq!(
        l.events()[1],
        Event::Approval(Approval { owner: bob(), spender: charlie(), value: 0 })
    );
}

#[test]
fn self_transfer_preserves_balance() {
    let mut l = Erc20::new(alice(), 1000);
    assert_eq!(l.transfer(alice(), alice(), 400), Ok(()));
    assert_eq!(l.balance_of(alice()), 1000);
    assert_eq!(l.total_supply(), 1000);
}

#[test]
fn approve_overwrites_previous_allowance() {
    let mut l = Erc20::new(alice(), 1000000000);
    assert_eq!(l.approve(alice(), charlie(), 5000), Ok(()));
    assert_eq!(l.approve(alice(), charlie(), 300), Ok(()));
    // Overwrite, not additive.
    assert_eq!(l.allowance(alice(), charlie()), 300);
}

#[test]
fn approve_insufficient_balance() {
    let mut l = Erc20::new(alice(), 1000);
    let events_before = l.events().len();
    // Bob holds 0 and may not authorize more than he holds.
    assert_eq!(l.approve(bob(), charlie(), 1), Err(Error::InsufficientBalance));
    assert_eq!(l.allowance(bob(), charlie()), 0);
    assert_eq!(l.events().len(), events_before);
}

#[test]
fn transfer_entire_balance() {
    let mut l = Erc20::new(alice(), 1000);
    assert_eq!(l.transfer(alice(), bob(), 1000), Ok(()));
    assert_eq!(l.balance_of(alice()), 0);
    assert_eq!(l.balance_of(bob()), 1000);
    // One more unit is no longer there to move.
    assert_eq!(l.transfer(alice(), bob(), 1), Err(Error::InsufficientBalance));
}

#[test]
fn conservation_across_operations() {
    let mut l = Erc20::new(alice(), 1000);
    assert_eq!(l.transfer(alice(), bob(), 300), Ok(()));
    assert_eq!(l.approve(bob(), charlie(), 200), Ok(()));
    assert_eq!(l.transfer_from(charlie(), bob(), charlie(), 150), Ok(()));
    let _ = l.transfer(bob(), alice(), 9999); // fails, changes nothing
    let sum = l.balance_of(alice()) + l.balance_of(bob()) + l.balance_of(charlie());
    assert_eq!(sum, l.total_supply());
    assert_eq!(l.balance_of(alice()), 700);
    assert_eq!(l.balance_of(bob()), 150);
    assert_eq!(l.balance_of(charlie()), 150);
}

#[test]
fn metadata() {
    let l = Erc20::new(alice(), 1000);
    assert_eq!(l.name(), "my-token");
    assert_eq!(l.symbol(), "BTCF");
    assert_eq!(l.decimals(), 8);
}
