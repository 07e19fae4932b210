use amm_pools::account::AccountId;
use amm_pools::psp22::{PSP22Error, Psp22Data};

fn holder(tag: u8) -> AccountId {
    AccountId::from_bytes([tag; 32])
}

#[test]
fn a_new_token_has_no_supply() {
    let token = Psp22Data::new();
    assert_eq!(token.total_supply(), 0);
    assert_eq!(token.balance_of(&holder(1)), 0);
    assert_eq!(token.allowance(&holder(1), &holder(2)), 0);
}

#[test]
fn credit_and_debit_change_balance_and_supply() {
    let mut token = Psp22Data::new();
    assert_eq!(token.credit(holder(1), 70), Ok(()));
    assert_eq!(token.credit(holder(2), 30), Ok(()));
    assert_eq!(token.credit(holder(1), 5), Ok(()));
    assert_eq!(token.total_supply(), 105);
    assert_eq!(token.balance_of(&holder(1)), 75);
    assert_eq!(token.balance_of(&holder(2)), 30);
    assert_eq!(token.debit(holder(2), 31), Err(PSP22Error::InsufficientBalance));
    assert_eq!(token.debit(holder(3), 1), Err(PSP22Error::InsufficientBalance));
    assert_eq!(token.total_supply(), 105);
    assert_eq!(token.debit(holder(2), 30), Ok(()));
    assert_eq!(token.balance_of(&holder(2)), 0);
    assert_eq!(token.total_supply(), 75);
    assert_eq!(token.debit(holder(3), 0), Ok(()));
}

#[test]
fn move_units_keeps_the_supply() {
    let mut token = Psp22Data::new();
    assert_eq!(token.credit(holder(1), 70), Ok(()));
    assert_eq!(token.move_units(holder(1), holder(2), 71), Err(PSP22Error::InsufficientBalance));
    assert_eq!(token.move_units(holder(1), holder(2), 20), Ok(()));
    assert_eq!(token.balance_of(&holder(1)), 50);
    assert_eq!(token.balance_of(&holder(2)), 20);
    assert_eq!(token.move_units(holder(2), holder(2), 20), Ok(()));
    assert_eq!(token.balance_of(&holder(2)), 20);
    assert_eq!(token.total_supply(), 70);
}

#[test]
fn set_allowance_replaces_the_earlier_one() {
    let mut token = Psp22Data::new();
    assert_eq!(token.set_allowance(holder(1), holder(2), 10), Ok(()));
    assert_eq!(token.set_allowance(holder(1), holder(3), 20), Ok(()));
    assert_eq!(token.set_allowance(holder(1), holder(2), 7), Ok(()));
    assert_eq!(token.allowance(&holder(1), &holder(2)), 7);
    assert_eq!(token.allowance(&holder(1), &holder(3)), 20);
    assert_eq!(token.allowance(&holder(2), &holder(1)), 0);
}
