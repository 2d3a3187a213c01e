//! The loan lifecycle exercised end to end: the test plays the host,
//! supplying callers, timestamps and attached funds for every call,
//! performs the settlement actions the ledger queues, and keeps the books
//! of every party's balance.

use loan_ledger::{LoanContract, LoanError, SettlementAction};

const ALICE: u64 = 1;
const BOB: u64 = 2;
const CHARLIE: u64 = 3;
const FRANK: u64 = 4;

/// A fresh contract settling to Frank's pool account, as every test uses.
fn create_contract() -> LoanContract {
    LoanContract::new(FRANK)
}

/// Performs the queued payments: moves each paid amount out of the
/// contract's environment balance and onto its receiver.
fn settle(loan: &mut LoanContract, contract_balance: &mut u128, balances: &mut [(u64, u128)]) {
    for action in loan.take_pending() {
        if let SettlementAction::Pay { to, amount } = action {
            *contract_balance -= amount;
            for entry in balances.iter_mut() {
                if entry.0 == to {
                    entry.1 += amount;
                }
            }
        }
    }
}

#[test]
fn create_loan_works() {
    let mut loan = create_contract();
    let result = loan.create_loan(ALICE, BOB, 0, 0, 2000, 1000, 1000, 0);
    assert_eq!(result, Ok(1));
}

#[test]
fn create_loan_fails_if_not_enough_funds_transferred() {
    let mut loan = create_contract();
    let result = loan.create_loan(ALICE, BOB, 0, 0, 2000, 1000, 900, 0);
    assert_eq!(result, Err(LoanError::NotEnoughFundsProvided));
}

#[test]
fn increase_loan_id_works() {
    let mut loan = create_contract();
    let result = loan.create_loan(ALICE, BOB, 0, 0, 2000, 1000, 1000, 0);
    assert_eq!(result, Ok(1));
    assert!(loan.get_loan_info(1).is_ok());
    let result = loan.create_loan(ALICE, BOB, 0, 0, 2000, 1000, 1000, 0);
    assert_eq!(result, Ok(2));
    assert!(loan.get_loan_info(2).is_ok());
}

#[test]
fn withdraw_works() {
    let mut loan = create_contract();
    let mut contract_balance: u128 = 1000;
    let mut balances = [(BOB, 1000u128)];
    let result = loan.create_loan(ALICE, BOB, 0, 0, 2000, 1000, 1000, 0);
    assert_eq!(result, Ok(1));
    contract_balance += 1000;
    assert_eq!(1000, balances[0].1);
    assert_eq!(2000, contract_balance);
    let result = loan.withdraw_funds(BOB, 1, 500);
    assert_eq!(Ok(()), result);
    settle(&mut loan, &mut contract_balance, &mut balances);
    assert_eq!(1500, balances[0].1);
    assert_eq!(1500, contract_balance);
    let loan_info = loan.get_loan_info(1).unwrap();
    assert_eq!(500, loan_info.borrowed_amount);
    assert_eq!(500, loan_info.available_amount);
    let result = loan.withdraw_funds(BOB, 1, 500);
    assert_eq!(Ok(()), result);
    settle(&mut loan, &mut contract_balance, &mut balances);
    let loan_info = loan.get_loan_info(1).unwrap();
    assert_eq!(1000, loan_info.borrowed_amount);
    assert_eq!(0, loan_info.available_amount);
}

#[test]
fn withdraw_fails_non_existing_loanid() {
    let mut loan = create_contract();
    let mut contract_balance: u128 = 1000;
    let mut balances = [(BOB, 1000u128)];
    let result = loan.create_loan(ALICE, BOB, 0, 0, 2000, 1000, 1000, 0);
    assert_eq!(result, Ok(1));
    contract_balance += 1000;
    assert_eq!(1000, balances[0].1);
    assert_eq!(2000, contract_balance);
    let result = loan.withdraw_funds(BOB, 3, 500);
    assert_eq!(Err(LoanError::NonExistingLoanId), result);
}

#[test]
fn withdraw_fails_if_someone_but_the_borrower_calls() {
    let mut loan = create_contract();
    let mut contract_balance: u128 = 1000;
    let mut balances = [(ALICE, 1000u128), (CHARLIE, 1000u128)];
    loan.create_loan(BOB, ALICE, 0, 0, 2000, 1000, 1000, 0).unwrap();
    contract_balance += 1000;
    let result = loan.withdraw_funds(BOB, 1, 500);
    assert_eq!(Err(LoanError::NotTheBorrower), result);
    let result = loan.withdraw_funds(CHARLIE, 1, 500);
    assert_eq!(Err(LoanError::NotTheBorrower), result);
    settle(&mut loan, &mut contract_balance, &mut balances);
    assert_eq!(2000, contract_balance);
}

#[test]
fn withdraw_fails_insufficient_funds() {
    let mut loan = create_contract();
    loan.create_loan(BOB, ALICE, 0, 0, 2000, 1000, 1000, 0).unwrap();
    let result = loan.withdraw_funds(BOB, 1, 1500);
    assert_eq!(Err(LoanError::InsufficientLoanBalance), result);
}

#[test]
fn repay_works() {
    let mut loan = create_contract();
    let mut contract_balance: u128 = 1000;
    let mut balances = [(BOB, 1000u128), (FRANK, 0u128)];
    loan.create_loan(ALICE, BOB, 0, 0, 2000, 1000, 1000, 0).unwrap();
    contract_balance += 1000;
    assert_eq!(1000, balances[0].1);
    assert_eq!(2000, contract_balance);
    assert_eq!(0, balances[1].1);
    let result = loan.withdraw_funds(BOB, 1, 500);
    assert_eq!(Ok(()), result);
    settle(&mut loan, &mut contract_balance, &mut balances);
    let repay_result = loan.repay(1, 250, 250, 0);
    assert_eq!(Ok(()), repay_result);
    // Bob attached 250 to the repayment; the ledger forwards them on.
    balances[0].1 -= 250;
    contract_balance += 250;
    settle(&mut loan, &mut contract_balance, &mut balances);
    assert_eq!(1250, balances[0].1);
    assert_eq!(1500, contract_balance);
    assert_eq!(250, balances[1].1);
    let loan_info = loan.get_loan_info(1).unwrap();
    assert_eq!(250, loan_info.borrowed_amount);
    assert_eq!(500, loan_info.available_amount);
}

#[test]
fn repay_fails_if_amount_is_zero() {
    let mut loan = create_contract();
    let mut contract_balance: u128 = 1000;
    let mut balances = [(BOB, 1000u128)];
    loan.create_loan(ALICE, BOB, 0, 0, 2000, 1000, 1000, 0).unwrap();
    contract_balance += 1000;
    assert_eq!(1000, balances[0].1);
    assert_eq!(2000, contract_balance);
    let result = loan.withdraw_funds(BOB, 1, 500);
    assert_eq!(Ok(()), result);
    settle(&mut loan, &mut contract_balance, &mut balances);
    let repay_result = loan.repay(1, 0, 0, 0);
    assert_eq!(Err(LoanError::RepayAmountMustBeHigherThanZero), repay_result);
}

#[test]
fn repay_fails_not_enough_funds_provided() {
    let mut loan = create_contract();
    let mut contract_balance: u128 = 1000;
    let mut balances = [(BOB, 1000u128)];
    loan.create_loan(ALICE, BOB, 0, 0, 2000, 1000, 1000, 0).unwrap();
    contract_balance += 1000;
    assert_eq!(1000, balances[0].1);
    assert_eq!(2000, contract_balance);
    let result = loan.withdraw_funds(BOB, 1, 500);
    assert_eq!(Ok(()), result);
    settle(&mut loan, &mut contract_balance, &mut balances);
    let repay_result = loan.repay(1, 500, 400, 0);
    assert_eq!(Err(LoanError::NotEnoughFundsProvided), repay_result);
}

#[test]
fn charge_apy_works() {
    let mut loan = create_contract();
    loan.create_loan(ALICE, BOB, 0, 0, 2000, 1000, 1000, 0).unwrap();
    let loan_info_before = loan.get_loan_info(1).unwrap();
    assert_eq!(0, loan_info_before.borrowed_amount);
    let result = loan.charge_apy(1, 100, 0);
    assert_eq!(Ok(()), result);
    let loan_info_after = loan.get_loan_info(1).unwrap();
    assert_eq!(100, loan_info_after.borrowed_amount);
}
