//! Scenario and property tests beyond the lifecycle suite: error cases of
//! every kind, the settlement actions each operation queues, and concrete
//! runs of the conservation and identifier laws.

use loan_ledger::{
    LoanContract, LoanError, LoanInfo, Origin, PoolEvent, SettlementAction, UniquesError,
};

const ALICE: u64 = 1;
const BOB: u64 = 2;
const CHARLIE: u64 = 3;
const FRANK: u64 = 4;

#[test]
fn full_lifecycle_settles() {
    let mut loan = LoanContract::new(FRANK);
    let id = loan.create_loan(ALICE, BOB, 7, 9, 2000, 1000, 1000, 10).unwrap();
    assert_eq!(id, 1);
    assert_eq!(loan.get_loan_info(1).unwrap().borrowed_amount, 0);
    assert_eq!(loan.balance(), 1000);

    assert_eq!(loan.withdraw_funds(BOB, 1, 500), Ok(()));
    let info = loan.get_loan_info(1).unwrap();
    assert_eq!(info.available_amount, 500);
    assert_eq!(info.borrowed_amount, 500);
    assert_eq!(
        loan.take_pending(),
        vec![SettlementAction::Pay { to: BOB, amount: 500 }]
    );

    assert_eq!(loan.repay(1, 250, 250, 11), Ok(()));
    assert_eq!(loan.get_loan_info(1).unwrap().borrowed_amount, 250);

    assert_eq!(loan.delete_loan(ALICE, 1), Err(LoanError::OngoingLoan));

    assert_eq!(loan.withdraw_funds(BOB, 1, 250), Ok(()));
    let info = loan.get_loan_info(1).unwrap();
    assert_eq!(info.available_amount, 250);
    assert_eq!(info.borrowed_amount, 500);

    assert_eq!(loan.repay(1, 500, 500, 12), Ok(()));
    assert_eq!(loan.get_loan_info(1).unwrap().borrowed_amount, 0);
    loan.take_pending();

    assert_eq!(loan.delete_loan(ALICE, 1), Ok(()));
    assert_eq!(loan.get_loan_info(1), Err(LoanError::NonExistingLoanId));
    assert_eq!(loan.balance(), 0);
    assert_eq!(
        loan.take_pending(),
        vec![
            SettlementAction::Pay { to: FRANK, amount: 250 },
            SettlementAction::ReleaseCollateral { collection_id: 7, item_id: 9, authorized_by: ALICE },
            SettlementAction::Notify { event: PoolEvent::LoanClosed { loan_id: 1 } },
        ]
    );
}

#[test]
fn failed_create_does_not_consume_an_id() {
    let mut loan = LoanContract::new(FRANK);
    let result = loan.create_loan(ALICE, BOB, 0, 0, 2000, 1000, 900, 0);
    assert_eq!(result, Err(LoanError::NotEnoughFundsProvided));
    assert_eq!(loan.get_loan_info(1), Err(LoanError::NonExistingLoanId));
    assert_eq!(loan.balance(), 0);
    assert_eq!(loan.take_pending(), vec![]);
    // The next creation gets identifier 1: nothing was skipped.
    assert_eq!(loan.create_loan(ALICE, BOB, 0, 0, 2000, 1000, 1000, 0), Ok(1));
}

#[test]
fn withdraw_by_non_borrower_changes_nothing() {
    let mut loan = LoanContract::new(FRANK);
    loan.create_loan(ALICE, BOB, 0, 0, 2000, 1000, 1000, 0).unwrap();
    let before = loan.get_loan_info(1).unwrap();
    let balance_before = loan.balance();
    assert_eq!(loan.withdraw_funds(CHARLIE, 1, 500), Err(LoanError::NotTheBorrower));
    assert_eq!(loan.get_loan_info(1).unwrap(), before);
    assert_eq!(loan.balance(), balance_before);
    assert_eq!(loan.take_pending(), vec![]);
}

#[test]
fn delete_loan_requires_the_lender() {
    let mut loan = LoanContract::new(FRANK);
    loan.create_loan(ALICE, BOB, 0, 0, 2000, 1000, 1000, 0).unwrap();
    assert_eq!(loan.delete_loan(BOB, 1), Err(LoanError::NoPermission));
    assert!(loan.get_loan_info(1).is_ok());
}

#[test]
fn delete_loan_fails_for_missing_id() {
    let mut loan = LoanContract::new(FRANK);
    assert_eq!(loan.delete_loan(ALICE, 1), Err(LoanError::NonExistingLoanId));
}

#[test]
fn delete_loan_refunds_unused_funds() {
    let mut loan = LoanContract::new(FRANK);
    loan.create_loan(ALICE, BOB, 3, 4, 2000, 1000, 1000, 0).unwrap();
    loan.take_pending();
    assert_eq!(loan.delete_loan(ALICE, 1), Ok(()));
    assert_eq!(loan.balance(), 0);
    assert_eq!(
        loan.take_pending(),
        vec![
            SettlementAction::Pay { to: FRANK, amount: 1000 },
            SettlementAction::ReleaseCollateral { collection_id: 3, item_id: 4, authorized_by: ALICE },
            SettlementAction::Notify { event: PoolEvent::LoanClosed { loan_id: 1 } },
        ]
    );
}

#[test]
fn delete_loan_of_drained_loan_refunds_nothing() {
    let mut loan = LoanContract::new(FRANK);
    loan.create_loan(ALICE, BOB, 3, 4, 2000, 1000, 1000, 0).unwrap();
    loan.withdraw_funds(BOB, 1, 1000).unwrap();
    loan.repay(1, 1000, 1000, 1).unwrap();
    loan.take_pending();
    assert_eq!(loan.delete_loan(ALICE, 1), Ok(()));
    assert_eq!(
        loan.take_pending(),
        vec![
            SettlementAction::ReleaseCollateral { collection_id: 3, item_id: 4, authorized_by: ALICE },
            SettlementAction::Notify { event: PoolEvent::LoanClosed { loan_id: 1 } },
        ]
    );
}

#[test]
fn update_loan_tops_up_available_funds() {
    let mut loan = LoanContract::new(FRANK);
    loan.create_loan(ALICE, BOB, 0, 0, 2000, 1000, 1000, 5).unwrap();
    assert_eq!(loan.update_loan(ALICE, 1, 500, 500, 7), Ok(()));
    let info = loan.get_loan_info(1).unwrap();
    assert_eq!(info.available_amount, 1500);
    assert_eq!(info.timestamp, 7);
    assert_eq!(loan.balance(), 1500);
    assert_eq!(loan.take_pending(), vec![]);
}

#[test]
fn update_loan_fails_without_funds_or_permission() {
    let mut loan = LoanContract::new(FRANK);
    loan.create_loan(ALICE, BOB, 0, 0, 2000, 1000, 1000, 5).unwrap();
    assert_eq!(
        loan.update_loan(ALICE, 1, 500, 400, 7),
        Err(LoanError::NotEnoughFundsProvided)
    );
    assert_eq!(loan.update_loan(BOB, 1, 500, 500, 7), Err(LoanError::NoPermission));
    assert_eq!(
        loan.update_loan(ALICE, 9, 500, 500, 7),
        Err(LoanError::NonExistingLoanId)
    );
    assert_eq!(loan.get_loan_info(1).unwrap().available_amount, 1000);
}

#[test]
fn repay_more_than_outstanding_is_rejected() {
    let mut loan = LoanContract::new(FRANK);
    loan.create_loan(ALICE, BOB, 0, 0, 2000, 1000, 1000, 0).unwrap();
    loan.withdraw_funds(BOB, 1, 500).unwrap();
    loan.take_pending();
    assert_eq!(loan.repay(1, 600, 600, 1), Err(LoanError::RepaymentExceedsOutstanding));
    assert_eq!(loan.get_loan_info(1).unwrap().borrowed_amount, 500);
    assert_eq!(loan.take_pending(), vec![]);
}

#[test]
fn repay_fails_for_missing_id() {
    let mut loan = LoanContract::new(FRANK);
    assert_eq!(loan.repay(1, 100, 100, 0), Err(LoanError::NonExistingLoanId));
}

#[test]
fn charge_apy_fails_for_missing_id() {
    let mut loan = LoanContract::new(FRANK);
    assert_eq!(loan.charge_apy(1, 100, 0), Err(LoanError::NonExistingLoanId));
}

#[test]
fn reads_are_stable_until_a_mutation() {
    let mut loan = LoanContract::new(FRANK);
    loan.create_loan(ALICE, BOB, 0, 0, 2000, 1000, 1000, 0).unwrap();
    let first = loan.get_loan_info(1);
    let second = loan.get_loan_info(1);
    assert_eq!(first, second);
    loan.charge_apy(1, 100, 1).unwrap();
    let third = loan.get_loan_info(1);
    assert_ne!(first, third);
    assert_eq!(third.unwrap().borrowed_amount, 100);
}

#[test]
fn conservation_holds_over_a_run() {
    // Alice commits 1000 at creation and 500 by a top-up: available plus
    // borrowed never exceed 1500, whatever Bob draws and repays.
    let mut loan = LoanContract::new(FRANK);
    loan.create_loan(ALICE, BOB, 0, 0, 2000, 1000, 1000, 0).unwrap();
    let committed: u128 = 1500;
    loan.update_loan(ALICE, 1, 500, 500, 1).unwrap();
    let info = loan.get_loan_info(1).unwrap();
    assert!(info.available_amount + info.borrowed_amount <= committed);
    loan.withdraw_funds(BOB, 1, 700).unwrap();
    let info = loan.get_loan_info(1).unwrap();
    assert!(info.available_amount + info.borrowed_amount <= committed);
    loan.repay(1, 200, 200, 2).unwrap();
    let info = loan.get_loan_info(1).unwrap();
    assert!(info.available_amount + info.borrowed_amount <= committed);
    assert_eq!(info.available_amount, 800);
    assert_eq!(info.borrowed_amount, 500);
}

#[test]
fn identifiers_increase_across_creations() {
    let mut loan = LoanContract::new(FRANK);
    let first = loan.create_loan(ALICE, BOB, 0, 0, 100, 50, 50, 0).unwrap();
    let failed = loan.create_loan(ALICE, BOB, 0, 0, 100, 50, 10, 0);
    assert_eq!(failed, Err(LoanError::NotEnoughFundsProvided));
    let second = loan.create_loan(ALICE, CHARLIE, 0, 0, 100, 50, 50, 0).unwrap();
    let third = loan.create_loan(BOB, ALICE, 0, 0, 100, 50, 50, 0).unwrap();
    assert_eq!((first, second, third), (1, 2, 3));
    assert!(first < second && second < third);
}

#[test]
fn loan_info_default_is_the_zero_record() {
    let info = LoanInfo::default();
    assert_eq!(info.lender, 0);
    assert_eq!(info.borrower, 0);
    assert_eq!(info.collection_id, 0);
    assert_eq!(info.item_id, 0);
    assert_eq!(info.collateral_price, 0);
    assert_eq!(info.available_amount, 0);
    assert_eq!(info.borrowed_amount, 0);
    assert_eq!(info.timestamp, 0);
}

#[test]
fn origin_defaults_to_the_contract_address() {
    assert_eq!(Origin::default(), Origin::Address);
}

#[test]
fn status_codes_decode_to_their_errors() {
    assert_eq!(UniquesError::from_status_code(0), Ok(()));
    assert_eq!(UniquesError::from_status_code(1), Err(UniquesError::BalanceLow));
    assert_eq!(UniquesError::from_status_code(2), Err(UniquesError::NoAccount));
    assert_eq!(UniquesError::from_status_code(3), Err(UniquesError::NoPermission));
    assert_eq!(UniquesError::from_status_code(4), Err(UniquesError::Unknown));
    assert_eq!(UniquesError::from_status_code(5), Err(UniquesError::Frozen));
    assert_eq!(UniquesError::from_status_code(6), Err(UniquesError::InUse));
    assert_eq!(UniquesError::from_status_code(7), Err(UniquesError::BadWitness));
    assert_eq!(UniquesError::from_status_code(8), Err(UniquesError::MinBalanceZero));
    assert_eq!(UniquesError::from_status_code(9), Err(UniquesError::NoProvider));
    assert_eq!(UniquesError::from_status_code(10), Err(UniquesError::BadMetadata));
    assert_eq!(UniquesError::from_status_code(11), Err(UniquesError::Unapproved));
    assert_eq!(UniquesError::from_status_code(12), Err(UniquesError::WouldDie));
    assert_eq!(UniquesError::from_status_code(13), Err(UniquesError::AlreadyExists));
    assert_eq!(UniquesError::from_status_code(14), Err(UniquesError::NoDeposit));
    assert_eq!(UniquesError::from_status_code(15), Err(UniquesError::WouldBurn));
    assert_eq!(UniquesError::from_status_code(16), Err(UniquesError::LiveAsset));
    assert_eq!(UniquesError::from_status_code(17), Err(UniquesError::AssetNotLive));
    assert_eq!(UniquesError::from_status_code(18), Err(UniquesError::IncorrectStatus));
    assert_eq!(UniquesError::from_status_code(19), Err(UniquesError::NotFrozen));
    assert_eq!(UniquesError::from_status_code(98), Err(UniquesError::OriginCannotBeCaller));
    assert_eq!(UniquesError::from_status_code(99), Err(UniquesError::RuntimeError));
    assert_eq!(UniquesError::from_status_code(20), Err(UniquesError::UnknownStatusCode));
    assert_eq!(UniquesError::from_status_code(97), Err(UniquesError::UnknownStatusCode));
    assert_eq!(UniquesError::from_status_code(u32::MAX), Err(UniquesError::UnknownStatusCode));
}

#[test]
fn env_failures_surface_as_runtime_call_errors() {
    assert_eq!(
        LoanError::from(loan_ledger::EnvError::CallRuntimeFailed),
        LoanError::CallRuntimeFailed
    );
}
