//! The ledger's mathematical model.
//!
//! `LedgerView` is the abstract state of a ledger, and one spec function per
//! operation says exactly how an operation moves that state and what it
//! answers. The executable operations promise to agree with these functions,
//! so everything provable here — conservation, permission gates, atomicity
//! of failures — holds of the running code.

use vstd::prelude::*;
use crate::errors::LoanError;
use crate::records::{AccountId, Balance, LoanId, LoanInfo, Timestamp};
use crate::settlement::{PoolEvent, SettlementAction};

verus! {

/// The abstract state of a ledger: its records, the identifier counter, the
/// pool-authority account it settles to, the balance it holds in custody,
/// and the settlement actions the host has yet to perform.
#[verifier::ext_equal]
pub ghost struct LedgerView {
    /// The live loan records, keyed by identifier.
    pub records: Map<LoanId, LoanInfo>,
    /// The last identifier handed out; the next loan gets the successor.
    pub last_loan_id: LoanId,
    /// The settlement pool's account: unused funds and repayments go there.
    pub pallet_id: AccountId,
    /// The funds the contract holds in custody for its borrowers.
    pub balance: Balance,
    /// Settlement actions decided but not yet performed by the host,
    /// oldest first.
    pub pending: Seq<SettlementAction>,
}

/// The state of a freshly constructed ledger.
pub open spec fn empty_ledger(pallet_id: AccountId) -> LedgerView {
    LedgerView {
        records: Map::empty(),
        last_loan_id: 0,
        pallet_id: pallet_id,
        balance: 0,
        pending: Seq::empty(),
    }
}

/// Creating a loan: the attached funds must cover the whole available
/// amount; a fresh identifier is allocated (counter plus one), and the new
/// record starts with nothing borrowed. The attached funds stay with the
/// contract, so no settlement action arises.
pub open spec fn step_create(
    v: LedgerView,
    caller: AccountId,
    borrower: AccountId,
    collection_id: u32,
    item_id: u32,
    collateral_price: Balance,
    available_amount: Balance,
    funds_attached: Balance,
    now: Timestamp,
) -> (LedgerView, Result<LoanId, LoanError>) {
    if funds_attached < available_amount {
        (v, Err(LoanError::NotEnoughFundsProvided))
    } else {
        let loan_id = ((v.last_loan_id + 1) as LoanId);
        if v.records.dom().contains(loan_id) {
            (v, Err(LoanError::LoanIdTaken))
        } else {
            let record = LoanInfo {
                lender: caller,
                borrower: borrower,
                collection_id: collection_id,
                item_id: item_id,
                collateral_price: collateral_price,
                available_amount: available_amount,
                borrowed_amount: 0,
                timestamp: now,
            };
            (LedgerView {
                records: v.records.insert(loan_id, record),
                last_loan_id: loan_id,
                balance: ((v.balance + funds_attached) as Balance),
                ..v
            }, Ok(loan_id))
        }
    }
}

/// Deleting a loan: only the lender may delete, and only once nothing is
/// borrowed. Unused available funds are refunded to the settlement pool,
/// the collateral is released, the record is removed, and the pool is
/// notified last, so its failure never requires undoing the local removal.
pub open spec fn step_delete(
    v: LedgerView,
    caller: AccountId,
    loan_id: LoanId,
) -> (LedgerView, Result<(), LoanError>) {
    if !v.records.dom().contains(loan_id) {
        (v, Err(LoanError::NonExistingLoanId))
    } else {
        let record = v.records[loan_id];
        if caller != record.lender {
            (v, Err(LoanError::NoPermission))
        } else if record.borrowed_amount != 0 {
            (v, Err(LoanError::OngoingLoan))
        } else {
            let refunded = if record.available_amount > 0 {
                v.pending.push(SettlementAction::Pay {
                    to: v.pallet_id,
                    amount: record.available_amount,
                })
            } else {
                v.pending
            };
            (LedgerView {
                records: v.records.remove(loan_id),
                balance: ((v.balance - record.available_amount) as Balance),
                pending: refunded.push(SettlementAction::ReleaseCollateral {
                    collection_id: record.collection_id,
                    item_id: record.item_id,
                    authorized_by: caller,
                }).push(SettlementAction::Notify {
                    event: PoolEvent::LoanClosed { loan_id: loan_id },
                }),
                ..v
            }, Ok(()))
        }
    }
}

/// Topping a loan up: only the lender may, and the attached funds must
/// cover the whole additional amount, which is added to what the borrower
/// may draw. The attached funds stay with the contract.
pub open spec fn step_update(
    v: LedgerView,
    caller: AccountId,
    loan_id: LoanId,
    additional_available_amount: Balance,
    funds_attached: Balance,
    now: Timestamp,
) -> (LedgerView, Result<(), LoanError>) {
    if !v.records.dom().contains(loan_id) {
        (v, Err(LoanError::NonExistingLoanId))
    } else if funds_attached < additional_available_amount {
        (v, Err(LoanError::NotEnoughFundsProvided))
    } else {
        let record = v.records[loan_id];
        if caller != record.lender {
            (v, Err(LoanError::NoPermission))
        } else {
            (LedgerView {
                records: v.records.insert(loan_id, LoanInfo {
                    available_amount: ((record.available_amount
                        + additional_available_amount) as Balance),
                    timestamp: now,
                    ..record
                }),
                balance: ((v.balance + funds_attached) as Balance),
                ..v
            }, Ok(()))
        }
    }
}

/// Charging accrual: an administrative raise of the outstanding obligation
/// without any funds moving. Authorization is the host's concern.
pub open spec fn step_charge(
    v: LedgerView,
    loan_id: LoanId,
    amount: Balance,
    now: Timestamp,
) -> (LedgerView, Result<(), LoanError>) {
    if !v.records.dom().contains(loan_id) {
        (v, Err(LoanError::NonExistingLoanId))
    } else {
        let record = v.records[loan_id];
        (LedgerView {
            records: v.records.insert(loan_id, LoanInfo {
                borrowed_amount: ((record.borrowed_amount + amount) as Balance),
                timestamp: now,
                ..record
            }),
            ..v
        }, Ok(()))
    }
}

/// Repaying: the repayment must be positive, covered by the attached funds,
/// and no larger than what is outstanding — the ledger rejects an
/// overpayment rather than clamping the obligation. The attached funds are
/// forwarded to the settlement pool and the pool is notified of the amount.
pub open spec fn step_repay(
    v: LedgerView,
    loan_id: LoanId,
    repay_amount: Balance,
    funds_attached: Balance,
    now: Timestamp,
) -> (LedgerView, Result<(), LoanError>) {
    if !v.records.dom().contains(loan_id) {
        (v, Err(LoanError::NonExistingLoanId))
    } else if repay_amount == 0 {
        (v, Err(LoanError::RepayAmountMustBeHigherThanZero))
    } else if funds_attached < repay_amount {
        (v, Err(LoanError::NotEnoughFundsProvided))
    } else {
        let record = v.records[loan_id];
        if repay_amount > record.borrowed_amount {
            (v, Err(LoanError::RepaymentExceedsOutstanding))
        } else {
            (LedgerView {
                records: v.records.insert(loan_id, LoanInfo {
                    borrowed_amount: ((record.borrowed_amount - repay_amount) as Balance),
                    timestamp: now,
                    ..record
                }),
                pending: v.pending.push(SettlementAction::Pay {
                    to: v.pallet_id,
                    amount: funds_attached,
                }).push(SettlementAction::Notify {
                    event: PoolEvent::LoanRepaid { loan_id: loan_id, amount: repay_amount },
                }),
                ..v
            }, Ok(()))
        }
    }
}

/// Withdrawing: only the borrower may draw, up to what the contract holds
/// and what the loan still has available. The drawn funds move from
/// available to borrowed and are paid out to the borrower.
pub open spec fn step_withdraw(
    v: LedgerView,
    caller: AccountId,
    loan_id: LoanId,
    amount: Balance,
) -> (LedgerView, Result<(), LoanError>) {
    if !v.records.dom().contains(loan_id) {
        (v, Err(LoanError::NonExistingLoanId))
    } else if amount > v.balance {
        (v, Err(LoanError::InsufficientLoanBalance))
    } else {
        let record = v.records[loan_id];
        if amount > record.available_amount {
            (v, Err(LoanError::InsufficientLoanBalance))
        } else if caller != record.borrower {
            (v, Err(LoanError::NotTheBorrower))
        } else {
            (LedgerView {
                records: v.records.insert(loan_id, LoanInfo {
                    available_amount: ((record.available_amount - amount) as Balance),
                    borrowed_amount: ((record.borrowed_amount + amount) as Balance),
                    ..record
                }),
                balance: ((v.balance - amount) as Balance),
                pending: v.pending.push(SettlementAction::Pay {
                    to: record.borrower,
                    amount: amount,
                }),
                ..v
            }, Ok(()))
        }
    }
}

/// Reading a loan: a pure lookup, answering the record or a typed error —
/// never aborting the caller for a missing key.
pub open spec fn read_loan(v: LedgerView, loan_id: LoanId) -> Result<LoanInfo, LoanError> {
    if v.records.dom().contains(loan_id) {
        Ok(v.records[loan_id])
    } else {
        Err(LoanError::NonExistingLoanId)
    }
}

} // verus!
