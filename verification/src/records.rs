//! The loan record and the plain value types it is made of.

use vstd::prelude::*;

verus! {

/// A party known to the ledger. The host environment supplies the caller's
/// identity with every call; the ledger only ever compares identities.
pub type AccountId = u64;

/// An amount of the single native balance unit the ledger deals in.
pub type Balance = u128;

/// A point in time as supplied by the host environment.
pub type Timestamp = u64;

/// Identifier of a loan record, allocated by the ledger itself.
pub type LoanId = u32;

/// One loan: who funded it, who may draw on it, the custodied collateral it
/// is secured by, and the current accounting state.
#[derive(Clone, Copy, PartialEq, Eq, Structural, Debug)]
pub struct LoanInfo {
    /// The party who supplied the available funds.
    pub lender: AccountId,
    /// The party entitled to draw funds and obligated to repay.
    pub borrower: AccountId,
    /// Collection part of the reference to the custodied collateral asset.
    pub collection_id: u32,
    /// Item part of the reference to the custodied collateral asset.
    pub item_id: u32,
    /// Valuation of the collateral at creation or last update.
    pub collateral_price: Balance,
    /// Funds the borrower may still draw.
    pub available_amount: Balance,
    /// Funds currently drawn and outstanding.
    pub borrowed_amount: Balance,
    /// Set at creation, refreshed by updates, accrual charges and repayments.
    pub timestamp: Timestamp,
}

impl Default for LoanInfo {
    /// The all-zero record, for contexts that need a placeholder value.
    /// It never stands for a real loan: the ledger only hands out records
    /// that it holds in its collection.
    fn default() -> (r: Self)
        ensures
            r == (LoanInfo {
                lender: 0,
                borrower: 0,
                collection_id: 0,
                item_id: 0,
                collateral_price: 0,
                available_amount: 0,
                borrowed_amount: 0,
                timestamp: 0,
            }),
    {
        LoanInfo {
            lender: 0,
            borrower: 0,
            collection_id: 0,
            item_id: 0,
            collateral_price: 0,
            available_amount: 0,
            borrowed_amount: 0,
            timestamp: 0,
        }
    }
}

} // verus!
