//! Settlement instructions for the host environment.
//!
//! The ledger itself only moves numbers. Every real-world side effect of an
//! operation — paying a party, releasing custodied collateral, notifying the
//! pool authority — is appended to the ledger's pending queue as one of
//! these actions, in the order the host must perform them. Notifications
//! come last, so a failed notification never requires rolling back the
//! ledger's own state; the host surfaces such a failure to its caller.

use vstd::prelude::*;
use crate::records::{AccountId, Balance, LoanId};

verus! {

/// An event for the external settlement / pool-authority channel.
#[derive(Clone, Copy, PartialEq, Eq, Structural, Debug)]
pub enum PoolEvent {
    /// A loan was deleted from the ledger.
    LoanClosed { loan_id: LoanId },
    /// A repayment of `amount` was accepted against a loan.
    LoanRepaid { loan_id: LoanId, amount: Balance },
}

/// One side effect the host must perform on the ledger's behalf.
#[derive(Clone, Copy, PartialEq, Eq, Structural, Debug)]
pub enum SettlementAction {
    /// Transfer `amount` out of the contract's held balance to `to`.
    Pay { to: AccountId, amount: Balance },
    /// Release or burn the custodied collateral asset.
    ReleaseCollateral { collection_id: u32, item_id: u32, authorized_by: AccountId },
    /// Notify the external pool authority.
    Notify { event: PoolEvent },
}

} // verus!
