//! The ledger's error taxonomy.

use vstd::prelude::*;

verus! {

/// Every way a ledger operation can refuse to act. Each precondition
/// violation is detected before any mutation, so an error always leaves the
/// ledger exactly as it was.
#[derive(Clone, Copy, PartialEq, Eq, Structural, Debug)]
pub enum LoanError {
    /// The contract does not hold enough funds, or the loan has too little
    /// still available, for the requested withdrawal.
    InsufficientLoanBalance,
    /// The caller of a withdrawal is not the loan's borrower.
    NotTheBorrower,
    /// A repayment of zero was offered.
    RepayAmountMustBeHigherThanZero,
    /// The caller lacks permission for the operation.
    NoPermission,
    /// The identifier allocated for a new loan is already taken. The
    /// ledger's counter discipline makes this unreachable; the check is
    /// kept as a defensive guard.
    LoanIdTaken,
    /// The loan still has drawn funds outstanding and cannot be deleted.
    OngoingLoan,
    /// No loan exists under the given identifier.
    NonExistingLoanId,
    /// The funds attached to the call do not cover the amount asked for.
    NotEnoughFundsProvided,
    /// A call to the host runtime failed while settling the operation.
    CallRuntimeFailed,
    /// A repayment larger than the outstanding borrowed amount was offered;
    /// the ledger rejects it rather than clamping the obligation at zero.
    RepaymentExceedsOutstanding,
}

/// What the host environment reports when a call it performs on the
/// ledger's behalf fails. Only the runtime-call failure is ever expected
/// while settling a ledger operation; any other report means the host broke
/// its own contract.
#[derive(Clone, Copy, PartialEq, Eq, Structural, Debug)]
pub enum EnvError {
    /// The host rejected or aborted a runtime call.
    CallRuntimeFailed,
    /// Any other host-side failure.
    Other,
}

impl LoanError {
    /// Translates a host-environment failure into the ledger's own error.
    /// Only the runtime-call failure is admitted: the host never hands the
    /// ledger any other report during settlement.
    pub fn from(e: EnvError) -> (r: Self)
        requires
            e == EnvError::CallRuntimeFailed,
        ensures
            r == LoanError::CallRuntimeFailed,
    {
        match e {
            EnvError::CallRuntimeFailed => LoanError::CallRuntimeFailed,
            EnvError::Other => LoanError::CallRuntimeFailed,
        }
    }
}

} // verus!
