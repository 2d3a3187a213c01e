//! A collateralized-loan ledger.
//!
//! The ledger tracks loan records keyed by identifiers that it allocates
//! itself, enforces who may create, fund, repay and close each loan, and
//! keeps the custodial balance it holds reconciled with the funds it still
//! owes to borrowers. Settlement work that only the host environment can
//! perform (payments, collateral custody, pool notifications) is recorded
//! as explicit settlement actions for the host to carry out.

mod errors;
mod laws;
mod ledger;
mod model;
mod records;
mod settlement;
mod store;
mod uniques;

pub use errors::{EnvError, LoanError};
pub use laws::{
    LedgerOp, TraceState, conserves, created_id, created_ids, initial_trace,
    lemma_conservation, lemma_identifiers_strictly_increase, lemma_initial_conserves,
    lemma_no_negative_obligation,
    op_admissible, ops_admissible, run, step, strictly_increasing,
};
pub use ledger::LoanContract;
pub use model::{
    LedgerView, empty_ledger, read_loan, step_charge, step_create, step_delete, step_repay,
    step_update, step_withdraw,
};
pub use records::{AccountId, Balance, LoanId, LoanInfo, Timestamp};
pub use settlement::{PoolEvent, SettlementAction};
pub use uniques::{Origin, UniquesError, UniquesExtension, spec_status};
