//! Laws of the ledger over whole runs.
//!
//! The model in `model` says what one operation does; the lemmas here say
//! what stays true over any sequence of operations the host could perform.
//! `TraceState` pairs the ledger's state with the book of what each live
//! loan's lender has committed to it in total — the creation amount plus
//! every later top-up — which the ledger itself does not store.

use vstd::prelude::*;
use crate::errors::LoanError;
use crate::model::{
    LedgerView, empty_ledger, step_charge, step_create, step_delete, step_repay, step_update,
    step_withdraw,
};
use crate::records::{AccountId, Balance, LoanId, Timestamp};

verus! {

/// One ledger operation together with the inputs the host supplies for it.
pub enum LedgerOp {
    /// A `create_loan` call.
    Create {
        caller: AccountId,
        borrower: AccountId,
        collection_id: u32,
        item_id: u32,
        collateral_price: Balance,
        available_amount: Balance,
        funds_attached: Balance,
        now: Timestamp,
    },
    /// A `delete_loan` call.
    Delete { caller: AccountId, loan_id: LoanId },
    /// An `update_loan` call.
    Update {
        caller: AccountId,
        loan_id: LoanId,
        additional_available_amount: Balance,
        funds_attached: Balance,
        now: Timestamp,
    },
    /// A `charge_apy` call.
    Charge { loan_id: LoanId, amount: Balance, now: Timestamp },
    /// A `repay` call.
    Repay { loan_id: LoanId, repay_amount: Balance, funds_attached: Balance, now: Timestamp },
    /// A `withdraw_funds` call.
    Withdraw { caller: AccountId, loan_id: LoanId, amount: Balance },
}

/// A ledger state together with the total funds committed to each live
/// loan by its lender.
pub ghost struct TraceState {
    /// The ledger's abstract state.
    pub ledger: LedgerView,
    /// For each live loan, the creation amount plus every later top-up.
    pub committed: Map<LoanId, int>,
}

/// The trace state of a freshly constructed ledger: no records, nothing
/// committed.
pub open spec fn initial_trace(pallet_id: AccountId) -> TraceState {
    TraceState { ledger: empty_ledger(pallet_id), committed: Map::empty() }
}

/// How one operation moves the trace state: the ledger moves by the
/// operation's step function, and the committed book grows with a creation,
/// grows with a top-up, and forgets a deleted loan.
pub open spec fn step(t: TraceState, op: LedgerOp) -> TraceState {
    match op {
        LedgerOp::Create {
            caller,
            borrower,
            collection_id,
            item_id,
            collateral_price,
            available_amount,
            funds_attached,
            now,
        } => {
            let s = step_create(t.ledger, caller, borrower, collection_id, item_id,
                collateral_price, available_amount, funds_attached, now);
            TraceState {
                ledger: s.0,
                committed: match s.1 {
                    Ok(loan_id) => t.committed.insert(loan_id, available_amount as int),
                    Err(_) => t.committed,
                },
            }
        },
        LedgerOp::Delete { caller, loan_id } => {
            let s = step_delete(t.ledger, caller, loan_id);
            TraceState {
                ledger: s.0,
                committed: match s.1 {
                    Ok(_) => t.committed.remove(loan_id),
                    Err(_) => t.committed,
                },
            }
        },
        LedgerOp::Update { caller, loan_id, additional_available_amount, funds_attached, now } => {
            let s = step_update(t.ledger, caller, loan_id, additional_available_amount,
                funds_attached, now);
            TraceState {
                ledger: s.0,
                committed: match s.1 {
                    Ok(_) => t.committed.insert(loan_id,
                        t.committed[loan_id] + additional_available_amount),
                    Err(_) => t.committed,
                },
            }
        },
        LedgerOp::Charge { loan_id, amount, now } => {
            TraceState { ledger: step_charge(t.ledger, loan_id, amount, now).0, ..t }
        },
        LedgerOp::Repay { loan_id, repay_amount, funds_attached, now } => {
            TraceState {
                ledger: step_repay(t.ledger, loan_id, repay_amount, funds_attached, now).0,
                ..t
            }
        },
        LedgerOp::Withdraw { caller, loan_id, amount } => {
            TraceState { ledger: step_withdraw(t.ledger, caller, loan_id, amount).0, ..t }
        },
    }
}

/// The machine-limit side conditions under which an operation may be
/// applied: exactly what the executable operations require of their
/// callers.
pub open spec fn op_admissible(t: TraceState, op: LedgerOp) -> bool {
    match op {
        LedgerOp::Create { funds_attached, .. } => {
            &&& t.ledger.last_loan_id < u32::MAX
            &&& t.ledger.balance + funds_attached <= u128::MAX
        },
        LedgerOp::Delete { .. } => true,
        LedgerOp::Update { loan_id, additional_available_amount, funds_attached, .. } => {
            &&& t.ledger.balance + funds_attached <= u128::MAX
            &&& (t.ledger.records.dom().contains(loan_id)
                ==> t.ledger.records[loan_id].available_amount + additional_available_amount
                <= u128::MAX)
        },
        LedgerOp::Charge { loan_id, amount, .. } => t.ledger.records.dom().contains(loan_id)
            ==> t.ledger.records[loan_id].borrowed_amount + amount <= u128::MAX,
        LedgerOp::Repay { .. } => true,
        LedgerOp::Withdraw { loan_id, amount, .. } => t.ledger.records.dom().contains(loan_id)
            ==> t.ledger.records[loan_id].borrowed_amount + amount <= u128::MAX,
    }
}

/// Every operation of the run is applied within machine limits.
pub open spec fn ops_admissible(t: TraceState, ops: Seq<LedgerOp>) -> bool
    decreases ops.len(),
{
    ops.len() == 0 || (op_admissible(t, ops[0]) && ops_admissible(step(t, ops[0]),
        ops.drop_first()))
}

/// The state after running all of `ops` from `t`, oldest first.
pub open spec fn run(t: TraceState, ops: Seq<LedgerOp>) -> TraceState
    decreases ops.len(),
{
    if ops.len() == 0 {
        t
    } else {
        run(step(t, ops[0]), ops.drop_first())
    }
}

/// Conservation: every live loan's available plus borrowed funds stay
/// within what its lender has committed to it.
pub open spec fn conserves(t: TraceState) -> bool {
    forall|loan_id: LoanId| #[trigger] t.ledger.records.dom().contains(loan_id) ==> {
        &&& t.committed.dom().contains(loan_id)
        &&& t.ledger.records[loan_id].available_amount
            + t.ledger.records[loan_id].borrowed_amount <= t.committed[loan_id]
    }
}

/// A fresh ledger conserves trivially.
pub proof fn lemma_initial_conserves(pallet_id: AccountId)
    ensures
        conserves(initial_trace(pallet_id)),
{
}

/// One step of any operation but an accrual charge preserves conservation.
proof fn lemma_step_conserves(t: TraceState, op: LedgerOp)
    requires
        conserves(t),
        op_admissible(t, op),
        !(op is Charge),
    ensures
        conserves(step(t, op)),
{
}

/// Law: conservation. Over any run of creations, top-ups, repayments,
/// withdrawals and deletions the host could perform, every live loan's
/// available plus borrowed funds never exceed the total its lender has
/// committed. Accrual charges are the one operation that raises an
/// obligation without funds moving, so runs containing them are excluded.
pub proof fn lemma_conservation(t: TraceState, ops: Seq<LedgerOp>)
    requires
        conserves(t),
        ops_admissible(t, ops),
        forall|i: int| 0 <= i < ops.len() ==> !((#[trigger] ops[i]) is Charge),
    ensures
        conserves(run(t, ops)),
    decreases ops.len(),
{
    if ops.len() > 0 {
        lemma_step_conserves(t, ops[0]);
        assert(forall|i: int|
            0 <= i < ops.drop_first().len() ==> !((#[trigger] ops.drop_first()[i]) is Charge));
        lemma_conservation(step(t, ops[0]), ops.drop_first());
    }
}

/// Law: no negative obligation. A loan's borrowed amount is an unsigned
/// balance, so it is never negative; and a repayment larger than what is
/// outstanding is rejected with the ledger left untouched — never clamped.
pub proof fn lemma_no_negative_obligation(
    v: LedgerView,
    loan_id: LoanId,
    repay_amount: Balance,
    funds_attached: Balance,
    now: Timestamp,
)
    requires
        v.records.dom().contains(loan_id),
        repay_amount > v.records[loan_id].borrowed_amount,
    ensures
        step_repay(v, loan_id, repay_amount, funds_attached, now).1 is Err,
        step_repay(v, loan_id, repay_amount, funds_attached, now).0 == v,
        funds_attached >= repay_amount
            ==> step_repay(v, loan_id, repay_amount, funds_attached, now).1
            == Err::<(), LoanError>(LoanError::RepaymentExceedsOutstanding),
{
}

/// The identifier handed out by an operation, if it is a creation that
/// succeeds.
pub open spec fn created_id(t: TraceState, op: LedgerOp) -> Option<LoanId> {
    match op {
        LedgerOp::Create {
            caller,
            borrower,
            collection_id,
            item_id,
            collateral_price,
            available_amount,
            funds_attached,
            now,
        } => {
            match step_create(t.ledger, caller, borrower, collection_id, item_id,
                collateral_price, available_amount, funds_attached, now).1 {
                Ok(loan_id) => Some(loan_id),
                Err(_) => None,
            }
        },
        _ => None,
    }
}

/// The identifiers handed out by the successful creations of a run, in
/// order.
pub open spec fn created_ids(t: TraceState, ops: Seq<LedgerOp>) -> Seq<LoanId>
    decreases ops.len(),
{
    if ops.len() == 0 {
        Seq::empty()
    } else {
        let rest = created_ids(step(t, ops[0]), ops.drop_first());
        match created_id(t, ops[0]) {
            Some(loan_id) => seq![loan_id] + rest,
            None => rest,
        }
    }
}

/// Each element is smaller than every later one.
pub open spec fn strictly_increasing(s: Seq<LoanId>) -> bool {
    forall|i: int, j: int| 0 <= i < j < s.len() ==> s[i] < s[j]
}

/// The counter never moves backwards, and every identifier a run hands out
/// is above the counter it started from.
proof fn lemma_created_ids_bounded(t: TraceState, ops: Seq<LedgerOp>)
    requires
        ops_admissible(t, ops),
    ensures
        strictly_increasing(created_ids(t, ops)),
        run(t, ops).ledger.last_loan_id >= t.ledger.last_loan_id,
        forall|i: int| 0 <= i < created_ids(t, ops).len()
            ==> created_ids(t, ops)[i] > t.ledger.last_loan_id,
    decreases ops.len(),
{
    if ops.len() > 0 {
        let t2 = step(t, ops[0]);
        let rest = created_ids(t2, ops.drop_first());
        lemma_created_ids_bounded(t2, ops.drop_first());
        assert(t2.ledger.last_loan_id >= t.ledger.last_loan_id);
        match created_id(t, ops[0]) {
            Some(loan_id) => {
                assert(loan_id == t.ledger.last_loan_id + 1);
                assert(t2.ledger.last_loan_id == loan_id);
                let s = seq![loan_id] + rest;
                assert(s[0] == loan_id);
                assert(forall|i: int| 0 <= i < rest.len() ==> s[i + 1] == rest[i]);
                assert(forall|i: int, j: int| 0 <= i < j < s.len() ==> s[i] < s[j]) by {
                    assert(forall|j: int| 1 <= j < s.len() ==> s[j] == rest[j - 1]);
                }
            },
            None => {},
        }
    }
}

/// Law: identifier uniqueness. Over any run of operations the host could
/// perform, the identifiers returned by the successful loan creations are
/// strictly increasing — and so pairwise distinct.
pub proof fn lemma_identifiers_strictly_increase(t: TraceState, ops: Seq<LedgerOp>)
    requires
        ops_admissible(t, ops),
    ensures
        strictly_increasing(created_ids(t, ops)),
{
    lemma_created_ids_bounded(t, ops);
}

} // verus!
