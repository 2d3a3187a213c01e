//! The loan contract: the executable ledger.
//!
//! `LoanContract` owns the record collection, the identifier counter and the
//! custodial balance, and implements the operations of the loan lifecycle.
//! Each operation's contract says it agrees exactly with the matching step
//! function of the model, that a failed call leaves the ledger untouched,
//! and on which inputs it succeeds.
//!
//! Well-formedness ties the custodial balance to the records: the balance
//! always covers the sum of every loan's still-available funds, so each
//! borrower's entitlement is honoured however the loans interleave.

use vstd::prelude::*;
use crate::errors::LoanError;
use crate::model::{
    LedgerView, empty_ledger, read_loan, step_charge, step_create, step_delete, step_repay,
    step_update, step_withdraw,
};
use crate::records::{AccountId, Balance, LoanId, LoanInfo, Timestamp};
use crate::settlement::{PoolEvent, SettlementAction};
use crate::store::{
    as_map, avail_sum, keys_unique, lemma_as_map_absent, lemma_as_map_at, lemma_as_map_push,
    lemma_as_map_remove, lemma_as_map_to_index, lemma_as_map_update, lemma_avail_sum_at_least,
};

verus! {

/// The ledger. All state is private: every mutation goes through the
/// operations below, which keep the ledger well formed.
pub struct LoanContract {
    /// The live records, each identifier held at most once.
    entries: Vec<(LoanId, LoanInfo)>,
    /// The last identifier handed out; the sole source of fresh identifiers.
    last_loan_id: LoanId,
    /// The settlement pool's account.
    pallet_id: AccountId,
    /// The funds held in custody for the borrowers.
    balance: Balance,
    /// Settlement actions the host has yet to perform, oldest first.
    pending: Vec<SettlementAction>,
}

impl View for LoanContract {
    type V = LedgerView;

    closed spec fn view(&self) -> LedgerView {
        LedgerView {
            records: as_map(self.entries@),
            last_loan_id: self.last_loan_id,
            pallet_id: self.pallet_id,
            balance: self.balance,
            pending: self.pending@,
        }
    }
}

impl LoanContract {
    /// The ledger's invariant: identifiers are pairwise distinct, every
    /// identifier was handed out by the counter, and the held balance
    /// covers the sum of all still-available funds.
    pub closed spec fn wf(self) -> bool {
        &&& keys_unique(self.entries@)
        &&& (forall|i: int|
            0 <= i < self.entries@.len()
                ==> 1 <= (#[trigger] self.entries@[i]).0 <= self.last_loan_id)
        &&& avail_sum(self.entries@) <= self.balance
    }

    /// A fresh ledger holding no records, no funds and no pending work,
    /// settling to `pallet_id`.
    pub fn new(pallet_id: AccountId) -> (r: Self)
        ensures
            r.wf(),
            r@ == empty_ledger(pallet_id),
    {
        LoanContract {
            entries: Vec::new(),
            last_loan_id: 0,
            pallet_id: pallet_id,
            balance: 0,
            pending: Vec::new(),
        }
    }

    /// Position of a loan in the record collection, if it is there.
    fn find_index(&self, loan_id: LoanId) -> (r: Option<usize>)
        ensures
            match r {
                Some(i) => 0 <= i < self.entries@.len() && self.entries@[i as int].0 == loan_id,
                None => forall|i: int|
                    0 <= i < self.entries@.len() ==> self.entries@[i].0 != loan_id,
            },
    {
        let n = self.entries.len();
        let mut i: usize = 0;
        while i < n
            invariant
                i <= n,
                n == self.entries@.len(),
                forall|j: int| 0 <= j < i ==> self.entries@[j].0 != loan_id,
            decreases n - i,
        {
            if self.entries[i].0 == loan_id {
                return Some(i);
            }
            i = i + 1;
        }
        None
    }

    /// Allocates the next identifier: bumps the counter and answers it.
    fn _get_next_loan_id_and_increase(&mut self) -> (r: LoanId)
        requires
            old(self).last_loan_id < u32::MAX,
        ensures
            r == old(self).last_loan_id + 1,
            final(self).last_loan_id == r,
            final(self).entries == old(self).entries,
            final(self).pallet_id == old(self).pallet_id,
            final(self).balance == old(self).balance,
            final(self).pending == old(self).pending,
    {
        let loan_id = self.last_loan_id + 1;
        self.last_loan_id = loan_id;
        loan_id
    }

    /// Creates a loan funded by `caller` for `borrower` to draw on, secured
    /// by the collateral reference. The attached funds must cover the whole
    /// available amount and stay with the contract; the loan gets the next
    /// fresh identifier and starts with nothing borrowed.
    pub fn create_loan(
        &mut self,
        caller: AccountId,
        borrower: AccountId,
        collection_id: u32,
        item_id: u32,
        collateral_price: Balance,
        available_amount: Balance,
        funds_attached: Balance,
        now: Timestamp,
    ) -> (r: Result<LoanId, LoanError>)
        requires
            old(self).wf(),
            old(self)@.last_loan_id < u32::MAX,
            old(self)@.balance + funds_attached <= u128::MAX,
        ensures
            final(self).wf(),
            final(self)@ == step_create(old(self)@, caller, borrower, collection_id, item_id,
                collateral_price, available_amount, funds_attached, now).0,
            r == step_create(old(self)@, caller, borrower, collection_id, item_id,
                collateral_price, available_amount, funds_attached, now).1,
            r is Err ==> final(self)@ == old(self)@,
            funds_attached >= available_amount
                ==> r == Ok::<LoanId, LoanError>(((old(self)@.last_loan_id + 1) as LoanId)),
            funds_attached < available_amount
                ==> r == Err::<LoanId, LoanError>(LoanError::NotEnoughFundsProvided),
    {
        if funds_attached < available_amount {
            return Err(LoanError::NotEnoughFundsProvided);
        }
        let loan_id = self._get_next_loan_id_and_increase();
        match self.find_index(loan_id) {
            Some(_) => {
                // Unreachable under the invariant: every stored identifier
                // is at most the counter's previous value.
                Err(LoanError::LoanIdTaken)
            },
            None => {
                let record = LoanInfo {
                    lender: caller,
                    borrower: borrower,
                    collection_id: collection_id,
                    item_id: item_id,
                    collateral_price: collateral_price,
                    available_amount: available_amount,
                    borrowed_amount: 0,
                    timestamp: now,
                };
                proof {
                    lemma_as_map_absent(self.entries@, loan_id);
                    lemma_as_map_push(self.entries@, (loan_id, record));
                }
                self.entries.push((loan_id, record));
                self.balance = self.balance + funds_attached;
                Ok(loan_id)
            },
        }
    }

    /// Deletes a loan. Only the lender may delete, and only once nothing is
    /// borrowed. Unused available funds are refunded to the settlement
    /// pool, the collateral is released, and the pool is notified last —
    /// after the local removal — so a failed notification is the host's to
    /// surface and never needs the removal rolled back.
    pub fn delete_loan(&mut self, caller: AccountId, loan_id: LoanId) -> (r: Result<
        (),
        LoanError,
    >)
        requires
            old(self).wf(),
        ensures
            final(self).wf(),
            final(self)@ == step_delete(old(self)@, caller, loan_id).0,
            r == step_delete(old(self)@, caller, loan_id).1,
            r is Err ==> final(self)@ == old(self)@,
            r == Ok::<(), LoanError>(()) <==> (old(self)@.records.dom().contains(loan_id)
                && caller == old(self)@.records[loan_id].lender
                && old(self)@.records[loan_id].borrowed_amount == 0),
    {
        let i = match self.find_index(loan_id) {
            None => {
                proof {
                    lemma_as_map_absent(self.entries@, loan_id);
                }
                return Err(LoanError::NonExistingLoanId);
            },
            Some(i) => i,
        };
        proof {
            lemma_as_map_at(self.entries@, i as int);
        }
        let record = self.entries[i].1;
        if caller != record.lender {
            return Err(LoanError::NoPermission);
        }
        if record.borrowed_amount != 0 {
            return Err(LoanError::OngoingLoan);
        }
        proof {
            lemma_avail_sum_at_least(self.entries@, i as int);
            lemma_as_map_remove(self.entries@, i as int);
        }
        if record.available_amount > 0 {
            self.balance = self.balance - record.available_amount;
            self.pending.push(SettlementAction::Pay {
                to: self.pallet_id,
                amount: record.available_amount,
            });
        }
        self.entries.remove(i);
        self.pending.push(SettlementAction::ReleaseCollateral {
            collection_id: record.collection_id,
            item_id: record.item_id,
            authorized_by: caller,
        });
        self.pending.push(SettlementAction::Notify {
            event: PoolEvent::LoanClosed { loan_id: loan_id },
        });
        proof {
            old(self).entries@.remove_ensures(i as int);
        }
        Ok(())
    }

    /// Tops a loan up. Only the lender may, and the attached funds must
    /// cover the whole additional amount, which the borrower may then also
    /// draw. The attached funds stay with the contract and the record's
    /// timestamp is refreshed.
    pub fn update_loan(
        &mut self,
        caller: AccountId,
        loan_id: LoanId,
        additional_available_amount: Balance,
        funds_attached: Balance,
        now: Timestamp,
    ) -> (r: Result<(), LoanError>)
        requires
            old(self).wf(),
            old(self)@.balance + funds_attached <= u128::MAX,
            old(self)@.records.dom().contains(loan_id)
                ==> old(self)@.records[loan_id].available_amount + additional_available_amount
                <= u128::MAX,
        ensures
            final(self).wf(),
            final(self)@ == step_update(old(self)@, caller, loan_id,
                additional_available_amount, funds_attached, now).0,
            r == step_update(old(self)@, caller, loan_id, additional_available_amount,
                funds_attached, now).1,
            r is Err ==> final(self)@ == old(self)@,
            r == Ok::<(), LoanError>(()) <==> (old(self)@.records.dom().contains(loan_id)
                && funds_attached >= additional_available_amount
                && caller == old(self)@.records[loan_id].lender),
    {
        let i = match self.find_index(loan_id) {
            None => {
                proof {
                    lemma_as_map_absent(self.entries@, loan_id);
                }
                return Err(LoanError::NonExistingLoanId);
            },
            Some(i) => i,
        };
        proof {
            lemma_as_map_at(self.entries@, i as int);
        }
        if funds_attached < additional_available_amount {
            return Err(LoanError::NotEnoughFundsProvided);
        }
        let record = self.entries[i].1;
        if caller != record.lender {
            return Err(LoanError::NoPermission);
        }
        let updated = LoanInfo {
            available_amount: record.available_amount + additional_available_amount,
            timestamp: now,
            ..record
        };
        proof {
            lemma_as_map_update(self.entries@, i as int, (loan_id, updated));
        }
        self.entries[i] = (loan_id, updated);
        self.balance = self.balance + funds_attached;
        Ok(())
    }

    /// Raises a loan's outstanding obligation by `amount` without moving
    /// any funds: interest or fee accrual. Authorizing the charge is the
    /// host's concern; the ledger records it and refreshes the timestamp.
    pub fn charge_apy(&mut self, loan_id: LoanId, amount: Balance, now: Timestamp) -> (r: Result<
        (),
        LoanError,
    >)
        requires
            old(self).wf(),
            old(self)@.records.dom().contains(loan_id)
                ==> old(self)@.records[loan_id].borrowed_amount + amount <= u128::MAX,
        ensures
            final(self).wf(),
            final(self)@ == step_charge(old(self)@, loan_id, amount, now).0,
            r == step_charge(old(self)@, loan_id, amount, now).1,
            r is Err ==> final(self)@ == old(self)@,
            r == Ok::<(), LoanError>(()) <==> old(self)@.records.dom().contains(loan_id),
    {
        let i = match self.find_index(loan_id) {
            None => {
                proof {
                    lemma_as_map_absent(self.entries@, loan_id);
                }
                return Err(LoanError::NonExistingLoanId);
            },
            Some(i) => i,
        };
        proof {
            lemma_as_map_at(self.entries@, i as int);
        }
        let record = self.entries[i].1;
        let updated = LoanInfo {
            borrowed_amount: record.borrowed_amount + amount,
            timestamp: now,
            ..record
        };
        proof {
            lemma_as_map_update(self.entries@, i as int, (loan_id, updated));
        }
        self.entries[i] = (loan_id, updated);
        Ok(())
    }

    /// Accepts a repayment. The repayment must be positive, covered by the
    /// attached funds, and no larger than the outstanding borrowed amount —
    /// an overpayment is rejected, never clamped. The attached funds are
    /// forwarded to the settlement pool, which is then notified of the
    /// repaid amount.
    pub fn repay(
        &mut self,
        loan_id: LoanId,
        repay_amount: Balance,
        funds_attached: Balance,
        now: Timestamp,
    ) -> (r: Result<(), LoanError>)
        requires
            old(self).wf(),
        ensures
            final(self).wf(),
            final(self)@ == step_repay(old(self)@, loan_id, repay_amount, funds_attached, now).0,
            r == step_repay(old(self)@, loan_id, repay_amount, funds_attached, now).1,
            r is Err ==> final(self)@ == old(self)@,
            r == Ok::<(), LoanError>(()) <==> (old(self)@.records.dom().contains(loan_id)
                && 0 < repay_amount <= old(self)@.records[loan_id].borrowed_amount
                && funds_attached >= repay_amount),
    {
        let i = match self.find_index(loan_id) {
            None => {
                proof {
                    lemma_as_map_absent(self.entries@, loan_id);
                }
                return Err(LoanError::NonExistingLoanId);
            },
            Some(i) => i,
        };
        proof {
            lemma_as_map_at(self.entries@, i as int);
        }
        if repay_amount == 0 {
            return Err(LoanError::RepayAmountMustBeHigherThanZero);
        }
        if funds_attached < repay_amount {
            return Err(LoanError::NotEnoughFundsProvided);
        }
        let record = self.entries[i].1;
        if repay_amount > record.borrowed_amount {
            return Err(LoanError::RepaymentExceedsOutstanding);
        }
        let updated = LoanInfo {
            borrowed_amount: record.borrowed_amount - repay_amount,
            timestamp: now,
            ..record
        };
        proof {
            lemma_as_map_update(self.entries@, i as int, (loan_id, updated));
        }
        self.entries[i] = (loan_id, updated);
        self.pending.push(SettlementAction::Pay {
            to: self.pallet_id,
            amount: funds_attached,
        });
        self.pending.push(SettlementAction::Notify {
            event: PoolEvent::LoanRepaid { loan_id: loan_id, amount: repay_amount },
        });
        Ok(())
    }

    /// Pays `amount` of a loan's available funds out to its borrower. Only
    /// the borrower may draw, up to what the contract holds and what the
    /// loan still has available; the drawn funds move from available to
    /// borrowed and a payment to the borrower is queued.
    pub fn withdraw_funds(&mut self, caller: AccountId, loan_id: LoanId, amount: Balance) -> (r:
        Result<(), LoanError>)
        requires
            old(self).wf(),
            old(self)@.records.dom().contains(loan_id)
                ==> old(self)@.records[loan_id].borrowed_amount + amount <= u128::MAX,
        ensures
            final(self).wf(),
            final(self)@ == step_withdraw(old(self)@, caller, loan_id, amount).0,
            r == step_withdraw(old(self)@, caller, loan_id, amount).1,
            r is Err ==> final(self)@ == old(self)@,
            r == Ok::<(), LoanError>(()) <==> (old(self)@.records.dom().contains(loan_id)
                && amount <= old(self)@.balance
                && amount <= old(self)@.records[loan_id].available_amount
                && caller == old(self)@.records[loan_id].borrower),
    {
        let i = match self.find_index(loan_id) {
            None => {
                proof {
                    lemma_as_map_absent(self.entries@, loan_id);
                }
                return Err(LoanError::NonExistingLoanId);
            },
            Some(i) => i,
        };
        proof {
            lemma_as_map_at(self.entries@, i as int);
        }
        if amount > self.balance {
            return Err(LoanError::InsufficientLoanBalance);
        }
        let record = self.entries[i].1;
        if amount > record.available_amount {
            return Err(LoanError::InsufficientLoanBalance);
        }
        if caller != record.borrower {
            return Err(LoanError::NotTheBorrower);
        }
        let updated = LoanInfo {
            available_amount: record.available_amount - amount,
            borrowed_amount: record.borrowed_amount + amount,
            ..record
        };
        proof {
            lemma_as_map_update(self.entries@, i as int, (loan_id, updated));
        }
        self.entries[i] = (loan_id, updated);
        self.balance = self.balance - amount;
        self.pending.push(SettlementAction::Pay { to: record.borrower, amount: amount });
        Ok(())
    }

    /// Read-only lookup: the record under `loan_id`, or a typed error when
    /// there is none. The ledger is never touched, so repeated reads answer
    /// identically until some operation mutates the record.
    pub fn get_loan_info(&self, loan_id: LoanId) -> (r: Result<LoanInfo, LoanError>)
        requires
            self.wf(),
        ensures
            r == read_loan(self@, loan_id),
    {
        match self.find_index(loan_id) {
            Some(i) => {
                proof {
                    lemma_as_map_at(self.entries@, i as int);
                }
                Ok(self.entries[i].1)
            },
            None => {
                proof {
                    lemma_as_map_absent(self.entries@, loan_id);
                }
                Err(LoanError::NonExistingLoanId)
            },
        }
    }

    /// Law: the held balance reconciles with the ledger's obligations. A
    /// well-formed ledger always holds at least each loan's still-available
    /// funds, so a borrower's withdrawal within the available amount never
    /// founders on the contract's balance: it succeeds outright.
    pub proof fn lemma_balance_covers_withdrawals(
        self,
        caller: AccountId,
        loan_id: LoanId,
        amount: Balance,
    )
        requires
            self.wf(),
            self@.records.dom().contains(loan_id),
            amount <= self@.records[loan_id].available_amount,
            caller == self@.records[loan_id].borrower,
        ensures
            self@.records[loan_id].available_amount <= self@.balance,
            step_withdraw(self@, caller, loan_id, amount).1 == Ok::<(), LoanError>(()),
    {
        lemma_as_map_to_index(self.entries@, loan_id);
        let i = choose|i: int|
            0 <= i < self.entries@.len() && (#[trigger] self.entries@[i]).0 == loan_id;
        lemma_as_map_at(self.entries@, i);
        lemma_avail_sum_at_least(self.entries@, i);
    }

    /// The funds the contract currently holds in custody.
    pub fn balance(&self) -> (r: Balance)
        ensures
            r == self@.balance,
    {
        self.balance
    }

    /// Hands the queued settlement actions to the host, oldest first, and
    /// empties the queue. The host performs them in order.
    pub fn take_pending(&mut self) -> (r: Vec<SettlementAction>)
        requires
            old(self).wf(),
        ensures
            final(self).wf(),
            r@ == old(self)@.pending,
            final(self)@ == (LedgerView { pending: Seq::empty(), ..old(self)@ }),
    {
        let mut out: Vec<SettlementAction> = Vec::new();
        core::mem::swap(&mut out, &mut self.pending);
        out
    }
}

} // verus!
