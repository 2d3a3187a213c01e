//! The record store's mathematical reading.
//!
//! The ledger keeps its records in a sequence of `(identifier, record)`
//! pairs with pairwise-distinct identifiers. These functions read such a
//! sequence as a `Map` and total up the funds still available, and the
//! lemmas say how both readings move under the three edits the ledger makes:
//! pushing a fresh pair, rewriting the record under an existing identifier,
//! and removing a pair.

use vstd::prelude::*;
use crate::records::{LoanId, LoanInfo};

verus! {

/// Every identifier occurs at most once.
pub open spec fn keys_unique(entries: Seq<(LoanId, LoanInfo)>) -> bool {
    forall|i: int, j: int| 0 <= i < j < entries.len() ==> entries[i].0 != entries[j].0
}

/// The sequence of pairs read as a map from identifier to record.
pub open spec fn as_map(entries: Seq<(LoanId, LoanInfo)>) -> Map<LoanId, LoanInfo>
    decreases entries.len(),
{
    if entries.len() == 0 {
        Map::empty()
    } else {
        as_map(entries.drop_last()).insert(entries.last().0, entries.last().1)
    }
}

/// The total of the available amounts over all records.
pub open spec fn avail_sum(entries: Seq<(LoanId, LoanInfo)>) -> int
    decreases entries.len(),
{
    if entries.len() == 0 {
        0
    } else {
        avail_sum(entries.drop_last()) + entries.last().1.available_amount
    }
}

/// An identifier that occurs nowhere in the sequence is not in the map.
pub proof fn lemma_as_map_absent(entries: Seq<(LoanId, LoanInfo)>, k: LoanId)
    requires
        forall|i: int| 0 <= i < entries.len() ==> entries[i].0 != k,
    ensures
        !as_map(entries).dom().contains(k),
    decreases entries.len(),
{
    if entries.len() > 0 {
        assert(forall|i: int|
            0 <= i < entries.drop_last().len() ==> entries.drop_last()[i].0 != k);
        lemma_as_map_absent(entries.drop_last(), k);
    }
}

/// The map holds exactly the record stored beside each identifier.
pub proof fn lemma_as_map_at(entries: Seq<(LoanId, LoanInfo)>, i: int)
    requires
        keys_unique(entries),
        0 <= i < entries.len(),
    ensures
        as_map(entries).dom().contains(entries[i].0),
        as_map(entries)[entries[i].0] == entries[i].1,
    decreases entries.len(),
{
    if i < entries.len() - 1 {
        assert(keys_unique(entries.drop_last()));
        assert(entries.drop_last()[i] == entries[i]);
        lemma_as_map_at(entries.drop_last(), i);
        assert(entries[i].0 != entries.last().0);
    }
}

/// Pushing a pair inserts it into the map.
pub proof fn lemma_as_map_push(entries: Seq<(LoanId, LoanInfo)>, p: (LoanId, LoanInfo))
    ensures
        as_map(entries.push(p)) == as_map(entries).insert(p.0, p.1),
        avail_sum(entries.push(p)) == avail_sum(entries) + p.1.available_amount,
{
    assert(entries.push(p).drop_last() =~= entries);
    assert(entries.push(p).last() == p);
}

/// Rewriting the record under an identifier already stored at position `i`
/// rewrites that one key of the map and moves the available total by the
/// difference.
pub proof fn lemma_as_map_update(entries: Seq<(LoanId, LoanInfo)>, i: int, p: (LoanId, LoanInfo))
    requires
        keys_unique(entries),
        0 <= i < entries.len(),
        entries[i].0 == p.0,
    ensures
        as_map(entries.update(i, p)) == as_map(entries).insert(p.0, p.1),
        avail_sum(entries.update(i, p)) == avail_sum(entries)
            - entries[i].1.available_amount + p.1.available_amount,
    decreases entries.len(),
{
    let upd = entries.update(i, p);
    if i == entries.len() - 1 {
        assert(upd.drop_last() =~= entries.drop_last());
        assert(upd.last() == p);
        assert(as_map(entries.drop_last()).insert(p.0, p.1)
            =~= as_map(entries.drop_last()).insert(entries[i].0, entries[i].1).insert(p.0, p.1));
    } else {
        assert(keys_unique(entries.drop_last()));
        assert(entries.drop_last()[i] == entries[i]);
        lemma_as_map_update(entries.drop_last(), i, p);
        assert(upd.drop_last() =~= entries.drop_last().update(i, p));
        assert(upd.last() == entries.last());
        assert(entries[i].0 != entries.last().0);
        assert(as_map(entries.drop_last()).insert(p.0, p.1)
            .insert(entries.last().0, entries.last().1)
            =~= as_map(entries).insert(p.0, p.1));
    }
}

/// Removing the pair at position `i` removes its identifier from the map
/// and its available amount from the total.
pub proof fn lemma_as_map_remove(entries: Seq<(LoanId, LoanInfo)>, i: int)
    requires
        keys_unique(entries),
        0 <= i < entries.len(),
    ensures
        as_map(entries.remove(i)) == as_map(entries).remove(entries[i].0),
        avail_sum(entries.remove(i)) == avail_sum(entries) - entries[i].1.available_amount,
    decreases entries.len(),
{
    let rem = entries.remove(i);
    entries.remove_ensures(i);
    if i == entries.len() - 1 {
        assert(rem =~= entries.drop_last());
        assert(forall|j: int|
            0 <= j < entries.drop_last().len() ==> entries.drop_last()[j].0 != entries[i].0);
        lemma_as_map_absent(entries.drop_last(), entries[i].0);
        assert(as_map(entries.drop_last())
            =~= as_map(entries.drop_last()).insert(entries[i].0, entries[i].1).remove(entries[i].0));
    } else {
        assert(keys_unique(entries.drop_last()));
        assert(entries.drop_last()[i] == entries[i]);
        lemma_as_map_remove(entries.drop_last(), i);
        assert(rem.drop_last() =~= entries.drop_last().remove(i));
        assert(rem.last() == entries.last());
        assert(entries[i].0 != entries.last().0);
        assert(as_map(entries.drop_last()).remove(entries[i].0)
            .insert(entries.last().0, entries.last().1)
            =~= as_map(entries).remove(entries[i].0));
    }
}

/// Whatever the map holds is stored somewhere in the sequence.
pub proof fn lemma_as_map_to_index(entries: Seq<(LoanId, LoanInfo)>, k: LoanId)
    requires
        as_map(entries).dom().contains(k),
    ensures
        exists|i: int| 0 <= i < entries.len() && (#[trigger] entries[i]).0 == k,
    decreases entries.len(),
{
    if entries.len() > 0 {
        if entries.last().0 == k {
            assert(entries[entries.len() - 1].0 == k);
        } else {
            lemma_as_map_to_index(entries.drop_last(), k);
            let i = choose|i: int|
                0 <= i < entries.drop_last().len() && (#[trigger] entries.drop_last()[i]).0 == k;
            assert(entries[i].0 == k);
        }
    }
}

/// The available total is never negative.
pub proof fn lemma_avail_sum_nonneg(entries: Seq<(LoanId, LoanInfo)>)
    ensures
        avail_sum(entries) >= 0,
    decreases entries.len(),
{
    if entries.len() > 0 {
        lemma_avail_sum_nonneg(entries.drop_last());
    }
}

/// The available total covers each single record's available amount.
pub proof fn lemma_avail_sum_at_least(entries: Seq<(LoanId, LoanInfo)>, i: int)
    requires
        0 <= i < entries.len(),
    ensures
        avail_sum(entries) >= entries[i].1.available_amount,
    decreases entries.len(),
{
    if i == entries.len() - 1 {
        lemma_avail_sum_nonneg(entries.drop_last());
    } else {
        assert(entries.drop_last()[i] == entries[i]);
        lemma_avail_sum_at_least(entries.drop_last(), i);
    }
}

} // verus!
