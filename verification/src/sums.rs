//! Summation over the balance table and the job arena, with the lemmas the
//! fund-conservation contracts rest on.

use vstd::prelude::*;
use crate::state::Job;

verus! {

/// The total of a sequence of balances, as a mathematical integer.
pub open spec fn balance_total(s: Seq<u64>) -> int
    decreases s.len(),
{
    if s.len() == 0 {
        0
    } else {
        balance_total(s.drop_last()) + s.last()
    }
}

/// The total escrow held across a sequence of job records.
pub open spec fn escrow_total(s: Seq<Job>) -> int
    decreases s.len(),
{
    if s.len() == 0 {
        0
    } else {
        escrow_total(s.drop_last()) + s.last().escrow_lamports
    }
}

/// Appending a balance adds exactly that balance to the total.
pub proof fn lemma_balance_total_push(s: Seq<u64>, v: u64)
    ensures
        balance_total(s.push(v)) == balance_total(s) + v,
{
    assert(s.push(v).drop_last() =~= s);
}

/// Replacing one balance shifts the total by exactly the difference.
pub proof fn lemma_balance_total_update(s: Seq<u64>, i: int, v: u64)
    requires
        0 <= i < s.len(),
    ensures
        balance_total(s.update(i, v)) == balance_total(s) - s[i] + v,
    decreases s.len(),
{
    let t = s.update(i, v);
    if i == s.len() - 1 {
        assert(t.drop_last() =~= s.drop_last());
    } else {
        assert(t.drop_last() =~= s.drop_last().update(i, v));
        lemma_balance_total_update(s.drop_last(), i, v);
    }
}

/// Appending a job adds exactly its escrow to the escrow total.
pub proof fn lemma_escrow_total_push(s: Seq<Job>, j: Job)
    ensures
        escrow_total(s.push(j)) == escrow_total(s) + j.escrow_lamports,
{
    assert(s.push(j).drop_last() =~= s);
}

/// Replacing one job record shifts the escrow total by exactly the
/// difference of the escrows.
pub proof fn lemma_escrow_total_update(s: Seq<Job>, i: int, j: Job)
    requires
        0 <= i < s.len(),
    ensures
        escrow_total(s.update(i, j)) == escrow_total(s) - s[i].escrow_lamports
            + j.escrow_lamports,
    decreases s.len(),
{
    let t = s.update(i, j);
    if i == s.len() - 1 {
        assert(t.drop_last() =~= s.drop_last());
    } else {
        assert(t.drop_last() =~= s.drop_last().update(i, j));
        lemma_escrow_total_update(s.drop_last(), i, j);
    }
}

} // verus!
