//! The global laws of the store, stated on their own.
//!
//! Each law is a consequence of the store invariant [`Marketplace::wf`],
//! which [`Marketplace::new`] establishes and every operation's contract
//! preserves, so each holds in every reachable store.

use vstd::prelude::*;
use crate::accounting::delegated_total;
use crate::accounting::funded_total;
use crate::accounting::paid_total;
use crate::accounting::refunded_total;
use crate::constants::MAX_ACTIVE_CHILDREN;
use crate::marketplace::Marketplace;
use crate::state::JobStatus;

verus! {

/// A terminal job holds no escrow: whenever a job's status is `Finalized`
/// or `Cancelled`, its escrow is zero.
pub proof fn lemma_terminal_jobs_hold_no_escrow(m: Marketplace, j: int)
    requires
        m.wf(),
        0 <= j < m.jobs@.len(),
        m.jobs@[j].status == JobStatus::Finalized || m.jobs@[j].status == JobStatus::Cancelled,
    ensures
        m.jobs@[j].escrow_lamports == 0,
{
}

/// Per-node fan-out is capped: every job's outstanding-children counter
/// lies in 0..=8.
pub proof fn lemma_active_children_bounded(m: Marketplace, j: int)
    requires
        m.wf(),
        0 <= j < m.jobs@.len(),
    ensures
        m.jobs@[j].active_children <= MAX_ACTIVE_CHILDREN,
{
}

/// A job cannot be `Completed` (nor, a fortiori, `Finalized`) while it
/// still carries unresolved child delegations.
pub proof fn lemma_completed_job_has_no_children(m: Marketplace, j: int)
    requires
        m.wf(),
        0 <= j < m.jobs@.len(),
        m.jobs@[j].status == JobStatus::Completed || m.jobs@[j].status == JobStatus::Finalized,
    ensures
        m.jobs@[j].active_children == 0,
{
}

/// Fund conservation, read off the event log: everything a job was ever
/// funded with is either still in its escrow, was paid to its agent, was
/// refunded to its client, or was carved out into child jobs — no leakage,
/// no double-counting. For a terminal job the escrow term is zero. Summing
/// the equation over a delegation subtree, a root job's payment equals the
/// payouts plus the refunds across the whole subtree plus whatever is
/// still escrowed in it.
pub proof fn lemma_job_funding_accounted(m: Marketplace, j: usize)
    requires
        m.wf(),
        j < m.jobs@.len(),
    ensures
        funded_total(m.events@, j) == m.jobs@[j as int].escrow_lamports + paid_total(
            m.events@,
            j,
        ) + refunded_total(m.events@, j) + delegated_total(m.events@, j),
{
    assert(m.job_accounted(j));
}

/// At most one rating record exists per job: two distinct rating records
/// always refer to distinct jobs.
pub proof fn lemma_at_most_one_rating_per_job(m: Marketplace, k1: int, k2: int)
    requires
        m.wf(),
        0 <= k1 < m.ratings@.len(),
        0 <= k2 < m.ratings@.len(),
        k1 != k2,
    ensures
        m.ratings@[k1].job != m.ratings@[k2].job,
{
}

} // verus!
