//! Fund accounting over the event log.
//!
//! The event log records every movement of value: job funding
//! (`JobCreated`, `JobDelegated` on the child side), payouts
//! (`PaymentReleased`), refunds (`JobCancelled`, `DisputeResolved`) and
//! carve-outs (`JobDelegated` on the parent side). These sums, together
//! with the store invariant, let the per-job conservation law be stated:
//! everything a job was ever funded with is either still in its escrow,
//! paid to its agent, refunded to its client, or delegated onward.

use vstd::prelude::*;
use crate::events::AgentEvent;

verus! {

/// What one event contributes to the funding of job `j`.
pub open spec fn event_funding(e: AgentEvent, j: usize) -> int {
    match e {
        AgentEvent::JobCreated(ev) => if ev.job == j {
            ev.escrow_lamports as int
        } else {
            0
        },
        AgentEvent::JobDelegated(ev) => if ev.child_job == j {
            ev.amount as int
        } else {
            0
        },
        _ => 0,
    }
}

/// What one event contributes to the payouts of job `j`.
pub open spec fn event_payout(e: AgentEvent, j: usize) -> int {
    match e {
        AgentEvent::PaymentReleased(ev) => if ev.job == j {
            ev.amount as int
        } else {
            0
        },
        _ => 0,
    }
}

/// What one event contributes to the refunds of job `j`.
pub open spec fn event_refund(e: AgentEvent, j: usize) -> int {
    match e {
        AgentEvent::JobCancelled(ev) => if ev.job == j {
            ev.refund_lamports as int
        } else {
            0
        },
        AgentEvent::DisputeResolved(ev) => if ev.job == j {
            ev.refund_lamports as int
        } else {
            0
        },
        _ => 0,
    }
}

/// What one event contributes to the delegations out of job `j`.
pub open spec fn event_delegation(e: AgentEvent, j: usize) -> int {
    match e {
        AgentEvent::JobDelegated(ev) => if ev.parent_job == j {
            ev.amount as int
        } else {
            0
        },
        _ => 0,
    }
}

/// The total value job `j` was ever funded with, per the log: its creation
/// funding plus every delegation carve-out credited to it.
pub open spec fn funded_total(log: Seq<AgentEvent>, j: usize) -> int
    decreases log.len(),
{
    if log.len() == 0 {
        0
    } else {
        funded_total(log.drop_last(), j) + event_funding(log.last(), j)
    }
}

/// The total value ever paid out of job `j` to its agent, per the log.
pub open spec fn paid_total(log: Seq<AgentEvent>, j: usize) -> int
    decreases log.len(),
{
    if log.len() == 0 {
        0
    } else {
        paid_total(log.drop_last(), j) + event_payout(log.last(), j)
    }
}

/// The total value ever refunded out of job `j` to its client, per the log.
pub open spec fn refunded_total(log: Seq<AgentEvent>, j: usize) -> int
    decreases log.len(),
{
    if log.len() == 0 {
        0
    } else {
        refunded_total(log.drop_last(), j) + event_refund(log.last(), j)
    }
}

/// The total value ever carved out of job `j` into child jobs, per the log.
pub open spec fn delegated_total(log: Seq<AgentEvent>, j: usize) -> int
    decreases log.len(),
{
    if log.len() == 0 {
        0
    } else {
        delegated_total(log.drop_last(), j) + event_delegation(log.last(), j)
    }
}

/// Whether every job an event names exists among the first `n` jobs.
pub open spec fn event_jobs_below(e: AgentEvent, n: int) -> bool {
    match e {
        AgentEvent::AgentRegistered(_) => true,
        AgentEvent::JobCreated(ev) => ev.job < n,
        AgentEvent::JobCompleted(ev) => ev.job < n,
        AgentEvent::JobCancelled(ev) => ev.job < n,
        AgentEvent::JobDelegated(ev) => ev.parent_job < n && ev.child_job < n,
        AgentEvent::PaymentReleased(ev) => ev.job < n,
        AgentEvent::DisputeRaised(ev) => ev.job < n,
        AgentEvent::DisputeResolved(ev) => ev.job < n,
        AgentEvent::AgentRated(_) => true,
    }
}

/// Events that move no value between wallets and escrows: registration,
/// completion, dispute opening, rating.
pub open spec fn neutral_event(e: AgentEvent) -> bool {
    match e {
        AgentEvent::AgentRegistered(_) => true,
        AgentEvent::JobCompleted(_) => true,
        AgentEvent::DisputeRaised(_) => true,
        AgentEvent::AgentRated(_) => true,
        _ => false,
    }
}

/// Appending an event extends each accounting sum by exactly that event's
/// contribution.
pub proof fn lemma_totals_push(log: Seq<AgentEvent>, e: AgentEvent, j: usize)
    ensures
        funded_total(log.push(e), j) == funded_total(log, j) + event_funding(e, j),
        paid_total(log.push(e), j) == paid_total(log, j) + event_payout(e, j),
        refunded_total(log.push(e), j) == refunded_total(log, j) + event_refund(e, j),
        delegated_total(log.push(e), j) == delegated_total(log, j) + event_delegation(e, j),
{
    assert(log.push(e).drop_last() =~= log);
}

/// A job no event names has all four accounting sums at zero.
pub proof fn lemma_totals_zero_beyond(log: Seq<AgentEvent>, n: int, j: usize)
    requires
        forall|i: int| 0 <= i < log.len() ==> event_jobs_below(#[trigger] log[i], n),
        j >= n,
    ensures
        funded_total(log, j) == 0,
        paid_total(log, j) == 0,
        refunded_total(log, j) == 0,
        delegated_total(log, j) == 0,
    decreases log.len(),
{
    if log.len() > 0 {
        assert(forall|i: int|
            0 <= i < log.drop_last().len() ==> event_jobs_below(
                #[trigger] log.drop_last()[i],
                n,
            ));
        lemma_totals_zero_beyond(log.drop_last(), n, j);
    }
}

} // verus!
