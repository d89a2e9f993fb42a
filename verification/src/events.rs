//! Append-only notifications, one per successful state transition.
//!
//! The marketplace appends exactly one event to its log for each operation
//! that succeeds; the log is never otherwise touched. Events carry the
//! identifiers and amounts of the transition for off-chain observers and are
//! not consumed by the core itself.

use vstd::prelude::*;

verus! {

/// A new agent profile was registered.
pub struct AgentRegistered {
    pub agent: usize,
    pub owner: usize,
    pub name: String,
    pub price_lamports: u64,
}

/// A new root job was created and funded.
pub struct JobCreated {
    pub job: usize,
    pub client: usize,
    pub agent: usize,
    pub escrow_lamports: u64,
    pub auto_release_at: Option<i64>,
}

/// A job's agent marked it complete and recorded the result location.
pub struct JobCompleted {
    pub job: usize,
    pub agent: usize,
    pub result_uri: String,
}

/// A pending job was cancelled and its escrow refunded to the client.
pub struct JobCancelled {
    pub job: usize,
    pub client: usize,
    pub refund_lamports: u64,
}

/// Part of a job's escrow was carved out into a new child job.
pub struct JobDelegated {
    pub parent_job: usize,
    pub child_job: usize,
    pub delegating_agent: usize,
    pub sub_agent: usize,
    pub amount: u64,
}

/// A completed job's escrow was released to its agent.
pub struct PaymentReleased {
    pub job: usize,
    pub agent: usize,
    pub amount: u64,
    pub auto_released: bool,
}

/// A dispute was opened on a non-terminal job.
pub struct DisputeRaised {
    pub job: usize,
    pub raised_by: usize,
}

/// An expired dispute was resolved by refunding the client.
pub struct DisputeResolved {
    pub job: usize,
    pub refund_lamports: u64,
}

/// A finalized job's client rated the agent.
pub struct AgentRated {
    pub agent: usize,
    pub rater: usize,
    pub score: u8,
    pub new_avg_x100: u64,
}

/// One entry of the marketplace's append-only event log.
pub enum AgentEvent {
    AgentRegistered(AgentRegistered),
    JobCreated(JobCreated),
    JobCompleted(JobCompleted),
    JobCancelled(JobCancelled),
    JobDelegated(JobDelegated),
    PaymentReleased(PaymentReleased),
    DisputeRaised(DisputeRaised),
    DisputeResolved(DisputeResolved),
    AgentRated(AgentRated),
}

} // verus!
