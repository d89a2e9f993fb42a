//! The persisted record types: agent profiles, jobs, and ratings.
//!
//! Identities (signers, wallet owners) are account indices into the
//! marketplace's balance table; job and profile references are indices into
//! the marketplace's job and profile arenas. Address derivation is the host's
//! concern and is not modelled beyond these indices being stable.

use vstd::prelude::*;
use crate::constants::MAX_ACTIVE_CHILDREN;

verus! {

/// The lifecycle states of a [`Job`].
///
/// `Pending -> InProgress -> Completed -> Finalized` is the happy path;
/// `Disputed` is reachable from `Pending`, `InProgress` and `Completed`;
/// `Cancelled` is reachable from `Pending` (direct cancel) and from
/// `Disputed` (timeout resolution). `Finalized` and `Cancelled` are terminal.
#[derive(Clone, Copy, Debug, PartialEq, Eq, Structural)]
pub enum JobStatus {
    Pending,
    InProgress,
    Completed,
    Disputed,
    Cancelled,
    Finalized,
}

impl JobStatus {
    /// Terminal states hold no escrow and admit no further transition.
    pub open spec fn is_terminal(self) -> bool {
        self == JobStatus::Cancelled || self == JobStatus::Finalized
    }
}

/// A registered service provider.
pub struct AgentProfile {
    /// Identity of the controlling signer. Immutable after creation.
    pub owner: usize,
    /// Display name: non-empty, at most 32 characters.
    pub name: String,
    /// Display description: at most 128 characters.
    pub description: String,
    /// Bitmask of offered service categories.
    pub capabilities: u16,
    /// Minimum payment per invocation; always greater than zero.
    pub price_lamports: u64,
    /// Gate on new job creation against this agent.
    pub is_active: bool,
    /// Accumulated rating points; `rating_sum * 100 / rating_count` is the
    /// published average.
    pub rating_sum: u64,
    /// Number of ratings accumulated into `rating_sum`.
    pub rating_count: u32,
    /// Count of finalized jobs paid out to this agent.
    pub jobs_completed: u32,
    /// Creation timestamp.
    pub created_at: i64,
}

impl AgentProfile {
    /// Record-local well-formedness: bounded non-empty name, bounded
    /// description, positive price.
    pub open spec fn wf(self) -> bool {
        &&& 1 <= self.name@.len() <= 32
        &&& self.description@.len() <= 128
        &&& self.price_lamports >= 1
    }

    /// An exact copy of this profile.
    pub fn duplicate(&self) -> (r: AgentProfile)
        ensures
            r == *self,
    {
        AgentProfile {
            owner: self.owner,
            name: self.name.clone(),
            description: self.description.clone(),
            capabilities: self.capabilities,
            price_lamports: self.price_lamports,
            is_active: self.is_active,
            rating_sum: self.rating_sum,
            rating_count: self.rating_count,
            jobs_completed: self.jobs_completed,
            created_at: self.created_at,
        }
    }
}

/// One unit of escrowed work, root or delegated child.
pub struct Job {
    /// The paying party's identity.
    pub client: usize,
    /// The serving party's identity (an agent profile's owner).
    pub agent: usize,
    /// Value units currently held in escrow for this job.
    pub escrow_lamports: u64,
    /// Current lifecycle state.
    pub status: JobStatus,
    /// Task description: non-empty, at most 256 characters.
    pub description: String,
    /// Result location: empty until completion, at most 128 characters.
    pub result_uri: String,
    /// Back-reference to the parent job when created via delegation; purely a
    /// reconciliation link, never ownership.
    pub parent_job: Option<usize>,
    /// Count of currently outstanding delegated child jobs; bounded 0..=8.
    pub active_children: u8,
    /// Optional timestamp after which anyone may force-release payment.
    pub auto_release_at: Option<i64>,
    /// Timestamp at which a dispute was raised, when one is open.
    pub disputed_at: Option<i64>,
    /// Creation timestamp.
    pub created_at: i64,
    /// Completion timestamp, set when the job reaches `Completed`.
    pub completed_at: Option<i64>,
    /// Caller-chosen disambiguator used by the host for address derivation;
    /// not a business field.
    pub timestamp_seed: i64,
}

impl Job {
    /// Record-local well-formedness. The escrow/status coupling is the core
    /// safety property: no terminal job holds escrow. A job that has reached
    /// `Completed` (and hence `Finalized`) has no outstanding children.
    pub open spec fn wf(self) -> bool {
        &&& self.status.is_terminal() ==> self.escrow_lamports == 0
        &&& self.active_children <= MAX_ACTIVE_CHILDREN
        &&& (self.status == JobStatus::Completed || self.status == JobStatus::Finalized)
            ==> self.active_children == 0
        &&& self.status == JobStatus::Disputed ==> self.disputed_at is Some
        &&& self.disputed_at matches Some(d) ==> d >= 0
        &&& 1 <= self.description@.len() <= 256
        &&& self.result_uri@.len() <= 128
        &&& (self.status == JobStatus::Pending || self.status == JobStatus::InProgress)
            ==> self.result_uri@.len() == 0
    }

    /// An exact copy of this job.
    pub fn duplicate(&self) -> (r: Job)
        ensures
            r == *self,
    {
        Job {
            client: self.client,
            agent: self.agent,
            escrow_lamports: self.escrow_lamports,
            status: self.status,
            description: self.description.clone(),
            result_uri: self.result_uri.clone(),
            parent_job: self.parent_job,
            active_children: self.active_children,
            auto_release_at: self.auto_release_at,
            disputed_at: self.disputed_at,
            created_at: self.created_at,
            completed_at: self.completed_at,
            timestamp_seed: self.timestamp_seed,
        }
    }
}

/// One immutable rating record per finalized job.
pub struct Rating {
    /// The rated agent profile.
    pub agent: usize,
    /// The rating party's identity (the job's client).
    pub rater: usize,
    /// The finalized job the rating refers to; at most one rating exists per
    /// job.
    pub job: usize,
    /// Score in 1..=5.
    pub score: u8,
    /// Creation timestamp.
    pub created_at: i64,
}

impl Rating {
    /// Record-local well-formedness: the score is in range.
    pub open spec fn wf(self) -> bool {
        1 <= self.score <= 5
    }
}

} // verus!
