//! The marketplace ledger and the job/escrow state machine.
//!
//! A [`Marketplace`] value models the set of accounts one deployment of the
//! protocol operates on: wallet balances keyed by account index, an arena of
//! agent profiles, an arena of job records, the rating records, and the
//! append-only event log. Each operation runs atomically against this store:
//! it either succeeds, applies all its effects and appends one event, or
//! fails with exactly one [`AgentProtocolError`] and changes nothing.
//!
//! The host substrate's duties — durable storage, all-or-nothing commits,
//! signature authentication and the trusted clock — are the caller's: every
//! operation takes the authenticated signer and, where relevant, the current
//! timestamp `now` as plain arguments.

use vstd::prelude::*;
use vstd::pervasive::VecAdditionalExecFns;
use vstd::string::StrSliceExecFns;
use crate::accounting::delegated_total;
use crate::accounting::event_jobs_below;
use crate::accounting::funded_total;
use crate::accounting::lemma_totals_push;
use crate::accounting::lemma_totals_zero_beyond;
use crate::accounting::paid_total;
use crate::accounting::refunded_total;
use crate::constants::DISPUTE_TIMEOUT;
use crate::constants::MAX_ACTIVE_CHILDREN;
use crate::custody::transfer_checked;
use crate::error::AgentProtocolError;
use crate::events::AgentEvent;
use crate::events::AgentRated;
use crate::events::AgentRegistered;
use crate::events::DisputeRaised;
use crate::events::DisputeResolved;
use crate::events::JobCancelled;
use crate::events::JobCompleted;
use crate::events::JobCreated;
use crate::events::JobDelegated;
use crate::events::PaymentReleased;
use crate::state::AgentProfile;
use crate::state::Job;
use crate::state::JobStatus;
use crate::state::Rating;
use crate::sums::balance_total;
use crate::sums::escrow_total;
use crate::sums::lemma_balance_total_push;
use crate::sums::lemma_balance_total_update;
use crate::sums::lemma_escrow_total_push;
use crate::sums::lemma_escrow_total_update;

verus! {

/// The ledger: wallets, agent profiles, jobs, ratings, and the event log.
pub struct Marketplace {
    /// Wallet balances; an account identity is an index into this table.
    pub balances: Vec<u64>,
    /// Registered agent profiles; a profile reference is an index here.
    pub agents: Vec<AgentProfile>,
    /// All job records ever created; a job reference is an index here.
    /// Terminal records stay in place with zero escrow.
    pub jobs: Vec<Job>,
    /// Rating records; at most one per job.
    pub ratings: Vec<Rating>,
    /// Append-only notification log, one entry per successful transition.
    pub events: Vec<AgentEvent>,
}

impl Marketplace {
    /// The store invariant, established by [`Marketplace::new`] and preserved
    /// by every operation: each record is well-formed, every identity it
    /// names has a wallet, every parent link points at an earlier job, and
    /// no two ratings name the same job.
    pub open spec fn wf(self) -> bool {
        &&& forall|a: int|
            0 <= a < self.agents@.len() ==> (#[trigger] self.agents@[a]).wf()
                && self.agents@[a].owner < self.balances@.len()
        &&& forall|j: int|
            0 <= j < self.jobs@.len() ==> (#[trigger] self.jobs@[j]).wf()
                && self.jobs@[j].client < self.balances@.len()
                && self.jobs@[j].agent < self.balances@.len()
        &&& forall|j: int|
            0 <= j < self.jobs@.len()
                ==> ((#[trigger] self.jobs@[j]).parent_job matches Some(p) ==> p < j)
        &&& forall|k: int|
            0 <= k < self.ratings@.len() ==> (#[trigger] self.ratings@[k]).wf()
                && self.ratings@[k].job < self.jobs@.len()
        &&& forall|k1: int, k2: int|
            #![trigger self.ratings@[k1], self.ratings@[k2]]
            0 <= k1 < k2 < self.ratings@.len() ==> self.ratings@[k1].job != self.ratings@[k2].job
        &&& self.events_ok()
        &&& forall|j: usize| j < self.jobs@.len() ==> #[trigger] self.job_accounted(j)
    }

    /// Every event in the log names only jobs that exist.
    pub open spec fn events_ok(self) -> bool {
        forall|i: int|
            0 <= i < self.events@.len() ==> event_jobs_below(
                #[trigger] self.events@[i],
                self.jobs@.len() as int,
            )
    }

    /// The per-job ledger law: everything job `j` was ever funded with is
    /// either still in its escrow, was paid to its agent, was refunded to
    /// its client, or was carved out into child jobs. Summed over a
    /// delegation subtree this is exactly fund conservation: the root
    /// payment equals the payouts plus the refunds across the subtree plus
    /// whatever is still escrowed in it.
    pub open spec fn job_accounted(self, j: usize) -> bool {
        funded_total(self.events@, j) == self.jobs@[j as int].escrow_lamports + paid_total(
            self.events@,
            j,
        ) + refunded_total(self.events@, j) + delegated_total(self.events@, j)
    }

    /// The accounting clauses of `wf` carry over an operation that appends
    /// one value-neutral event and touches no escrow.
    proof fn lemma_neutral_append(pre: Marketplace, post: Marketplace)
        requires
            pre.wf(),
            post.jobs@.len() == pre.jobs@.len(),
            forall|j: int|
                0 <= j < pre.jobs@.len() ==> (#[trigger] post.jobs@[j]).escrow_lamports
                    == pre.jobs@[j].escrow_lamports,
            post.events@.len() > 0,
            post.events@ == pre.events@.push(post.events@.last()),
            crate::accounting::neutral_event(post.events@.last()),
            event_jobs_below(post.events@.last(), post.jobs@.len() as int),
        ensures
            post.events_ok(),
            forall|j: usize| j < post.jobs@.len() ==> #[trigger] post.job_accounted(j),
    {
        let ev = post.events@.last();
        assert forall|j: usize| j < post.jobs@.len() implies #[trigger] post.job_accounted(j) by {
            lemma_totals_push(pre.events@, ev, j);
            assert(pre.job_accounted(j));
        };
        assert forall|i: int|
            0 <= i < post.events@.len() implies event_jobs_below(
            #[trigger] post.events@[i],
            post.jobs@.len() as int,
        ) by {
            if i < pre.events@.len() {
                assert(event_jobs_below(pre.events@[i], pre.jobs@.len() as int));
            }
        };
    }

    /// The accounting clauses of `wf` carry over an operation that drains
    /// one job's escrow and logs the whole amount as a payout or a refund
    /// of that job.
    proof fn lemma_outflow_append(pre: Marketplace, post: Marketplace, job_id: usize)
        requires
            pre.wf(),
            job_id < pre.jobs@.len(),
            post.jobs@.len() == pre.jobs@.len(),
            post.jobs@[job_id as int].escrow_lamports == 0,
            forall|j: int|
                0 <= j < pre.jobs@.len() && j != job_id ==> (#[trigger] post.jobs@[j]).escrow_lamports
                    == pre.jobs@[j].escrow_lamports,
            post.events@.len() > 0,
            post.events@ == pre.events@.push(post.events@.last()),
            ({
                let ev = post.events@.last();
                &&& forall|j: usize|
                    #[trigger] crate::accounting::event_funding(ev, j) == 0
                        && crate::accounting::event_delegation(ev, j) == 0
                &&& crate::accounting::event_payout(ev, job_id) + crate::accounting::event_refund(
                    ev,
                    job_id,
                ) == pre.jobs@[job_id as int].escrow_lamports
                &&& forall|j: usize|
                    j != job_id ==> #[trigger] crate::accounting::event_payout(ev, j) == 0
                        && crate::accounting::event_refund(ev, j) == 0
            }),
            event_jobs_below(post.events@.last(), post.jobs@.len() as int),
        ensures
            post.events_ok(),
            forall|j: usize| j < post.jobs@.len() ==> #[trigger] post.job_accounted(j),
    {
        let ev = post.events@.last();
        assert forall|j: usize| j < post.jobs@.len() implies #[trigger] post.job_accounted(j) by {
            lemma_totals_push(pre.events@, ev, j);
            assert(pre.job_accounted(j));
        };
        assert forall|i: int|
            0 <= i < post.events@.len() implies event_jobs_below(
            #[trigger] post.events@[i],
            post.jobs@.len() as int,
        ) by {
            if i < pre.events@.len() {
                assert(event_jobs_below(pre.events@[i], pre.jobs@.len() as int));
            }
        };
    }

    /// The accounting clauses of `wf` carry over an operation that appends
    /// a new job funded with `amount` and logs exactly that funding.
    proof fn lemma_creation_append(pre: Marketplace, post: Marketplace, id: usize, amount: u64)
        requires
            pre.wf(),
            id == pre.jobs@.len(),
            post.jobs@.len() == pre.jobs@.len() + 1,
            post.jobs@.last().escrow_lamports == amount,
            forall|j: int|
                0 <= j < pre.jobs@.len() ==> (#[trigger] post.jobs@[j]).escrow_lamports
                    == pre.jobs@[j].escrow_lamports,
            post.events@.len() > 0,
            post.events@ == pre.events@.push(post.events@.last()),
            ({
                let ev = post.events@.last();
                &&& forall|j: usize|
                    #[trigger] crate::accounting::event_payout(ev, j) == 0
                        && crate::accounting::event_refund(ev, j) == 0
                        && crate::accounting::event_delegation(ev, j) == 0
                &&& crate::accounting::event_funding(ev, id) == amount
                &&& forall|j: usize|
                    j != id ==> #[trigger] crate::accounting::event_funding(ev, j) == 0
            }),
            event_jobs_below(post.events@.last(), post.jobs@.len() as int),
        ensures
            post.events_ok(),
            forall|j: usize| j < post.jobs@.len() ==> #[trigger] post.job_accounted(j),
    {
        let ev = post.events@.last();
        assert forall|j: usize| j < post.jobs@.len() implies #[trigger] post.job_accounted(j) by {
            lemma_totals_push(pre.events@, ev, j);
            if j == id {
                lemma_totals_zero_beyond(pre.events@, pre.jobs@.len() as int, j);
            } else {
                assert(pre.job_accounted(j));
            }
        };
        assert forall|i: int|
            0 <= i < post.events@.len() implies event_jobs_below(
            #[trigger] post.events@[i],
            post.jobs@.len() as int,
        ) by {
            if i < pre.events@.len() {
                assert(event_jobs_below(pre.events@[i], pre.jobs@.len() as int));
            }
        };
    }

    /// The accounting clauses of `wf` carry over a delegation: `amount`
    /// leaves the parent's escrow, funds the appended child, and is logged
    /// as both the parent's carve-out and the child's funding.
    proof fn lemma_delegation_append(
        pre: Marketplace,
        post: Marketplace,
        parent_job: usize,
        id: usize,
        amount: u64,
    )
        requires
            pre.wf(),
            id == pre.jobs@.len(),
            parent_job < pre.jobs@.len(),
            post.jobs@.len() == pre.jobs@.len() + 1,
            post.jobs@.last().escrow_lamports == amount,
            post.jobs@[parent_job as int].escrow_lamports == pre.jobs@[
                parent_job as int
            ].escrow_lamports - amount,
            forall|j: int|
                0 <= j < pre.jobs@.len() && j != parent_job ==> (
                #[trigger] post.jobs@[j]).escrow_lamports == pre.jobs@[j].escrow_lamports,
            post.events@.len() > 0,
            post.events@ == pre.events@.push(post.events@.last()),
            ({
                let ev = post.events@.last();
                &&& forall|j: usize|
                    #[trigger] crate::accounting::event_payout(ev, j) == 0
                        && crate::accounting::event_refund(ev, j) == 0
                &&& crate::accounting::event_funding(ev, id) == amount
                &&& forall|j: usize|
                    j != id ==> #[trigger] crate::accounting::event_funding(ev, j) == 0
                &&& crate::accounting::event_delegation(ev, parent_job) == amount
                &&& forall|j: usize|
                    j != parent_job ==> #[trigger] crate::accounting::event_delegation(ev, j) == 0
            }),
            event_jobs_below(post.events@.last(), post.jobs@.len() as int),
        ensures
            post.events_ok(),
            forall|j: usize| j < post.jobs@.len() ==> #[trigger] post.job_accounted(j),
    {
        let ev = post.events@.last();
        assert forall|j: usize| j < post.jobs@.len() implies #[trigger] post.job_accounted(j) by {
            lemma_totals_push(pre.events@, ev, j);
            if j == id {
                lemma_totals_zero_beyond(pre.events@, pre.jobs@.len() as int, j);
            } else {
                assert(pre.job_accounted(j));
            }
        };
        assert forall|i: int|
            0 <= i < post.events@.len() implies event_jobs_below(
            #[trigger] post.events@[i],
            post.jobs@.len() as int,
        ) by {
            if i < pre.events@.len() {
                assert(event_jobs_below(pre.events@[i], pre.jobs@.len() as int));
            }
        };
    }

    /// The value units the store accounts for: everything in wallets plus
    /// everything held in job escrows. No operation but account creation
    /// changes this total.
    pub open spec fn total_funds(self) -> int {
        balance_total(self.balances@) + escrow_total(self.jobs@)
    }

    /// Whether some rating record already refers to job `job_id`.
    pub open spec fn has_rating_for(self, job_id: usize) -> bool {
        exists|k: int| 0 <= k < self.ratings@.len() && (#[trigger] self.ratings@[k]).job == job_id
    }

    /// An empty marketplace: no accounts, no records, no events.
    pub fn new() -> (r: Marketplace)
        ensures
            r.wf(),
            r.balances@.len() == 0,
            r.agents@.len() == 0,
            r.jobs@.len() == 0,
            r.ratings@.len() == 0,
            r.events@.len() == 0,
            r.total_funds() == 0,
    {
        Marketplace {
            balances: Vec::new(),
            agents: Vec::new(),
            jobs: Vec::new(),
            ratings: Vec::new(),
            events: Vec::new(),
        }
    }

    /// Opens a wallet with an initial balance and returns its identity.
    /// This models the host funding an account; it is the only way value
    /// enters the store.
    pub fn create_account(&mut self, initial_balance: u64) -> (id: usize)
        requires
            old(self).wf(),
        ensures
            final(self).wf(),
            id == old(self).balances@.len(),
            final(self).balances@ == old(self).balances@.push(initial_balance),
            final(self).agents == old(self).agents,
            final(self).jobs == old(self).jobs,
            final(self).ratings == old(self).ratings,
            final(self).events == old(self).events,
            final(self).total_funds() == old(self).total_funds() + initial_balance,
    {
        let id = self.balances.len();
        self.balances.push(initial_balance);
        proof {
            lemma_balance_total_push(old(self).balances@, initial_balance);
            assert forall|j: usize| j < self.jobs@.len() implies #[trigger] self.job_accounted(
                j,
            ) by {
                assert(old(self).job_accounted(j));
            };
            assert forall|i: int|
                0 <= i < self.events@.len() implies event_jobs_below(
                #[trigger] self.events@[i],
                self.jobs@.len() as int,
            ) by {
                assert(event_jobs_below(old(self).events@[i], old(self).jobs@.len() as int));
            };
        }
        id
    }

    /// Whether a registration request is acceptable: non-empty name of at
    /// most 32 characters, description of at most 128, positive price.
    pub open spec fn register_valid(name: Seq<char>, description: Seq<char>, price_lamports: u64) -> bool {
        &&& 1 <= name.len() <= 32
        &&& description.len() <= 128
        &&& price_lamports >= 1
    }

    /// Registers a new agent profile owned by `owner`, initially active with
    /// zeroed counters, and returns its profile index. Fails with
    /// `ValidationError` exactly when the name is empty or over 32
    /// characters, the description is over 128 characters, or the price is
    /// zero.
    pub fn register_agent(
        &mut self,
        owner: usize,
        name: String,
        description: String,
        capabilities: u16,
        price_lamports: u64,
        now: i64,
    ) -> (r: Result<usize, AgentProtocolError>)
        requires
            old(self).wf(),
            owner < old(self).balances@.len(),
        ensures
            final(self).wf(),
            final(self).total_funds() == old(self).total_funds(),
            match r {
                Ok(id) => {
                    &&& Self::register_valid(name@, description@, price_lamports)
                    &&& id == old(self).agents@.len()
                    &&& final(self).agents@ == old(self).agents@.push(
                        AgentProfile {
                            owner,
                            name,
                            description,
                            capabilities,
                            price_lamports,
                            is_active: true,
                            rating_sum: 0,
                            rating_count: 0,
                            jobs_completed: 0,
                            created_at: now,
                        },
                    )
                    &&& final(self).balances == old(self).balances
                    &&& final(self).jobs == old(self).jobs
                    &&& final(self).ratings == old(self).ratings
                    &&& final(self).events@ == old(self).events@.push(
                        AgentEvent::AgentRegistered(
                            AgentRegistered { agent: id, owner, name, price_lamports },
                        ),
                    )
                },
                Err(e) => {
                    &&& *final(self) == *old(self)
                    &&& e == AgentProtocolError::ValidationError
                    &&& !Self::register_valid(name@, description@, price_lamports)
                },
            },
    {
        let name_len = name.as_str().unicode_len();
        let description_len = description.as_str().unicode_len();
        if name_len == 0 || name_len > 32 || description_len > 128 || price_lamports == 0 {
            return Err(AgentProtocolError::ValidationError);
        }
        let id = self.agents.len();
        let event_name = name.clone();
        self.agents.push(
            AgentProfile {
                owner,
                name,
                description,
                capabilities,
                price_lamports,
                is_active: true,
                rating_sum: 0,
                rating_count: 0,
                jobs_completed: 0,
                created_at: now,
            },
        );
        self.events.push(
            AgentEvent::AgentRegistered(
                AgentRegistered { agent: id, owner, name: event_name, price_lamports },
            ),
        );
        proof {
            Self::lemma_neutral_append(*old(self), *self);
        }
        Ok(id)
    }

    /// What a freshly created job record looks like: funded, `Pending`, no
    /// result yet, no children, no dispute, not yet completed.
    pub open spec fn is_new_job(
        job: Job,
        client: usize,
        agent: usize,
        escrow: u64,
        description: String,
        parent_job: Option<usize>,
        auto_release_at: Option<i64>,
        now: i64,
        timestamp_seed: i64,
    ) -> bool {
        &&& job.client == client
        &&& job.agent == agent
        &&& job.escrow_lamports == escrow
        &&& job.status == JobStatus::Pending
        &&& job.description == description
        &&& job.result_uri@.len() == 0
        &&& job.parent_job == parent_job
        &&& job.active_children == 0
        &&& job.auto_release_at == auto_release_at
        &&& job.disputed_at is None
        &&& job.created_at == now
        &&& job.completed_at is None
        &&& job.timestamp_seed == timestamp_seed
    }

    /// The auto-release deadline a creation request asks for: `now` plus the
    /// requested number of seconds, when one is requested.
    pub open spec fn requested_deadline(auto_release_seconds: Option<i64>, now: i64) -> Option<i64> {
        match auto_release_seconds {
            Option::None => Option::None,
            Option::Some(s) => Option::Some((now + s) as i64),
        }
    }

    /// The failure, if any, of an `invoke_agent` request, checked in order:
    /// the agent must be active (`StateError`), the description non-empty and
    /// at most 256 characters (`ValidationError`), the payment at least the
    /// agent's price, the requested deadline representable, and the client's
    /// wallet able to cover the payment (each `FundsError`).
    pub open spec fn invoke_err(
        self,
        client: usize,
        agent_profile: usize,
        description: Seq<char>,
        payment_lamports: u64,
        auto_release_seconds: Option<i64>,
        now: i64,
    ) -> Option<AgentProtocolError> {
        let profile = self.agents@[agent_profile as int];
        if !profile.is_active {
            Option::Some(AgentProtocolError::StateError)
        } else if description.len() == 0 || description.len() > 256 {
            Option::Some(AgentProtocolError::ValidationError)
        } else if payment_lamports < profile.price_lamports {
            Option::Some(AgentProtocolError::FundsError)
        } else if auto_release_seconds matches Some(s) && !(i64::MIN <= now + s <= i64::MAX) {
            Option::Some(AgentProtocolError::FundsError)
        } else if self.balances@[client as int] < payment_lamports {
            Option::Some(AgentProtocolError::FundsError)
        } else {
            Option::None
        }
    }

    /// Creates and funds a new root job against an active agent: moves
    /// `payment_lamports` from the client's wallet into the new job's escrow,
    /// sets status `Pending`, records the auto-release deadline when one is
    /// requested, and returns the new job's index.
    pub fn invoke_agent(
        &mut self,
        client: usize,
        agent_profile: usize,
        description: String,
        payment_lamports: u64,
        auto_release_seconds: Option<i64>,
        timestamp_seed: i64,
        now: i64,
    ) -> (r: Result<usize, AgentProtocolError>)
        requires
            old(self).wf(),
            client < old(self).balances@.len(),
            agent_profile < old(self).agents@.len(),
        ensures
            final(self).wf(),
            match r {
                Ok(id) => {
                    &&& old(self).invoke_err(
                        client,
                        agent_profile,
                        description@,
                        payment_lamports,
                        auto_release_seconds,
                        now,
                    ) is None
                    &&& id == old(self).jobs@.len()
                    &&& final(self).jobs@.len() == old(self).jobs@.len() + 1
                    &&& forall|i: int|
                        0 <= i < old(self).jobs@.len()
                            ==> final(self).jobs@[i] == old(self).jobs@[i]
                    &&& Self::is_new_job(
                        final(self).jobs@[id as int],
                        client,
                        old(self).agents@[agent_profile as int].owner,
                        payment_lamports,
                        description,
                        Option::None,
                        Self::requested_deadline(auto_release_seconds, now),
                        now,
                        timestamp_seed,
                    )
                    &&& payment_lamports >= old(self).agents@[agent_profile as int].price_lamports
                    &&& payment_lamports >= 1
                    &&& final(self).balances@ == old(self).balances@.update(
                        client as int,
                        (old(self).balances@[client as int] - payment_lamports) as u64,
                    )
                    &&& final(self).agents == old(self).agents
                    &&& final(self).ratings == old(self).ratings
                    &&& final(self).events@ == old(self).events@.push(
                        AgentEvent::JobCreated(
                            JobCreated {
                                job: id,
                                client,
                                agent: old(self).agents@[agent_profile as int].owner,
                                escrow_lamports: payment_lamports,
                                auto_release_at: Self::requested_deadline(
                                    auto_release_seconds,
                                    now,
                                ),
                            },
                        ),
                    )
                    &&& final(self).total_funds() == old(self).total_funds()
                },
                Err(e) => {
                    &&& *final(self) == *old(self)
                    &&& old(self).invoke_err(
                        client,
                        agent_profile,
                        description@,
                        payment_lamports,
                        auto_release_seconds,
                        now,
                    ) == Some(e)
                },
            },
    {
        if !self.agents[agent_profile].is_active {
            return Err(AgentProtocolError::StateError);
        }
        let description_len = description.as_str().unicode_len();
        if description_len == 0 || description_len > 256 {
            return Err(AgentProtocolError::ValidationError);
        }
        if payment_lamports < self.agents[agent_profile].price_lamports {
            return Err(AgentProtocolError::FundsError);
        }
        let auto_release_at: Option<i64> = match auto_release_seconds {
            Option::None => Option::None,
            Option::Some(s) => {
                match now.checked_add(s) {
                    Option::None => {
                        return Err(AgentProtocolError::FundsError);
                    },
                    Option::Some(t) => Option::Some(t),
                }
            },
        };
        let client_balance = self.balances[client];
        let (new_client_balance, escrow) = match transfer_checked(
            client_balance,
            0,
            payment_lamports,
            0,
        ) {
            Ok(p) => p,
            Err(e) => {
                return Err(e);
            },
        };
        let id = self.jobs.len();
        let agent = self.agents[agent_profile].owner;
        self.balances.set(client, new_client_balance);
        self.jobs.push(
            Job {
                client,
                agent,
                escrow_lamports: escrow,
                status: JobStatus::Pending,
                description,
                result_uri: String::new(),
                parent_job: Option::None,
                active_children: 0,
                auto_release_at,
                disputed_at: Option::None,
                created_at: now,
                completed_at: Option::None,
                timestamp_seed,
            },
        );
        self.events.push(
            AgentEvent::JobCreated(
                JobCreated {
                    job: id,
                    client,
                    agent,
                    escrow_lamports: escrow,
                    auto_release_at,
                },
            ),
        );
        proof {
            lemma_balance_total_update(
                old(self).balances@,
                client as int,
                (old(self).balances@[client as int] - payment_lamports) as u64,
            );
            lemma_escrow_total_push(old(self).jobs@, self.jobs@.last());
            Self::lemma_creation_append(*old(self), *self, id, payment_lamports);
        }
        Ok(id)
    }

    /// The failure, if any, of an `update_job` request, checked in order: the
    /// caller must be the job's agent (`AuthorizationError`), the result URI
    /// non-empty and at most 128 characters (`ValidationError`), the status
    /// `Pending` or `InProgress` (`StateError`), and every delegated child
    /// resolved (`ReconciliationError`).
    pub open spec fn update_err(
        self,
        agent_signer: usize,
        job_id: usize,
        result_uri: Seq<char>,
    ) -> Option<AgentProtocolError> {
        let job = self.jobs@[job_id as int];
        if job.agent != agent_signer {
            Option::Some(AgentProtocolError::AuthorizationError)
        } else if result_uri.len() == 0 || result_uri.len() > 128 {
            Option::Some(AgentProtocolError::ValidationError)
        } else if job.status != JobStatus::Pending && job.status != JobStatus::InProgress {
            Option::Some(AgentProtocolError::StateError)
        } else if job.active_children != 0 {
            Option::Some(AgentProtocolError::ReconciliationError)
        } else {
            Option::None
        }
    }

    /// Marks a job complete: the job's agent records the result location,
    /// and the job moves (promoting `Pending` through `InProgress` first)
    /// to `Completed` with `completed_at = now`. A job still carrying
    /// unresolved child delegations cannot complete.
    pub fn update_job(
        &mut self,
        agent_signer: usize,
        job_id: usize,
        result_uri: String,
        now: i64,
    ) -> (r: Result<(), AgentProtocolError>)
        requires
            old(self).wf(),
            job_id < old(self).jobs@.len(),
        ensures
            final(self).wf(),
            final(self).total_funds() == old(self).total_funds(),
            match r {
                Ok(()) => {
                    &&& old(self).update_err(agent_signer, job_id, result_uri@) is None
                    &&& old(self).jobs@[job_id as int].active_children == 0
                    &&& final(self).jobs@ == old(self).jobs@.update(
                        job_id as int,
                        Job {
                            status: JobStatus::Completed,
                            result_uri,
                            completed_at: Option::Some(now),
                            ..old(self).jobs@[job_id as int]
                        },
                    )
                    &&& final(self).balances == old(self).balances
                    &&& final(self).agents == old(self).agents
                    &&& final(self).ratings == old(self).ratings
                    &&& final(self).events@ == old(self).events@.push(
                        AgentEvent::JobCompleted(
                            JobCompleted { job: job_id, agent: agent_signer, result_uri },
                        ),
                    )
                },
                Err(e) => {
                    &&& *final(self) == *old(self)
                    &&& old(self).update_err(agent_signer, job_id, result_uri@) == Some(e)
                },
            },
    {
        if self.jobs[job_id].agent != agent_signer {
            return Err(AgentProtocolError::AuthorizationError);
        }
        let uri_len = result_uri.as_str().unicode_len();
        if uri_len == 0 || uri_len > 128 {
            return Err(AgentProtocolError::ValidationError);
        }
        let status = self.jobs[job_id].status;
        if status != JobStatus::Pending && status != JobStatus::InProgress {
            return Err(AgentProtocolError::StateError);
        }
        if self.jobs[job_id].active_children != 0 {
            return Err(AgentProtocolError::ReconciliationError);
        }
        let mut job = self.jobs[job_id].duplicate();
        // A pending job passes through InProgress on its way to Completed;
        // the net effect of the transition is the completed record.
        if job.status == JobStatus::Pending {
            job.status = JobStatus::InProgress;
        }
        job.status = JobStatus::Completed;
        job.result_uri = result_uri.clone();
        job.completed_at = Option::Some(now);
        let ghost old_jobs = self.jobs@;
        self.jobs.set(job_id, job);
        self.events.push(
            AgentEvent::JobCompleted(
                JobCompleted { job: job_id, agent: agent_signer, result_uri },
            ),
        );
        proof {
            lemma_escrow_total_update(old_jobs, job_id as int, self.jobs@[job_id as int]);
            Self::lemma_neutral_append(*old(self), *self);
        }
        Ok(())
    }

    /// The failure, if any, of the payout step shared by `release_payment`
    /// and `auto_release`, checked in order: crediting the agent's wallet
    /// must not overflow, the profile's completed-jobs counter must not
    /// overflow (each `FundsError`), and a delegated job's parent must still
    /// carry a nonzero outstanding-children counter (`ReconciliationError`).
    pub open spec fn payout_err(self, job_id: usize, agent_profile: usize) -> Option<
        AgentProtocolError,
    > {
        let job = self.jobs@[job_id as int];
        let profile = self.agents@[agent_profile as int];
        if self.balances@[job.agent as int] + job.escrow_lamports > u64::MAX {
            Option::Some(AgentProtocolError::FundsError)
        } else if profile.jobs_completed == u32::MAX {
            Option::Some(AgentProtocolError::FundsError)
        } else if job.parent_job matches Some(p) && self.jobs@[p as int].active_children == 0 {
            Option::Some(AgentProtocolError::ReconciliationError)
        } else {
            Option::None
        }
    }

    /// The effects of a successful payout of `job_id`'s escrow: the job is
    /// finalized with zero escrow, its agent's wallet gains exactly the
    /// escrow, the profile's completed-jobs counter steps by one, a parent's
    /// outstanding-children counter steps down by one, and one
    /// `PaymentReleased` event is appended. All value stays inside the store.
    pub open spec fn payout_effects(
        self,
        post: Marketplace,
        job_id: usize,
        agent_profile: usize,
        auto_released: bool,
    ) -> bool {
        let job = self.jobs@[job_id as int];
        let profile = self.agents@[agent_profile as int];
        let escrow = job.escrow_lamports;
        let finalized = Job { status: JobStatus::Finalized, escrow_lamports: 0, ..job };
        &&& post.balances@ == self.balances@.update(
            job.agent as int,
            (self.balances@[job.agent as int] + escrow) as u64,
        )
        &&& post.agents@ == self.agents@.update(
            agent_profile as int,
            AgentProfile { jobs_completed: (profile.jobs_completed + 1) as u32, ..profile },
        )
        &&& (match job.parent_job {
            Option::None => post.jobs@ == self.jobs@.update(job_id as int, finalized),
            Option::Some(p) => post.jobs@ == self.jobs@.update(job_id as int, finalized).update(
                p as int,
                Job {
                    active_children: (self.jobs@[p as int].active_children - 1) as u8,
                    ..self.jobs@[p as int]
                },
            ),
        })
        &&& post.ratings == self.ratings
        &&& post.events@ == self.events@.push(
            AgentEvent::PaymentReleased(
                PaymentReleased { job: job_id, agent: job.agent, amount: escrow, auto_released },
            ),
        )
        &&& post.total_funds() == self.total_funds()
    }

    /// The payout step shared by `release_payment` and `auto_release`:
    /// moves the completed job's full escrow to its agent's wallet,
    /// finalizes the job, credits the agent's statistics, and reconciles the
    /// parent's outstanding-children counter when the job was delegated.
    fn do_payout(&mut self, job_id: usize, agent_profile: usize, auto_released: bool) -> (r:
        Result<(), AgentProtocolError>)
        requires
            old(self).wf(),
            job_id < old(self).jobs@.len(),
            agent_profile < old(self).agents@.len(),
            old(self).jobs@[job_id as int].status == JobStatus::Completed,
        ensures
            final(self).wf(),
            final(self).total_funds() == old(self).total_funds(),
            match r {
                Ok(()) => {
                    &&& old(self).payout_err(job_id, agent_profile) is None
                    &&& old(self).payout_effects(*final(self), job_id, agent_profile, auto_released)
                },
                Err(e) => {
                    &&& *final(self) == *old(self)
                    &&& old(self).payout_err(job_id, agent_profile) == Some(e)
                },
            },
    {
        let agent = self.jobs[job_id].agent;
        let escrow = self.jobs[job_id].escrow_lamports;
        assert(agent < self.balances@.len());
        let agent_balance = self.balances[agent];
        let (_drained, new_agent_balance) = match transfer_checked(escrow, agent_balance, escrow, 0) {
            Ok(p) => p,
            Err(e) => {
                assert(agent_balance + escrow > u64::MAX);
                return Err(e);
            },
        };
        let jobs_completed = self.agents[agent_profile].jobs_completed;
        if jobs_completed == u32::MAX {
            return Err(AgentProtocolError::FundsError);
        }
        let parent_opt = self.jobs[job_id].parent_job;
        match parent_opt {
            Option::Some(p) => {
                assert(p < job_id);
                if self.jobs[p].active_children == 0 {
                    return Err(AgentProtocolError::ReconciliationError);
                }
            },
            Option::None => {},
        }
        let ghost pre = *self;
        let mut job = self.jobs[job_id].duplicate();
        job.status = JobStatus::Finalized;
        job.escrow_lamports = 0;
        self.jobs.set(job_id, job);
        self.balances.set(agent, new_agent_balance);
        let mut profile = self.agents[agent_profile].duplicate();
        profile.jobs_completed = jobs_completed + 1;
        self.agents.set(agent_profile, profile);
        match parent_opt {
            Option::Some(p) => {
                let mut parent = self.jobs[p].duplicate();
                parent.active_children = parent.active_children - 1;
                self.jobs.set(p, parent);
            },
            Option::None => {},
        }
        self.events.push(
            AgentEvent::PaymentReleased(
                PaymentReleased { job: job_id, agent, amount: escrow, auto_released },
            ),
        );
        proof {
            lemma_balance_total_update(
                pre.balances@,
                agent as int,
                (pre.balances@[agent as int] + escrow) as u64,
            );
            let finalized = Job {
                status: JobStatus::Finalized,
                escrow_lamports: 0,
                ..pre.jobs@[job_id as int]
            };
            lemma_escrow_total_update(pre.jobs@, job_id as int, finalized);
            match pre.jobs@[job_id as int].parent_job {
                Option::Some(p) => {
                    let mid = pre.jobs@.update(job_id as int, finalized);
                    lemma_escrow_total_update(
                        mid,
                        p as int,
                        Job {
                            active_children: (pre.jobs@[p as int].active_children - 1) as u8,
                            ..pre.jobs@[p as int]
                        },
                    );
                },
                Option::None => {},
            }
            Self::lemma_outflow_append(pre, *self, job_id);
        }
        Ok(())
    }

    /// The failure, if any, of a `release_payment` request, checked in
    /// order: the caller must be the job's client, the given profile must
    /// belong to the job's agent (each `AuthorizationError`), the job must
    /// be `Completed` (`StateError`), and the payout step must go through.
    pub open spec fn release_err(
        self,
        client_signer: usize,
        job_id: usize,
        agent_profile: usize,
    ) -> Option<AgentProtocolError> {
        let job = self.jobs@[job_id as int];
        if job.client != client_signer {
            Option::Some(AgentProtocolError::AuthorizationError)
        } else if self.agents@[agent_profile as int].owner != job.agent {
            Option::Some(AgentProtocolError::AuthorizationError)
        } else if job.status != JobStatus::Completed {
            Option::Some(AgentProtocolError::StateError)
        } else {
            self.payout_err(job_id, agent_profile)
        }
    }

    /// Releases a completed job's full escrow to its agent on the client's
    /// authority: the job is finalized with zero escrow, the agent's wallet
    /// gains exactly the escrow, the agent's completed-jobs counter steps by
    /// one, and a delegated job's completion is reconciled into its parent's
    /// outstanding-children counter.
    pub fn release_payment(
        &mut self,
        client_signer: usize,
        job_id: usize,
        agent_profile: usize,
    ) -> (r: Result<(), AgentProtocolError>)
        requires
            old(self).wf(),
            job_id < old(self).jobs@.len(),
            agent_profile < old(self).agents@.len(),
        ensures
            final(self).wf(),
            final(self).total_funds() == old(self).total_funds(),
            match r {
                Ok(()) => {
                    &&& old(self).release_err(client_signer, job_id, agent_profile) is None
                    &&& old(self).payout_effects(*final(self), job_id, agent_profile, false)
                },
                Err(e) => {
                    &&& *final(self) == *old(self)
                    &&& old(self).release_err(client_signer, job_id, agent_profile) == Some(e)
                },
            },
    {
        if self.jobs[job_id].client != client_signer {
            return Err(AgentProtocolError::AuthorizationError);
        }
        if self.agents[agent_profile].owner != self.jobs[job_id].agent {
            return Err(AgentProtocolError::AuthorizationError);
        }
        if self.jobs[job_id].status != JobStatus::Completed {
            return Err(AgentProtocolError::StateError);
        }
        self.do_payout(job_id, agent_profile, false)
    }

    /// The failure, if any, of an `auto_release` request, checked in order:
    /// the given profile must belong to the job's agent
    /// (`AuthorizationError`), the job must be `Completed` and must have an
    /// auto-release deadline configured (each `StateError`), the deadline
    /// must have passed (`TimingError`), and the payout step must go
    /// through.
    pub open spec fn auto_release_err(self, job_id: usize, agent_profile: usize, now: i64) -> Option<
        AgentProtocolError,
    > {
        let job = self.jobs@[job_id as int];
        if self.agents@[agent_profile as int].owner != job.agent {
            Option::Some(AgentProtocolError::AuthorizationError)
        } else if job.status != JobStatus::Completed {
            Option::Some(AgentProtocolError::StateError)
        } else if job.auto_release_at is None {
            Option::Some(AgentProtocolError::StateError)
        } else if job.auto_release_at matches Some(t) && now < t {
            Option::Some(AgentProtocolError::TimingError)
        } else {
            self.payout_err(job_id, agent_profile)
        }
    }

    /// Releases a completed job's escrow without the client's authority once
    /// the pre-agreed auto-release deadline has passed. Callable by anyone;
    /// the fund movement and bookkeeping match `release_payment` exactly.
    pub fn auto_release(&mut self, job_id: usize, agent_profile: usize, now: i64) -> (r: Result<
        (),
        AgentProtocolError,
    >)
        requires
            old(self).wf(),
            job_id < old(self).jobs@.len(),
            agent_profile < old(self).agents@.len(),
        ensures
            final(self).wf(),
            final(self).total_funds() == old(self).total_funds(),
            match r {
                Ok(()) => {
                    &&& old(self).auto_release_err(job_id, agent_profile, now) is None
                    &&& old(self).payout_effects(*final(self), job_id, agent_profile, true)
                },
                Err(e) => {
                    &&& *final(self) == *old(self)
                    &&& old(self).auto_release_err(job_id, agent_profile, now) == Some(e)
                },
            },
    {
        if self.agents[agent_profile].owner != self.jobs[job_id].agent {
            return Err(AgentProtocolError::AuthorizationError);
        }
        if self.jobs[job_id].status != JobStatus::Completed {
            return Err(AgentProtocolError::StateError);
        }
        match self.jobs[job_id].auto_release_at {
            Option::None => Err(AgentProtocolError::StateError),
            Option::Some(t) => {
                if now < t {
                    return Err(AgentProtocolError::TimingError);
                }
                self.do_payout(job_id, agent_profile, true)
            },
        }
    }

    /// The failure, if any, of a `cancel_job` request, checked in order: the
    /// caller must be the job's client (`AuthorizationError`), the job must
    /// still be `Pending` (`StateError`), and the refund credit must not
    /// overflow the client's wallet (`FundsError`).
    pub open spec fn cancel_err(self, client_signer: usize, job_id: usize) -> Option<
        AgentProtocolError,
    > {
        let job = self.jobs@[job_id as int];
        if job.client != client_signer {
            Option::Some(AgentProtocolError::AuthorizationError)
        } else if job.status != JobStatus::Pending {
            Option::Some(AgentProtocolError::StateError)
        } else if self.balances@[job.client as int] + job.escrow_lamports > u64::MAX {
            Option::Some(AgentProtocolError::FundsError)
        } else {
            Option::None
        }
    }

    /// Cancels a still-pending job on the client's authority: the full
    /// escrow returns to the client's wallet and the job record is retired
    /// as `Cancelled` with zero escrow.
    pub fn cancel_job(&mut self, client_signer: usize, job_id: usize) -> (r: Result<
        (),
        AgentProtocolError,
    >)
        requires
            old(self).wf(),
            job_id < old(self).jobs@.len(),
        ensures
            final(self).wf(),
            final(self).total_funds() == old(self).total_funds(),
            match r {
                Ok(()) => ({
                    let job = old(self).jobs@[job_id as int];
                    &&& old(self).cancel_err(client_signer, job_id) is None
                    &&& final(self).jobs@ == old(self).jobs@.update(
                        job_id as int,
                        Job { status: JobStatus::Cancelled, escrow_lamports: 0, ..job },
                    )
                    &&& final(self).balances@ == old(self).balances@.update(
                        job.client as int,
                        (old(self).balances@[job.client as int] + job.escrow_lamports) as u64,
                    )
                    &&& final(self).agents == old(self).agents
                    &&& final(self).ratings == old(self).ratings
                    &&& final(self).events@ == old(self).events@.push(
                        AgentEvent::JobCancelled(
                            JobCancelled {
                                job: job_id,
                                client: job.client,
                                refund_lamports: job.escrow_lamports,
                            },
                        ),
                    )
                }),
                Err(e) => {
                    &&& *final(self) == *old(self)
                    &&& old(self).cancel_err(client_signer, job_id) == Some(e)
                },
            },
    {
        if self.jobs[job_id].client != client_signer {
            return Err(AgentProtocolError::AuthorizationError);
        }
        if self.jobs[job_id].status != JobStatus::Pending {
            return Err(AgentProtocolError::StateError);
        }
        let client = self.jobs[job_id].client;
        let escrow = self.jobs[job_id].escrow_lamports;
        assert(client < self.balances@.len());
        let (_drained, new_client_balance) = match transfer_checked(
            escrow,
            self.balances[client],
            escrow,
            0,
        ) {
            Ok(p) => p,
            Err(e) => {
                return Err(e);
            },
        };
        let ghost pre = *self;
        let mut job = self.jobs[job_id].duplicate();
        job.status = JobStatus::Cancelled;
        job.escrow_lamports = 0;
        self.jobs.set(job_id, job);
        self.balances.set(client, new_client_balance);
        self.events.push(
            AgentEvent::JobCancelled(
                JobCancelled { job: job_id, client, refund_lamports: escrow },
            ),
        );
        proof {
            lemma_balance_total_update(
                pre.balances@,
                client as int,
                (pre.balances@[client as int] + escrow) as u64,
            );
            lemma_escrow_total_update(pre.jobs@, job_id as int, self.jobs@[job_id as int]);
            Self::lemma_outflow_append(pre, *self, job_id);
        }
        Ok(())
    }

    /// The failure, if any, of a `resolve_dispute_by_timeout` request,
    /// checked in order: the job must be `Disputed` with a recorded dispute
    /// timestamp (each `StateError`), strictly more than `DISPUTE_TIMEOUT`
    /// seconds must have elapsed since the dispute was raised
    /// (`TimingError`), and the refund credit must not overflow the client's
    /// wallet (`FundsError`).
    pub open spec fn resolve_err(self, job_id: usize, now: i64) -> Option<AgentProtocolError> {
        let job = self.jobs@[job_id as int];
        if job.status != JobStatus::Disputed {
            Option::Some(AgentProtocolError::StateError)
        } else if job.disputed_at is None {
            Option::Some(AgentProtocolError::StateError)
        } else if now - job.disputed_at->0 <= DISPUTE_TIMEOUT {
            Option::Some(AgentProtocolError::TimingError)
        } else if self.balances@[job.client as int] + job.escrow_lamports > u64::MAX {
            Option::Some(AgentProtocolError::FundsError)
        } else {
            Option::None
        }
    }

    /// Resolves an expired dispute in the client's favour: once strictly
    /// more than `DISPUTE_TIMEOUT` seconds have passed since the dispute was
    /// raised, anyone may return the full escrow to the client's wallet and
    /// retire the job as `Cancelled`.
    pub fn resolve_dispute_by_timeout(&mut self, job_id: usize, now: i64) -> (r: Result<
        (),
        AgentProtocolError,
    >)
        requires
            old(self).wf(),
            job_id < old(self).jobs@.len(),
        ensures
            final(self).wf(),
            final(self).total_funds() == old(self).total_funds(),
            match r {
                Ok(()) => ({
                    let job = old(self).jobs@[job_id as int];
                    &&& old(self).resolve_err(job_id, now) is None
                    &&& final(self).jobs@ == old(self).jobs@.update(
                        job_id as int,
                        Job { status: JobStatus::Cancelled, escrow_lamports: 0, ..job },
                    )
                    &&& final(self).balances@ == old(self).balances@.update(
                        job.client as int,
                        (old(self).balances@[job.client as int] + job.escrow_lamports) as u64,
                    )
                    &&& final(self).agents == old(self).agents
                    &&& final(self).ratings == old(self).ratings
                    &&& final(self).events@ == old(self).events@.push(
                        AgentEvent::DisputeResolved(
                            DisputeResolved { job: job_id, refund_lamports: job.escrow_lamports },
                        ),
                    )
                }),
                Err(e) => {
                    &&& *final(self) == *old(self)
                    &&& old(self).resolve_err(job_id, now) == Some(e)
                },
            },
    {
        if self.jobs[job_id].status != JobStatus::Disputed {
            return Err(AgentProtocolError::StateError);
        }
        match self.jobs[job_id].disputed_at {
            Option::None => Err(AgentProtocolError::StateError),
            Option::Some(disputed_at) => {
                assert(disputed_at >= 0);
                // `now - disputed_at > DISPUTE_TIMEOUT`, phrased to avoid
                // i64 overflow: with a nonnegative dispute timestamp the
                // elapsed time can only exceed the timeout when `now` does.
                if now <= DISPUTE_TIMEOUT {
                    return Err(AgentProtocolError::TimingError);
                }
                if now - DISPUTE_TIMEOUT <= disputed_at {
                    return Err(AgentProtocolError::TimingError);
                }
                let client = self.jobs[job_id].client;
                let escrow = self.jobs[job_id].escrow_lamports;
                assert(client < self.balances@.len());
                let (_drained, new_client_balance) = match transfer_checked(
                    escrow,
                    self.balances[client],
                    escrow,
                    0,
                ) {
                    Ok(p) => p,
                    Err(e) => {
                        return Err(e);
                    },
                };
                let ghost pre = *self;
                let mut job = self.jobs[job_id].duplicate();
                job.status = JobStatus::Cancelled;
                job.escrow_lamports = 0;
                self.jobs.set(job_id, job);
                self.balances.set(client, new_client_balance);
                self.events.push(
                    AgentEvent::DisputeResolved(
                        DisputeResolved { job: job_id, refund_lamports: escrow },
                    ),
                );
                proof {
                    lemma_balance_total_update(
                        pre.balances@,
                        client as int,
                        (pre.balances@[client as int] + escrow) as u64,
                    );
                    lemma_escrow_total_update(pre.jobs@, job_id as int, self.jobs@[job_id as int]);
                    Self::lemma_outflow_append(pre, *self, job_id);
                }
                Ok(())
            },
        }
    }

    /// The failure, if any, of a `delegate_task` request, checked in order:
    /// the caller must be the parent job's agent (`AuthorizationError`), the
    /// parent must be `Pending` or `InProgress`, the sub-agent active (each
    /// `StateError`), the description non-empty and at most 256 characters
    /// and the carve-out nonzero — a child job must start with positive
    /// escrow (each `ValidationError`), the parent's fan-out below the cap
    /// (`ReconciliationError`), and the parent's escrow able to cover the
    /// carve-out (`FundsError`).
    pub open spec fn delegate_err(
        self,
        delegating_agent: usize,
        parent_job: usize,
        sub_agent_profile: usize,
        description: Seq<char>,
        delegation_amount: u64,
    ) -> Option<AgentProtocolError> {
        let parent = self.jobs@[parent_job as int];
        if parent.agent != delegating_agent {
            Option::Some(AgentProtocolError::AuthorizationError)
        } else if parent.status != JobStatus::Pending && parent.status != JobStatus::InProgress {
            Option::Some(AgentProtocolError::StateError)
        } else if !self.agents@[sub_agent_profile as int].is_active {
            Option::Some(AgentProtocolError::StateError)
        } else if description.len() == 0 || description.len() > 256 {
            Option::Some(AgentProtocolError::ValidationError)
        } else if delegation_amount == 0 {
            Option::Some(AgentProtocolError::ValidationError)
        } else if parent.active_children >= MAX_ACTIVE_CHILDREN {
            Option::Some(AgentProtocolError::ReconciliationError)
        } else if delegation_amount > parent.escrow_lamports {
            Option::Some(AgentProtocolError::FundsError)
        } else {
            Option::None
        }
    }

    /// Carves `delegation_amount` out of a job's escrow into a new child job
    /// assigned to the sub-agent: the parent loses exactly the amount, gains
    /// one outstanding child and moves to `InProgress`; the child starts
    /// `Pending`, funded with the amount, with the delegating agent as its
    /// client and a reconciliation link back to the parent. Returns the
    /// child's index.
    pub fn delegate_task(
        &mut self,
        delegating_agent: usize,
        parent_job: usize,
        sub_agent_profile: usize,
        description: String,
        delegation_amount: u64,
        timestamp_seed: i64,
        now: i64,
    ) -> (r: Result<usize, AgentProtocolError>)
        requires
            old(self).wf(),
            delegating_agent < old(self).balances@.len(),
            parent_job < old(self).jobs@.len(),
            sub_agent_profile < old(self).agents@.len(),
        ensures
            final(self).wf(),
            final(self).total_funds() == old(self).total_funds(),
            match r {
                Ok(id) => ({
                    let parent = old(self).jobs@[parent_job as int];
                    &&& old(self).delegate_err(
                        delegating_agent,
                        parent_job,
                        sub_agent_profile,
                        description@,
                        delegation_amount,
                    ) is None
                    &&& id == old(self).jobs@.len()
                    &&& final(self).jobs@.len() == old(self).jobs@.len() + 1
                    &&& forall|i: int|
                        0 <= i < old(self).jobs@.len() && i != parent_job
                            ==> final(self).jobs@[i] == old(self).jobs@[i]
                    &&& final(self).jobs@[parent_job as int] == Job {
                        escrow_lamports: (parent.escrow_lamports - delegation_amount) as u64,
                        active_children: (parent.active_children + 1) as u8,
                        status: JobStatus::InProgress,
                        ..parent
                    }
                    &&& Self::is_new_job(
                        final(self).jobs@[id as int],
                        delegating_agent,
                        old(self).agents@[sub_agent_profile as int].owner,
                        delegation_amount,
                        description,
                        Option::Some(parent_job),
                        Option::None,
                        now,
                        timestamp_seed,
                    )
                    &&& delegation_amount >= 1
                    &&& final(self).balances == old(self).balances
                    &&& final(self).agents == old(self).agents
                    &&& final(self).ratings == old(self).ratings
                    &&& final(self).events@ == old(self).events@.push(
                        AgentEvent::JobDelegated(
                            JobDelegated {
                                parent_job,
                                child_job: id,
                                delegating_agent,
                                sub_agent: old(self).agents@[sub_agent_profile as int].owner,
                                amount: delegation_amount,
                            },
                        ),
                    )
                    &&& final(self).total_funds() == old(self).total_funds()
                }),
                Err(e) => {
                    &&& *final(self) == *old(self)
                    &&& old(self).delegate_err(
                        delegating_agent,
                        parent_job,
                        sub_agent_profile,
                        description@,
                        delegation_amount,
                    ) == Some(e)
                },
            },
    {
        if self.jobs[parent_job].agent != delegating_agent {
            return Err(AgentProtocolError::AuthorizationError);
        }
        let parent_status = self.jobs[parent_job].status;
        if parent_status != JobStatus::Pending && parent_status != JobStatus::InProgress {
            return Err(AgentProtocolError::StateError);
        }
        if !self.agents[sub_agent_profile].is_active {
            return Err(AgentProtocolError::StateError);
        }
        let description_len = description.as_str().unicode_len();
        if description_len == 0 || description_len > 256 {
            return Err(AgentProtocolError::ValidationError);
        }
        if delegation_amount == 0 {
            return Err(AgentProtocolError::ValidationError);
        }
        if self.jobs[parent_job].active_children >= MAX_ACTIVE_CHILDREN {
            return Err(AgentProtocolError::ReconciliationError);
        }
        let (parent_escrow_left, child_escrow) = match transfer_checked(
            self.jobs[parent_job].escrow_lamports,
            0,
            delegation_amount,
            0,
        ) {
            Ok(p) => p,
            Err(e) => {
                return Err(e);
            },
        };
        let ghost pre = *self;
        let sub_agent = self.agents[sub_agent_profile].owner;
        let id = self.jobs.len();
        let mut parent = self.jobs[parent_job].duplicate();
        parent.escrow_lamports = parent_escrow_left;
        parent.active_children = parent.active_children + 1;
        parent.status = JobStatus::InProgress;
        self.jobs.set(parent_job, parent);
        self.jobs.push(
            Job {
                client: delegating_agent,
                agent: sub_agent,
                escrow_lamports: child_escrow,
                status: JobStatus::Pending,
                description,
                result_uri: String::new(),
                parent_job: Option::Some(parent_job),
                active_children: 0,
                auto_release_at: Option::None,
                disputed_at: Option::None,
                created_at: now,
                completed_at: Option::None,
                timestamp_seed,
            },
        );
        self.events.push(
            AgentEvent::JobDelegated(
                JobDelegated {
                    parent_job,
                    child_job: id,
                    delegating_agent,
                    sub_agent,
                    amount: delegation_amount,
                },
            ),
        );
        proof {
            let updated = pre.jobs@.update(parent_job as int, self.jobs@[parent_job as int]);
            lemma_escrow_total_update(pre.jobs@, parent_job as int, self.jobs@[parent_job as int]);
            lemma_escrow_total_push(updated, self.jobs@.last());
            assert(self.jobs@ =~= updated.push(self.jobs@.last()));
            Self::lemma_delegation_append(pre, *self, parent_job, id, delegation_amount);
        }
        Ok(id)
    }

    /// The failure, if any, of a `raise_dispute` request, checked in order:
    /// the caller must be the job's client or agent (`AuthorizationError`),
    /// and the job must not be terminal or already disputed (`StateError`).
    pub open spec fn dispute_err(self, signer: usize, job_id: usize) -> Option<
        AgentProtocolError,
    > {
        let job = self.jobs@[job_id as int];
        if signer != job.client && signer != job.agent {
            Option::Some(AgentProtocolError::AuthorizationError)
        } else if job.status != JobStatus::Pending && job.status != JobStatus::InProgress
            && job.status != JobStatus::Completed {
            Option::Some(AgentProtocolError::StateError)
        } else {
            Option::None
        }
    }

    /// Opens a dispute on a non-terminal job: either party may freeze the
    /// lifecycle into `Disputed`, recording `disputed_at = now` for the
    /// timeout-based resolution path.
    pub fn raise_dispute(&mut self, signer: usize, job_id: usize, now: i64) -> (r: Result<
        (),
        AgentProtocolError,
    >)
        requires
            old(self).wf(),
            job_id < old(self).jobs@.len(),
            now >= 0,
        ensures
            final(self).wf(),
            final(self).total_funds() == old(self).total_funds(),
            match r {
                Ok(()) => {
                    &&& old(self).dispute_err(signer, job_id) is None
                    &&& final(self).jobs@ == old(self).jobs@.update(
                        job_id as int,
                        Job {
                            status: JobStatus::Disputed,
                            disputed_at: Option::Some(now),
                            ..old(self).jobs@[job_id as int]
                        },
                    )
                    &&& final(self).balances == old(self).balances
                    &&& final(self).agents == old(self).agents
                    &&& final(self).ratings == old(self).ratings
                    &&& final(self).events@ == old(self).events@.push(
                        AgentEvent::DisputeRaised(DisputeRaised { job: job_id, raised_by: signer }),
                    )
                },
                Err(e) => {
                    &&& *final(self) == *old(self)
                    &&& old(self).dispute_err(signer, job_id) == Some(e)
                },
            },
    {
        if signer != self.jobs[job_id].client && signer != self.jobs[job_id].agent {
            return Err(AgentProtocolError::AuthorizationError);
        }
        let status = self.jobs[job_id].status;
        if status != JobStatus::Pending && status != JobStatus::InProgress
            && status != JobStatus::Completed {
            return Err(AgentProtocolError::StateError);
        }
        let ghost pre = *self;
        let mut job = self.jobs[job_id].duplicate();
        job.status = JobStatus::Disputed;
        job.disputed_at = Option::Some(now);
        self.jobs.set(job_id, job);
        self.events.push(
            AgentEvent::DisputeRaised(DisputeRaised { job: job_id, raised_by: signer }),
        );
        proof {
            lemma_escrow_total_update(pre.jobs@, job_id as int, self.jobs@[job_id as int]);
            Self::lemma_neutral_append(pre, *self);
        }
        Ok(())
    }

    /// Finds the rating record for a job, if one exists.
    pub fn find_rating(&self, job_id: usize) -> (r: Option<usize>)
        ensures
            match r {
                Some(k) => k < self.ratings@.len() && self.ratings@[k as int].job == job_id,
                None => !self.has_rating_for(job_id),
            },
    {
        let mut k: usize = 0;
        while k < self.ratings.len()
            invariant
                k <= self.ratings@.len(),
                forall|i: int| 0 <= i < k ==> (#[trigger] self.ratings@[i]).job != job_id,
            decreases self.ratings@.len() - k,
        {
            if self.ratings[k].job == job_id {
                return Option::Some(k);
            }
            k = k + 1;
        }
        Option::None
    }

    /// The published average: the accumulated rating points scaled by 100
    /// and divided (integer division) by the number of ratings.
    pub open spec fn average_x100(rating_sum: u64, rating_count: u32) -> int {
        if rating_count == 0 {
            0
        } else {
            (rating_sum * 100) / (rating_count as int)
        }
    }

    /// The failure, if any, of a `rate_agent` request, checked in order: the
    /// job must be `Finalized` (`StateError`), the caller must be its
    /// client, the given profile must belong to the job's agent — a rating
    /// accrues to the rated job's agent and nobody else (each
    /// `AuthorizationError`), no rating may exist for the job yet
    /// (`DuplicateRecordError`), the score must lie in 1..=5
    /// (`ValidationError`), and the accumulator updates and the scaled
    /// average must not overflow (each `FundsError`).
    pub open spec fn rate_err(
        self,
        client_signer: usize,
        job_id: usize,
        agent_profile: usize,
        score: u8,
    ) -> Option<AgentProtocolError> {
        let job = self.jobs@[job_id as int];
        let profile = self.agents@[agent_profile as int];
        if job.status != JobStatus::Finalized {
            Option::Some(AgentProtocolError::StateError)
        } else if job.client != client_signer {
            Option::Some(AgentProtocolError::AuthorizationError)
        } else if profile.owner != job.agent {
            Option::Some(AgentProtocolError::AuthorizationError)
        } else if self.has_rating_for(job_id) {
            Option::Some(AgentProtocolError::DuplicateRecordError)
        } else if score < 1 || score > 5 {
            Option::Some(AgentProtocolError::ValidationError)
        } else if profile.rating_sum + score > u64::MAX {
            Option::Some(AgentProtocolError::FundsError)
        } else if profile.rating_count == u32::MAX {
            Option::Some(AgentProtocolError::FundsError)
        } else if (profile.rating_sum + score) * 100 > u64::MAX {
            Option::Some(AgentProtocolError::FundsError)
        } else {
            Option::None
        }
    }

    /// Rates the agent of a finalized job on the client's authority: creates
    /// the job's one immutable rating record, accumulates the score into the
    /// profile's rating sum and count, and publishes the new scaled average
    /// in the `AgentRated` event.
    pub fn rate_agent(
        &mut self,
        client_signer: usize,
        job_id: usize,
        agent_profile: usize,
        score: u8,
        now: i64,
    ) -> (r: Result<(), AgentProtocolError>)
        requires
            old(self).wf(),
            job_id < old(self).jobs@.len(),
            agent_profile < old(self).agents@.len(),
        ensures
            final(self).wf(),
            final(self).total_funds() == old(self).total_funds(),
            match r {
                Ok(()) => ({
                    let profile = old(self).agents@[agent_profile as int];
                    let new_sum = (profile.rating_sum + score) as u64;
                    let new_count = (profile.rating_count + 1) as u32;
                    &&& old(self).rate_err(client_signer, job_id, agent_profile, score) is None
                    &&& final(self).ratings@ == old(self).ratings@.push(
                        Rating {
                            agent: agent_profile,
                            rater: client_signer,
                            job: job_id,
                            score,
                            created_at: now,
                        },
                    )
                    &&& final(self).agents@ == old(self).agents@.update(
                        agent_profile as int,
                        AgentProfile { rating_sum: new_sum, rating_count: new_count, ..profile },
                    )
                    &&& final(self).balances == old(self).balances
                    &&& final(self).jobs == old(self).jobs
                    &&& final(self).events@ == old(self).events@.push(
                        AgentEvent::AgentRated(
                            AgentRated {
                                agent: agent_profile,
                                rater: client_signer,
                                score,
                                new_avg_x100: Self::average_x100(new_sum, new_count) as u64,
                            },
                        ),
                    )
                }),
                Err(e) => {
                    &&& *final(self) == *old(self)
                    &&& old(self).rate_err(client_signer, job_id, agent_profile, score) == Some(e)
                },
            },
    {
        if self.jobs[job_id].status != JobStatus::Finalized {
            return Err(AgentProtocolError::StateError);
        }
        if self.jobs[job_id].client != client_signer {
            return Err(AgentProtocolError::AuthorizationError);
        }
        if self.agents[agent_profile].owner != self.jobs[job_id].agent {
            return Err(AgentProtocolError::AuthorizationError);
        }
        match self.find_rating(job_id) {
            Option::Some(_k) => {
                return Err(AgentProtocolError::DuplicateRecordError);
            },
            Option::None => {},
        }
        if score < 1 || score > 5 {
            return Err(AgentProtocolError::ValidationError);
        }
        let rating_sum = self.agents[agent_profile].rating_sum;
        let rating_count = self.agents[agent_profile].rating_count;
        if score as u64 > u64::MAX - rating_sum {
            return Err(AgentProtocolError::FundsError);
        }
        let new_sum = rating_sum + score as u64;
        if rating_count == u32::MAX {
            return Err(AgentProtocolError::FundsError);
        }
        let new_count = rating_count + 1;
        if new_sum > u64::MAX / 100 {
            return Err(AgentProtocolError::FundsError);
        }
        let new_avg_x100 = (new_sum * 100) / (new_count as u64);
        self.ratings.push(
            Rating { agent: agent_profile, rater: client_signer, job: job_id, score, created_at: now },
        );
        let mut profile = self.agents[agent_profile].duplicate();
        profile.rating_sum = new_sum;
        profile.rating_count = new_count;
        self.agents.set(agent_profile, profile);
        self.events.push(
            AgentEvent::AgentRated(
                AgentRated { agent: agent_profile, rater: client_signer, score, new_avg_x100 },
            ),
        );
        proof {
            Self::lemma_neutral_append(*old(self), *self);
        }
        Ok(())
    }
}

} // verus!
