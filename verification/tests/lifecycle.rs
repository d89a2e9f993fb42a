//! Tests of the basic job lifecycle: registration, invocation, completion,
//! release, cancellation, auto-release and disputes.

use agent_protocol::constants::DISPUTE_TIMEOUT;
use agent_protocol::error::AgentProtocolError;
use agent_protocol::events::AgentEvent;
use agent_protocol::marketplace::Marketplace;
use agent_protocol::state::JobStatus;

/// A store with one funded client wallet, one agent owner wallet, and one
/// registered agent priced at 500. Returns (store, client, agent_owner,
/// profile index).
fn setup() -> (Marketplace, usize, usize, usize) {
    let mut m = Marketplace::new();
    let client = m.create_account(10_000);
    let agent_owner = m.create_account(0);
    let ap = m
        .register_agent(
            agent_owner,
            "coder".to_string(),
            "writes code".to_string(),
            1,
            500,
            1,
        )
        .unwrap();
    (m, client, agent_owner, ap)
}

#[test]
fn register_agent_validation() {
    let mut m = Marketplace::new();
    let owner = m.create_account(0);
    // Empty name.
    assert_eq!(
        m.register_agent(owner, String::new(), "d".to_string(), 0, 10, 1),
        Err(AgentProtocolError::ValidationError)
    );
    // Name over 32 characters.
    let long_name: String = "x".repeat(33);
    assert_eq!(
        m.register_agent(owner, long_name, "d".to_string(), 0, 10, 1),
        Err(AgentProtocolError::ValidationError)
    );
    // Description over 128 characters.
    let long_desc: String = "y".repeat(129);
    assert_eq!(
        m.register_agent(owner, "a".to_string(), long_desc, 0, 10, 1),
        Err(AgentProtocolError::ValidationError)
    );
    // Zero price.
    assert_eq!(
        m.register_agent(owner, "a".to_string(), "d".to_string(), 0, 0, 1),
        Err(AgentProtocolError::ValidationError)
    );
    // Nothing was recorded by the failed attempts.
    assert_eq!(m.agents.len(), 0);
    assert_eq!(m.events.len(), 0);
}

#[test]
fn register_agent_boundaries() {
    let mut m = Marketplace::new();
    let owner = m.create_account(0);
    let name32: String = "n".repeat(32);
    let desc128: String = "d".repeat(128);
    let ap = m.register_agent(owner, name32, desc128, 7, 1, 42).unwrap();
    let p = &m.agents[ap];
    assert_eq!(p.owner, owner);
    assert!(p.is_active);
    assert_eq!(p.price_lamports, 1);
    assert_eq!(p.capabilities, 7);
    assert_eq!(p.rating_sum, 0);
    assert_eq!(p.rating_count, 0);
    assert_eq!(p.jobs_completed, 0);
    assert_eq!(p.created_at, 42);
}

#[test]
fn invoke_agent_creates_funded_pending_job() {
    let (mut m, client, _agent_owner, ap) = setup();
    let j = m
        .invoke_agent(client, ap, "task".to_string(), 1000, None, 7, 100)
        .unwrap();
    let job = &m.jobs[j];
    assert_eq!(job.status, JobStatus::Pending);
    assert_eq!(job.escrow_lamports, 1000);
    assert!(job.escrow_lamports > 0);
    assert_eq!(job.client, client);
    assert_eq!(job.active_children, 0);
    assert_eq!(job.parent_job, None);
    assert_eq!(job.created_at, 100);
    assert_eq!(job.timestamp_seed, 7);
    assert_eq!(m.balances[client], 9_000);
}

#[test]
fn invoke_agent_failures() {
    let (mut m, client, _agent_owner, ap) = setup();
    // Empty description.
    assert_eq!(
        m.invoke_agent(client, ap, String::new(), 1000, None, 0, 1),
        Err(AgentProtocolError::ValidationError)
    );
    // Payment below the agent's price.
    assert_eq!(
        m.invoke_agent(client, ap, "task".to_string(), 499, None, 0, 1),
        Err(AgentProtocolError::FundsError)
    );
    // Client cannot cover the payment.
    assert_eq!(
        m.invoke_agent(client, ap, "task".to_string(), 10_001, None, 0, 1),
        Err(AgentProtocolError::FundsError)
    );
    // The failed attempts left no job behind.
    assert_eq!(m.jobs.len(), 0);
    assert_eq!(m.balances[client], 10_000);
}

#[test]
fn update_job_completes_and_records_result() {
    let (mut m, client, agent_owner, ap) = setup();
    let j = m
        .invoke_agent(client, ap, "task".to_string(), 1000, None, 0, 100)
        .unwrap();
    // Only the job's agent may complete it.
    assert_eq!(
        m.update_job(client, j, "uri".to_string(), 150),
        Err(AgentProtocolError::AuthorizationError)
    );
    // The result location is required.
    assert_eq!(
        m.update_job(agent_owner, j, String::new(), 150),
        Err(AgentProtocolError::ValidationError)
    );
    m.update_job(agent_owner, j, "ipfs://result".to_string(), 150).unwrap();
    let job = &m.jobs[j];
    assert_eq!(job.status, JobStatus::Completed);
    assert_eq!(job.result_uri, "ipfs://result");
    assert_eq!(job.completed_at, Some(150));
    // A completed job cannot be completed again.
    assert_eq!(
        m.update_job(agent_owner, j, "uri2".to_string(), 160),
        Err(AgentProtocolError::StateError)
    );
}

#[test]
fn release_payment_pays_agent_and_finalizes() {
    let (mut m, client, agent_owner, ap) = setup();
    let j = m
        .invoke_agent(client, ap, "task".to_string(), 1000, None, 0, 100)
        .unwrap();
    // A job that is not yet completed cannot be released.
    assert_eq!(
        m.release_payment(client, j, ap),
        Err(AgentProtocolError::StateError)
    );
    m.update_job(agent_owner, j, "uri".to_string(), 150).unwrap();
    // Only the client may release.
    assert_eq!(
        m.release_payment(agent_owner, j, ap),
        Err(AgentProtocolError::AuthorizationError)
    );
    m.release_payment(client, j, ap).unwrap();
    assert_eq!(m.jobs[j].status, JobStatus::Finalized);
    assert_eq!(m.jobs[j].escrow_lamports, 0);
    assert_eq!(m.balances[agent_owner], 1000);
    assert_eq!(m.agents[ap].jobs_completed, 1);
    match m.events.last().unwrap() {
        AgentEvent::PaymentReleased(e) => {
            assert_eq!(e.amount, 1000);
            assert_eq!(e.agent, agent_owner);
            assert!(!e.auto_released);
        }
        _ => panic!("expected a PaymentReleased event"),
    }
}

#[test]
fn cancel_job_refunds_client() {
    let (mut m, client, agent_owner, ap) = setup();
    let j = m
        .invoke_agent(client, ap, "task".to_string(), 1000, None, 0, 100)
        .unwrap();
    assert_eq!(m.balances[client], 9_000);
    // Only the client may cancel.
    assert_eq!(
        m.cancel_job(agent_owner, j),
        Err(AgentProtocolError::AuthorizationError)
    );
    m.cancel_job(client, j).unwrap();
    assert_eq!(m.jobs[j].status, JobStatus::Cancelled);
    assert_eq!(m.jobs[j].escrow_lamports, 0);
    assert_eq!(m.balances[client], 10_000);
    // Only a pending job can be cancelled.
    assert_eq!(m.cancel_job(client, j), Err(AgentProtocolError::StateError));
}

#[test]
fn auto_release_honours_the_deadline() {
    let (mut m, client, agent_owner, ap) = setup();
    // Deadline: created at 100, auto-release after 50 seconds.
    let j = m
        .invoke_agent(client, ap, "task".to_string(), 1000, Some(50), 0, 100)
        .unwrap();
    assert_eq!(m.jobs[j].auto_release_at, Some(150));
    m.update_job(agent_owner, j, "uri".to_string(), 120).unwrap();
    // Too early.
    assert_eq!(m.auto_release(j, ap, 149), Err(AgentProtocolError::TimingError));
    // On time: anyone may trigger it, no client signature involved.
    m.auto_release(j, ap, 150).unwrap();
    assert_eq!(m.jobs[j].status, JobStatus::Finalized);
    assert_eq!(m.balances[agent_owner], 1000);
    match m.events.last().unwrap() {
        AgentEvent::PaymentReleased(e) => assert!(e.auto_released),
        _ => panic!("expected a PaymentReleased event"),
    }
}

#[test]
fn auto_release_requires_a_configured_deadline() {
    let (mut m, client, agent_owner, ap) = setup();
    let j = m
        .invoke_agent(client, ap, "task".to_string(), 1000, None, 0, 100)
        .unwrap();
    m.update_job(agent_owner, j, "uri".to_string(), 120).unwrap();
    assert_eq!(m.auto_release(j, ap, 10_000), Err(AgentProtocolError::StateError));
}

#[test]
fn raise_dispute_from_each_disputable_status() {
    let (mut m, client, agent_owner, ap) = setup();
    // From Pending, by the client.
    let j1 = m
        .invoke_agent(client, ap, "t1".to_string(), 500, None, 1, 100)
        .unwrap();
    m.raise_dispute(client, j1, 200).unwrap();
    assert_eq!(m.jobs[j1].status, JobStatus::Disputed);
    assert_eq!(m.jobs[j1].disputed_at, Some(200));
    // From Completed, by the agent.
    let j2 = m
        .invoke_agent(client, ap, "t2".to_string(), 500, None, 2, 100)
        .unwrap();
    m.update_job(agent_owner, j2, "uri".to_string(), 150).unwrap();
    m.raise_dispute(agent_owner, j2, 200).unwrap();
    assert_eq!(m.jobs[j2].status, JobStatus::Disputed);
    // A third party may not dispute.
    let outsider = m.create_account(0);
    let j3 = m
        .invoke_agent(client, ap, "t3".to_string(), 500, None, 3, 100)
        .unwrap();
    assert_eq!(
        m.raise_dispute(outsider, j3, 300),
        Err(AgentProtocolError::AuthorizationError)
    );
    // A disputed job cannot be disputed again.
    assert_eq!(
        m.raise_dispute(client, j1, 300),
        Err(AgentProtocolError::StateError)
    );
    // A disputed job cannot be completed or cancelled.
    assert_eq!(
        m.update_job(agent_owner, j1, "uri".to_string(), 300),
        Err(AgentProtocolError::StateError)
    );
    assert_eq!(m.cancel_job(client, j1), Err(AgentProtocolError::StateError));
}

#[test]
fn resolve_dispute_by_timeout_boundary() {
    let (mut m, client, _agent_owner, ap) = setup();
    let j = m
        .invoke_agent(client, ap, "task".to_string(), 1000, None, 0, 100)
        .unwrap();
    let disputed_at: i64 = 1_000;
    m.raise_dispute(client, j, disputed_at).unwrap();
    // Exactly DISPUTE_TIMEOUT seconds after the dispute: still too early.
    assert_eq!(
        m.resolve_dispute_by_timeout(j, disputed_at + DISPUTE_TIMEOUT),
        Err(AgentProtocolError::TimingError)
    );
    // The failed attempt changed nothing.
    assert_eq!(m.jobs[j].status, JobStatus::Disputed);
    assert_eq!(m.jobs[j].escrow_lamports, 1000);
    assert_eq!(m.balances[client], 9_000);
    // One second later the refund goes through.
    m.resolve_dispute_by_timeout(j, disputed_at + DISPUTE_TIMEOUT + 1).unwrap();
    assert_eq!(m.jobs[j].status, JobStatus::Cancelled);
    assert_eq!(m.jobs[j].escrow_lamports, 0);
    assert_eq!(m.balances[client], 10_000);
    match m.events.last().unwrap() {
        AgentEvent::DisputeResolved(e) => assert_eq!(e.refund_lamports, 1000),
        _ => panic!("expected a DisputeResolved event"),
    }
}

#[test]
fn resolve_dispute_requires_a_dispute() {
    let (mut m, client, _agent_owner, ap) = setup();
    let j = m
        .invoke_agent(client, ap, "task".to_string(), 1000, None, 0, 100)
        .unwrap();
    assert_eq!(
        m.resolve_dispute_by_timeout(j, 10_000_000),
        Err(AgentProtocolError::StateError)
    );
}
