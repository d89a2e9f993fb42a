//! Tests of the reputation aggregator: the scaled integer average, the
//! one-rating-per-job rule, and the end-to-end scenario.

use agent_protocol::error::AgentProtocolError;
use agent_protocol::events::AgentEvent;
use agent_protocol::marketplace::Marketplace;
use agent_protocol::state::JobStatus;

/// Runs one job from invocation through finalization and returns its index.
fn finalized_job(
    m: &mut Marketplace,
    client: usize,
    agent_owner: usize,
    ap: usize,
    payment: u64,
    seed: i64,
) -> usize {
    let j = m
        .invoke_agent(client, ap, "task".to_string(), payment, None, seed, 100)
        .unwrap();
    m.update_job(agent_owner, j, "uri".to_string(), 150).unwrap();
    m.release_payment(client, j, ap).unwrap();
    j
}

fn last_avg(m: &Marketplace) -> u64 {
    match m.events.last().unwrap() {
        AgentEvent::AgentRated(e) => e.new_avg_x100,
        _ => panic!("expected an AgentRated event"),
    }
}

#[test]
fn rating_average_truncates() {
    let mut m = Marketplace::new();
    let client = m.create_account(100_000);
    let agent_owner = m.create_account(0);
    let ap = m
        .register_agent(agent_owner, "a".to_string(), "d".to_string(), 0, 100, 1)
        .unwrap();
    let j1 = finalized_job(&mut m, client, agent_owner, ap, 100, 1);
    let j2 = finalized_job(&mut m, client, agent_owner, ap, 100, 2);
    let j3 = finalized_job(&mut m, client, agent_owner, ap, 100, 3);
    m.rate_agent(client, j1, ap, 5, 200).unwrap();
    assert_eq!(last_avg(&m), 500);
    m.rate_agent(client, j2, ap, 3, 201).unwrap();
    assert_eq!(last_avg(&m), 400);
    m.rate_agent(client, j3, ap, 4, 202).unwrap();
    // (5 + 3 + 4) * 100 / 3 truncates to 400.
    assert_eq!(last_avg(&m), 400);
    assert_eq!(m.agents[ap].rating_sum, 12);
    assert_eq!(m.agents[ap].rating_count, 3);
}

#[test]
fn rating_requires_a_finalized_job_and_its_client() {
    let mut m = Marketplace::new();
    let client = m.create_account(10_000);
    let agent_owner = m.create_account(0);
    let ap = m
        .register_agent(agent_owner, "a".to_string(), "d".to_string(), 0, 100, 1)
        .unwrap();
    let j = m
        .invoke_agent(client, ap, "task".to_string(), 100, None, 1, 100)
        .unwrap();
    // Not yet finalized.
    assert_eq!(
        m.rate_agent(client, j, ap, 5, 200),
        Err(AgentProtocolError::StateError)
    );
    m.update_job(agent_owner, j, "uri".to_string(), 150).unwrap();
    m.release_payment(client, j, ap).unwrap();
    // Only the job's client may rate.
    assert_eq!(
        m.rate_agent(agent_owner, j, ap, 5, 200),
        Err(AgentProtocolError::AuthorizationError)
    );
    // The score must lie in 1..=5.
    assert_eq!(
        m.rate_agent(client, j, ap, 0, 200),
        Err(AgentProtocolError::ValidationError)
    );
    assert_eq!(
        m.rate_agent(client, j, ap, 6, 200),
        Err(AgentProtocolError::ValidationError)
    );
}

#[test]
fn rating_accrues_only_to_the_jobs_agent() {
    let mut m = Marketplace::new();
    let client = m.create_account(10_000);
    let agent_owner = m.create_account(0);
    let other_owner = m.create_account(0);
    let ap = m
        .register_agent(agent_owner, "a".to_string(), "d".to_string(), 0, 100, 1)
        .unwrap();
    let other_ap = m
        .register_agent(other_owner, "b".to_string(), "d".to_string(), 0, 100, 1)
        .unwrap();
    let j = finalized_job(&mut m, client, agent_owner, ap, 100, 1);
    // A profile that does not belong to the job's agent cannot be credited.
    assert_eq!(
        m.rate_agent(client, j, other_ap, 5, 200),
        Err(AgentProtocolError::AuthorizationError)
    );
    assert_eq!(m.agents[other_ap].rating_sum, 0);
    assert_eq!(m.agents[other_ap].rating_count, 0);
    assert_eq!(m.ratings.len(), 0);
    // The job's own agent profile takes the rating.
    m.rate_agent(client, j, ap, 5, 200).unwrap();
    assert_eq!(m.agents[ap].rating_sum, 5);
    assert_eq!(m.agents[ap].rating_count, 1);
}

#[test]
fn double_rating_fails_and_changes_nothing() {
    let mut m = Marketplace::new();
    let client = m.create_account(10_000);
    let agent_owner = m.create_account(0);
    let ap = m
        .register_agent(agent_owner, "a".to_string(), "d".to_string(), 0, 100, 1)
        .unwrap();
    let j = finalized_job(&mut m, client, agent_owner, ap, 100, 1);
    m.rate_agent(client, j, ap, 4, 200).unwrap();
    let sum_before = m.agents[ap].rating_sum;
    let count_before = m.agents[ap].rating_count;
    let ratings_before = m.ratings.len();
    let events_before = m.events.len();
    assert_eq!(
        m.rate_agent(client, j, ap, 5, 300),
        Err(AgentProtocolError::DuplicateRecordError)
    );
    assert_eq!(m.agents[ap].rating_sum, sum_before);
    assert_eq!(m.agents[ap].rating_count, count_before);
    assert_eq!(m.ratings.len(), ratings_before);
    assert_eq!(m.events.len(), events_before);
}

#[test]
fn rating_overflow_is_a_funds_error() {
    let mut m = Marketplace::new();
    let client = m.create_account(10_000);
    let agent_owner = m.create_account(0);
    let ap = m
        .register_agent(agent_owner, "a".to_string(), "d".to_string(), 0, 100, 1)
        .unwrap();
    let j = finalized_job(&mut m, client, agent_owner, ap, 100, 1);
    // An accumulated sum near the integer ceiling makes the next
    // accumulation overflow.
    m.agents[ap].rating_sum = u64::MAX - 2;
    assert_eq!(
        m.rate_agent(client, j, ap, 5, 200),
        Err(AgentProtocolError::FundsError)
    );
    // A sum whose scaled average no longer fits is also refused.
    m.agents[ap].rating_sum = u64::MAX / 100;
    assert_eq!(
        m.rate_agent(client, j, ap, 5, 200),
        Err(AgentProtocolError::FundsError)
    );
}

#[test]
fn find_rating_reports_the_record() {
    let mut m = Marketplace::new();
    let client = m.create_account(10_000);
    let agent_owner = m.create_account(0);
    let ap = m
        .register_agent(agent_owner, "a".to_string(), "d".to_string(), 0, 100, 1)
        .unwrap();
    let j1 = finalized_job(&mut m, client, agent_owner, ap, 100, 1);
    let j2 = finalized_job(&mut m, client, agent_owner, ap, 100, 2);
    assert_eq!(m.find_rating(j1), None);
    m.rate_agent(client, j1, ap, 5, 200).unwrap();
    let k = m.find_rating(j1).unwrap();
    assert_eq!(m.ratings[k].job, j1);
    assert_eq!(m.ratings[k].score, 5);
    assert_eq!(m.ratings[k].rater, client);
    assert_eq!(m.find_rating(j2), None);
}

#[test]
fn end_to_end_scenario() {
    // Client invokes an agent with payment 1000 against price 500; the
    // agent delegates 400 to a sub-agent; the sub-agent completes and is
    // paid; the agent completes and is paid; the client rates 5.
    let mut m = Marketplace::new();
    let client = m.create_account(1_000);
    let agent_owner = m.create_account(0);
    let sub_owner = m.create_account(0);
    let ap = m
        .register_agent(agent_owner, "primary".to_string(), "d".to_string(), 1, 500, 1)
        .unwrap();
    let sub_ap = m
        .register_agent(sub_owner, "helper".to_string(), "d".to_string(), 1, 100, 1)
        .unwrap();

    let j = m
        .invoke_agent(client, ap, "root task".to_string(), 1000, None, 0, 100)
        .unwrap();
    assert_eq!(m.jobs[j].status, JobStatus::Pending);
    assert_eq!(m.jobs[j].escrow_lamports, 1000);

    let child = m
        .delegate_task(agent_owner, j, sub_ap, "sub task".to_string(), 400, 1, 110)
        .unwrap();
    assert_eq!(m.jobs[j].escrow_lamports, 600);
    assert_eq!(m.jobs[j].active_children, 1);
    assert_eq!(m.jobs[j].status, JobStatus::InProgress);
    assert_eq!(m.jobs[child].escrow_lamports, 400);
    assert_eq!(m.jobs[child].status, JobStatus::Pending);

    m.update_job(sub_owner, child, "sub result".to_string(), 120).unwrap();
    m.release_payment(agent_owner, child, sub_ap).unwrap();
    assert_eq!(m.jobs[child].status, JobStatus::Finalized);
    assert_eq!(m.balances[sub_owner], 400);
    assert_eq!(m.jobs[j].active_children, 0);

    m.update_job(agent_owner, j, "root result".to_string(), 130).unwrap();
    assert_eq!(m.jobs[j].status, JobStatus::Completed);

    m.release_payment(client, j, ap).unwrap();
    assert_eq!(m.jobs[j].status, JobStatus::Finalized);
    assert_eq!(m.balances[agent_owner], 600);
    assert_eq!(m.agents[ap].jobs_completed, 1);

    m.rate_agent(client, j, ap, 5, 140).unwrap();
    assert_eq!(m.agents[ap].rating_count, 1);
    assert_eq!(last_avg(&m), 500);
}
