use neurolov::errors::ErrorCode;
use neurolov::lifecycle::TaskStatus;
use neurolov::registry::SettlementMode;
use neurolov::registry::TaskAssigned;
use neurolov::registry::TaskCreated;
use neurolov::registry::TaskEvent;
use neurolov::registry::TaskRegistry;
use neurolov::task::TaskData;

const AUTHORITY: u64 = 7;
const OWNER: u64 = 1;
const WORKER: u64 = 9;

fn escrow_registry_with_funds(balance: u64) -> TaskRegistry {
    let mut r = TaskRegistry::initialize_pool(AUTHORITY, SettlementMode::EscrowFixed, 0);
    r.ledger.deposit(OWNER, balance).unwrap();
    r
}

fn sample_data(reward: u64, deadline: i64) -> TaskData {
    TaskData {
        task_type: String::from("training"),
        requirements: vec![1, 2, 3],
        reward,
        deadline,
    }
}

#[test]
fn create_task_opens_record_and_emits_event() {
    let mut r = escrow_registry_with_funds(1000);
    let id = r.create_task(OWNER, sample_data(500, 3600), 10).unwrap();
    assert_eq!(id, 0);
    let t = r.get_task(0).unwrap();
    assert_eq!(t.status, TaskStatus::Open);
    assert_eq!(t.owner, OWNER);
    assert_eq!(t.data.reward, 500);
    assert_eq!(t.created_at, 10);
    assert!(t.assigned_to.is_none());
    assert_eq!(r.pool.total_staked, 500);
    assert_eq!(r.ledger.escrow, 500);
    assert_eq!(r.ledger.balance_of(OWNER), 500);
    assert_eq!(
        r.events,
        vec![TaskEvent::Created(TaskCreated { task_id: 0, owner: OWNER, reward: 500 })]
    );
}

#[test]
fn create_task_zero_reward_rejected() {
    let mut r = escrow_registry_with_funds(1000);
    let res = r.create_task(OWNER, sample_data(0, 3600), 10);
    assert_eq!(res, Err(ErrorCode::InvalidRewardAmount));
    assert_eq!(r.tasks.len(), 0);
}

#[test]
fn create_task_deadline_not_in_future_rejected() {
    let mut r = escrow_registry_with_funds(1000);
    let res = r.create_task(OWNER, sample_data(500, 10), 10);
    assert_eq!(res, Err(ErrorCode::InvalidDeadline));
    assert_eq!(r.tasks.len(), 0);
    assert_eq!(r.ledger.balance_of(OWNER), 1000);
}

#[test]
fn create_task_insufficient_funds_rejected() {
    let mut r = escrow_registry_with_funds(100);
    let res = r.create_task(OWNER, sample_data(500, 3600), 10);
    assert_eq!(res, Err(ErrorCode::InsufficientReward));
    assert_eq!(r.tasks.len(), 0);
    assert_eq!(r.pool.total_staked, 0);
    assert_eq!(r.ledger.balance_of(OWNER), 100);
}

#[test]
fn mint_deployment_needs_no_funds_at_creation() {
    let mut r = TaskRegistry::initialize_pool(AUTHORITY, SettlementMode::MintWeighted, 0);
    let id = r.create_task(OWNER, sample_data(500, 3600), 10).unwrap();
    assert_eq!(id, 0);
    assert_eq!(r.pool.total_staked, 0);
    assert_eq!(r.ledger.escrow, 0);
}

#[test]
fn assign_task_succeeds_once() {
    let mut r = escrow_registry_with_funds(1000);
    r.create_task(OWNER, sample_data(500, 3600), 10).unwrap();
    assert!(r.assign_task(0, WORKER, 20).is_ok());
    let t = r.get_task(0).unwrap();
    assert_eq!(t.status, TaskStatus::Assigned);
    assert_eq!(t.assigned_to, Some(WORKER));
    assert_eq!(t.assigned_at, Some(20));
    assert_eq!(
        r.events[1],
        TaskEvent::Assigned(TaskAssigned { task_id: 0, swarm_id: WORKER })
    );
    // every further attempt fails, whoever asks
    assert_eq!(r.assign_task(0, WORKER, 30), Err(ErrorCode::TaskAlreadyAssigned));
    assert_eq!(r.assign_task(0, 42, 40), Err(ErrorCode::TaskAlreadyAssigned));
    assert_eq!(r.get_task(0).unwrap().assigned_to, Some(WORKER));
}

#[test]
fn assign_unknown_task_rejected() {
    let mut r = escrow_registry_with_funds(1000);
    assert_eq!(r.assign_task(3, WORKER, 20), Err(ErrorCode::TaskNotFound));
}

#[test]
fn assign_after_deadline_rejected() {
    let mut r = escrow_registry_with_funds(1000);
    r.create_task(OWNER, sample_data(500, 100), 10).unwrap();
    assert_eq!(r.assign_task(0, WORKER, 101), Err(ErrorCode::DeadlineElapsed));
    assert_eq!(r.get_task(0).unwrap().status, TaskStatus::Open);
}

#[test]
fn assign_failed_task_rejected() {
    let mut r = escrow_registry_with_funds(1000);
    r.create_task(OWNER, sample_data(500, 3600), 10).unwrap();
    r.fail_task(0, AUTHORITY, 20).unwrap();
    assert_eq!(r.assign_task(0, WORKER, 30), Err(ErrorCode::TaskAlreadyAssigned));
}

#[test]
fn fail_task_refunds_creator() {
    let mut r = escrow_registry_with_funds(1000);
    r.create_task(OWNER, sample_data(500, 3600), 10).unwrap();
    assert_eq!(r.ledger.balance_of(OWNER), 500);
    assert!(r.fail_task(0, AUTHORITY, 20).is_ok());
    assert_eq!(r.get_task(0).unwrap().status, TaskStatus::Failed);
    assert_eq!(r.ledger.balance_of(OWNER), 1000);
    assert_eq!(r.pool.total_staked, 0);
    assert_eq!(r.ledger.escrow, 0);
}

#[test]
fn fail_task_by_stranger_rejected() {
    let mut r = escrow_registry_with_funds(1000);
    r.create_task(OWNER, sample_data(500, 3600), 10).unwrap();
    assert_eq!(r.fail_task(0, WORKER, 20), Err(ErrorCode::Unauthorized));
    assert_eq!(r.get_task(0).unwrap().status, TaskStatus::Open);
    assert_eq!(r.pool.total_staked, 500);
}

#[test]
fn fail_terminal_task_rejected() {
    let mut r = escrow_registry_with_funds(1000);
    r.create_task(OWNER, sample_data(500, 3600), 10).unwrap();
    r.fail_task(0, AUTHORITY, 20).unwrap();
    assert_eq!(r.fail_task(0, AUTHORITY, 30), Err(ErrorCode::InvalidTaskStatus));
    assert_eq!(r.ledger.balance_of(OWNER), 1000);
}

#[test]
fn fail_unknown_task_rejected() {
    let mut r = escrow_registry_with_funds(1000);
    assert_eq!(r.fail_task(5, AUTHORITY, 20), Err(ErrorCode::TaskNotFound));
}

#[test]
fn statuses_observed_in_lifecycle_order() {
    let mut r = escrow_registry_with_funds(1000);
    let mut observed: Vec<TaskStatus> = Vec::new();
    r.create_task(OWNER, sample_data(500, 3600), 10).unwrap();
    observed.push(r.get_task(0).unwrap().status);
    r.assign_task(0, WORKER, 20).unwrap();
    observed.push(r.get_task(0).unwrap().status);
    let result_bytes = vec![4, 5];
    let proof_bytes =
        neurolov::attestation::make_compute_proof(&result_bytes, &vec![1, 2, 3]);
    r.complete_task(0, WORKER, result_bytes, proof_bytes, 100, 30).unwrap();
    observed.push(r.get_task(0).unwrap().status);
    assert_eq!(
        observed,
        vec![TaskStatus::Open, TaskStatus::Assigned, TaskStatus::Completed]
    );
}
