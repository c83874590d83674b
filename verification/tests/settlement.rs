use neurolov::attestation::make_compute_proof;
use neurolov::errors::ErrorCode;
use neurolov::lifecycle::TaskStatus;
use neurolov::registry::SettlementMode;
use neurolov::registry::TaskCompleted;
use neurolov::registry::TaskEvent;
use neurolov::registry::TaskRegistry;
use neurolov::registry::calculate_reward;
use neurolov::task::TaskData;

const AUTHORITY: u64 = 7;
const OWNER: u64 = 1;
const WORKER: u64 = 9;

fn data(reward: u64, deadline: i64) -> TaskData {
    TaskData {
        task_type: String::from("inference"),
        requirements: vec![0xaa, 0xbb],
        reward,
        deadline,
    }
}

#[test]
fn end_to_end_fixed_escrow_settlement() {
    // create(reward = 500, deadline one hour out), assign, complete with a
    // valid proof: the worker receives exactly 500 and the task is Completed.
    let mut r = TaskRegistry::initialize_pool(AUTHORITY, SettlementMode::EscrowFixed, 0);
    r.ledger.deposit(OWNER, 2000).unwrap();
    let id = r.create_task(OWNER, data(500, 3600), 0).unwrap();
    r.assign_task(id, WORKER, 5).unwrap();
    let result_bytes = vec![42];
    let proof_bytes = make_compute_proof(&result_bytes, &vec![0xaa, 0xbb]);
    let paid = r.complete_task(id, WORKER, result_bytes, proof_bytes, 100, 10).unwrap();
    assert_eq!(paid, 500);
    assert_eq!(r.ledger.balance_of(WORKER), 500);
    assert_eq!(r.ledger.balance_of(OWNER), 1500);
    assert_eq!(r.ledger.escrow, 0);
    assert_eq!(r.pool.total_staked, 0);
    let t = r.get_task(id).unwrap();
    assert_eq!(t.status, TaskStatus::Completed);
    assert_eq!(t.result, Some(vec![42]));
    assert_eq!(t.completed_by, Some(WORKER));
    assert_eq!(t.completed_at, Some(10));

    // a second completion fails and moves nothing
    let again = make_compute_proof(&vec![42], &vec![0xaa, 0xbb]);
    assert_eq!(
        r.complete_task(id, WORKER, vec![42], again, 100, 20),
        Err(ErrorCode::TaskAlreadyCompleted)
    );
    assert_eq!(r.ledger.balance_of(WORKER), 500);
}

#[test]
fn complete_rejects_bad_proof_and_changes_nothing() {
    let mut r = TaskRegistry::initialize_pool(AUTHORITY, SettlementMode::EscrowFixed, 0);
    r.ledger.deposit(OWNER, 1000).unwrap();
    let id = r.create_task(OWNER, data(500, 3600), 0).unwrap();
    r.assign_task(id, WORKER, 5).unwrap();
    // a proof for a different result does not attest this one
    let wrong = make_compute_proof(&vec![43], &vec![0xaa, 0xbb]);
    assert_eq!(
        r.complete_task(id, WORKER, vec![42], wrong, 100, 10),
        Err(ErrorCode::InvalidComputeProof)
    );
    // malformed proofs are rejected the same way, never a fault
    assert_eq!(
        r.complete_task(id, WORKER, vec![42], Vec::new(), 100, 10),
        Err(ErrorCode::InvalidComputeProof)
    );
    let t = r.get_task(id).unwrap();
    assert_eq!(t.status, TaskStatus::Assigned);
    assert!(t.result.is_none());
    assert_eq!(r.ledger.balance_of(WORKER), 0);
    assert_eq!(r.ledger.escrow, 500);
    assert_eq!(r.pool.total_staked, 500);
    assert_eq!(r.events.len(), 2);
}

#[test]
fn complete_requires_prior_assignment() {
    let mut r = TaskRegistry::initialize_pool(AUTHORITY, SettlementMode::EscrowFixed, 0);
    r.ledger.deposit(OWNER, 1000).unwrap();
    let id = r.create_task(OWNER, data(500, 3600), 0).unwrap();
    let proof_bytes = make_compute_proof(&vec![42], &vec![0xaa, 0xbb]);
    assert_eq!(
        r.complete_task(id, WORKER, vec![42], proof_bytes, 100, 10),
        Err(ErrorCode::InvalidTaskStatus)
    );
    assert_eq!(r.get_task(id).unwrap().status, TaskStatus::Open);
}

#[test]
fn complete_after_deadline_rejected() {
    let mut r = TaskRegistry::initialize_pool(AUTHORITY, SettlementMode::EscrowFixed, 0);
    r.ledger.deposit(OWNER, 1000).unwrap();
    let id = r.create_task(OWNER, data(500, 100), 0).unwrap();
    r.assign_task(id, WORKER, 5).unwrap();
    let proof_bytes = make_compute_proof(&vec![42], &vec![0xaa, 0xbb]);
    assert_eq!(
        r.complete_task(id, WORKER, vec![42], proof_bytes, 100, 101),
        Err(ErrorCode::DeadlineElapsed)
    );
    assert_eq!(r.ledger.escrow, 500);
}

#[test]
fn complete_unknown_task_rejected() {
    let mut r = TaskRegistry::initialize_pool(AUTHORITY, SettlementMode::EscrowFixed, 0);
    assert_eq!(
        r.complete_task(4, WORKER, vec![42], Vec::new(), 100, 10),
        Err(ErrorCode::TaskNotFound)
    );
}

#[test]
fn weighted_mint_settlement_pays_scored_share() {
    let mut r = TaskRegistry::initialize_pool(AUTHORITY, SettlementMode::MintWeighted, 0);
    let id = r.create_task(OWNER, data(1000, 3600), 0).unwrap();
    r.assign_task(id, WORKER, 5).unwrap();
    let result_bytes = vec![1, 2, 3, 4];
    let proof_bytes = make_compute_proof(&result_bytes, &vec![0xaa, 0xbb]);
    let paid = r.complete_task(id, WORKER, result_bytes, proof_bytes, 80, 10).unwrap();
    assert_eq!(paid, 800);
    assert_eq!(r.ledger.balance_of(WORKER), 800);
    assert_eq!(r.ledger.escrow, 0);
    assert_eq!(r.pool.total_staked, 0);
    // the completion event logs the amount actually moved
    assert_eq!(
        r.events[2],
        TaskEvent::Completed(TaskCompleted { task_id: id, reward: 800 })
    );
}

#[test]
fn weighted_score_out_of_range_rejected() {
    let mut r = TaskRegistry::initialize_pool(AUTHORITY, SettlementMode::MintWeighted, 0);
    let id = r.create_task(OWNER, data(1000, 3600), 0).unwrap();
    r.assign_task(id, WORKER, 5).unwrap();
    let proof_bytes = make_compute_proof(&vec![1], &vec![0xaa, 0xbb]);
    assert_eq!(
        r.complete_task(id, WORKER, vec![1], proof_bytes, 101, 10),
        Err(ErrorCode::InvalidRewardAmount)
    );
    assert_eq!(r.ledger.balance_of(WORKER), 0);
    assert_eq!(r.get_task(id).unwrap().status, TaskStatus::Assigned);
}

#[test]
fn calculate_reward_uses_integer_floor() {
    assert_eq!(calculate_reward(1000, 80), 800);
    assert_eq!(calculate_reward(1000, 0), 0);
    assert_eq!(calculate_reward(100, 100), 100);
    // floor division, never rounded up
    assert_eq!(calculate_reward(999, 50), 499);
    assert_eq!(calculate_reward(1, 99), 0);
}

#[test]
fn escrow_tracks_every_open_and_assigned_task() {
    let mut r = TaskRegistry::initialize_pool(AUTHORITY, SettlementMode::EscrowFixed, 0);
    r.ledger.deposit(OWNER, 1000).unwrap();
    let a = r.create_task(OWNER, data(500, 3600), 0).unwrap();
    let b = r.create_task(OWNER, data(300, 3600), 1).unwrap();
    assert_eq!(r.pool.total_staked, 800);
    assert_eq!(r.ledger.escrow, 800);
    r.assign_task(a, WORKER, 5).unwrap();
    assert_eq!(r.pool.total_staked, 800);
    let proof_bytes = make_compute_proof(&vec![9], &vec![0xaa, 0xbb]);
    r.complete_task(a, WORKER, vec![9], proof_bytes, 100, 10).unwrap();
    // the completed task's stake left the pot exactly once
    assert_eq!(r.pool.total_staked, 300);
    assert_eq!(r.ledger.escrow, 300);
    r.fail_task(b, AUTHORITY, 20).unwrap();
    assert_eq!(r.pool.total_staked, 0);
    assert_eq!(r.ledger.escrow, 0);
}
