//! The task registry: the core state machine. It creates, assigns, completes
//! and fails tasks, invokes the proof verifier and the settlement ledger
//! synchronously inside each operation, and appends one event per transition.
//!
//! Every operation is atomic: it either commits its whole effect — status
//! transition and fund movement together — or reports one specific error and
//! changes nothing at all.

use vstd::prelude::*;
use crate::attestation::computation_verified;
use crate::attestation::verify_computation;
use crate::errors::ErrorCode;
use crate::ledger::Ledger;
use crate::lifecycle::TaskStatus;
use crate::lifecycle::lifecycle_step;
use crate::task::Task;
use crate::task::TaskData;
use crate::task::task_last_time;
use crate::task::task_wf;

verus! {

/// The configured settlement multiplier base: a performance score of
/// `REWARD_RATE` pays the full reward.
pub const REWARD_RATE: u64 = 100;

/// Which of the two settlement strategies a deployment runs. Exactly one
/// applies per deployment; they are never mixed for the same task.
#[derive(Clone, Copy, Debug, PartialEq, Eq, Structural)]
pub enum SettlementMode {
    /// Funds equal to the reward move into escrow at creation and are
    /// released in full to the worker at completion.
    EscrowFixed,
    /// Nothing is escrowed; a performance-weighted amount is minted to the
    /// worker at completion.
    MintWeighted,
}

/// The process-wide pool record: the administering authority, the aggregate
/// of funds currently staked across open tasks, and the reward rate.
pub struct Pool {
    /// The identity permitted to administer the pool (fail tasks, issue
    /// funds); not the spending party.
    pub authority: u64,
    /// The aggregate of funds currently held for all `Open` and `Assigned`
    /// tasks of the pool.
    pub total_staked: u64,
    /// The settlement multiplier base.
    pub reward_rate: u64,
}

/// Event: a task was created.
#[derive(Clone, Copy, Debug, PartialEq, Eq, Structural)]
pub struct TaskCreated {
    pub task_id: u64,
    pub owner: u64,
    pub reward: u64,
}

/// Event: an `Open` task was assigned to a swarm.
#[derive(Clone, Copy, Debug, PartialEq, Eq, Structural)]
pub struct TaskAssigned {
    pub task_id: u64,
    pub swarm_id: u64,
}

/// Event: a task was completed; `reward` is the amount actually moved.
#[derive(Clone, Copy, Debug, PartialEq, Eq, Structural)]
pub struct TaskCompleted {
    pub task_id: u64,
    pub reward: u64,
}

/// One entry of the append-only event log. Observers consume it; the core
/// never reads it back.
#[derive(Clone, Copy, Debug, PartialEq, Eq, Structural)]
pub enum TaskEvent {
    Created(TaskCreated),
    Assigned(TaskAssigned),
    Completed(TaskCompleted),
}

/// The escrow contribution of one task: its reward while funds are in custody
/// — an escrow deployment holds the reward of every `Open` and `Assigned`
/// task — and zero otherwise.
pub open spec fn escrowed_amount(t: Task, mode: SettlementMode) -> int {
    if mode == SettlementMode::EscrowFixed && (t.status == TaskStatus::Open || t.status
        == TaskStatus::Assigned) {
        t.data.reward as int
    } else {
        0
    }
}

/// The sum of the escrowed amounts of a task list.
pub open spec fn escrow_sum(tasks: Seq<Task>, mode: SettlementMode) -> int
    decreases tasks.len(),
{
    if tasks.len() == 0 {
        0
    } else {
        escrow_sum(tasks.drop_last(), mode) + escrowed_amount(tasks.last(), mode)
    }
}

/// Appending a task adds exactly its contribution to the escrow sum.
proof fn lemma_escrow_sum_push(tasks: Seq<Task>, t: Task, mode: SettlementMode)
    ensures
        escrow_sum(tasks.push(t), mode) == escrow_sum(tasks, mode) + escrowed_amount(t, mode),
{
    assert(tasks.push(t).drop_last() =~= tasks);
}

/// Replacing one task swaps exactly its contribution in the escrow sum.
proof fn lemma_escrow_sum_update(tasks: Seq<Task>, i: int, t: Task, mode: SettlementMode)
    requires
        0 <= i < tasks.len(),
    ensures
        escrow_sum(tasks.update(i, t), mode) == escrow_sum(tasks, mode) - escrowed_amount(
            tasks[i],
            mode,
        ) + escrowed_amount(t, mode),
    decreases tasks.len(),
{
    if i == tasks.len() - 1 {
        assert(tasks.update(i, t).drop_last() =~= tasks.drop_last());
        assert(tasks.update(i, t).last() == t);
    } else {
        lemma_escrow_sum_update(tasks.drop_last(), i, t, mode);
        assert(tasks.update(i, t).drop_last() =~= tasks.drop_last().update(i, t));
        assert(tasks.update(i, t).last() == tasks.last());
    }
}

/// No contribution is negative, so neither is the sum.
proof fn lemma_escrow_sum_nonneg(tasks: Seq<Task>, mode: SettlementMode)
    ensures
        escrow_sum(tasks, mode) >= 0,
    decreases tasks.len(),
{
    if tasks.len() > 0 {
        lemma_escrow_sum_nonneg(tasks.drop_last(), mode);
    }
}

/// Each task's contribution is covered by the sum: the custody pot always
/// holds enough to settle or refund any single open task.
proof fn lemma_escrow_sum_covers(tasks: Seq<Task>, i: int, mode: SettlementMode)
    requires
        0 <= i < tasks.len(),
    ensures
        escrowed_amount(tasks[i], mode) <= escrow_sum(tasks, mode),
    decreases tasks.len(),
{
    if i == tasks.len() - 1 {
        lemma_escrow_sum_nonneg(tasks.drop_last(), mode);
    } else {
        lemma_escrow_sum_covers(tasks.drop_last(), i, mode);
    }
}

/// The performance-weighted settlement amount:
/// `floor(reward * performance_score / 100)`.
pub open spec fn weighted_reward(reward: u64, performance_score: u64) -> int {
    (reward * performance_score) / (REWARD_RATE as int)
}

/// Computes the performance-weighted settlement amount, integer floor
/// division, no rounding up. The score lives in the closed range `[0, 100]`;
/// at most the full reward is ever paid.
pub fn calculate_reward(reward: u64, performance_score: u64) -> (r: u64)
    requires
        performance_score <= 100,
    ensures
        r as int == weighted_reward(reward, performance_score),
        r <= reward,
{
    proof {
        assert((reward as int) * (performance_score as int) <= (reward as int) * 100
            && (reward as int) * (performance_score as int) >= 0 && ((reward as int) * 100) / 100
            == reward as int) by (nonlinear_arith)
            requires performance_score <= 100, reward >= 0, performance_score >= 0;
        assert(((reward as int) * (performance_score as int)) / 100 <= ((reward as int) * 100)
            / 100) by (nonlinear_arith)
            requires (reward as int) * (performance_score as int) <= (reward as int) * 100;
    }
    let wide: u128 = (reward as u128) * (performance_score as u128);
    (wide / (REWARD_RATE as u128)) as u64
}

/// The core state machine of the marketplace: the pool, its settlement
/// ledger, every task record keyed by its identifier, the event log, and the
/// latest timestamp any operation has seen.
pub struct TaskRegistry {
    /// The pool record of this deployment.
    pub pool: Pool,
    /// The settlement strategy this deployment runs.
    pub mode: SettlementMode,
    /// The settlement ledger owning all balances and the custody pot.
    pub ledger: Ledger,
    /// All task records; the record of task id `i` sits at index `i`.
    pub tasks: Vec<Task>,
    /// The append-only event log.
    pub events: Vec<TaskEvent>,
    /// The latest timestamp handed to any operation; the calling layer's
    /// clock never runs backwards.
    pub clock: i64,
}

impl TaskRegistry {
    /// Well-formedness of the whole registry: every record is well-formed and
    /// sits under its own identifier, no record is from the future, and —
    /// escrow conservation — the pool's aggregate stake equals the sum of the
    /// escrowed rewards of its `Open` and `Assigned` tasks and is exactly
    /// what the ledger holds in custody. A mint deployment stakes nothing.
    pub open spec fn wf(self) -> bool {
        &&& forall|i: int| 0 <= i < self.tasks@.len() ==> task_wf(#[trigger] self.tasks@[i])
        &&& forall|i: int| 0 <= i < self.tasks@.len() ==> (#[trigger] self.tasks@[i]).task_id
            == i as u64
        &&& forall|i: int| 0 <= i < self.tasks@.len() ==> task_last_time(
            #[trigger] self.tasks@[i],
        ) <= self.clock
        &&& self.pool.total_staked as int == escrow_sum(self.tasks@, self.mode)
        &&& self.ledger.escrow == self.pool.total_staked
        &&& (self.mode == SettlementMode::MintWeighted ==> self.pool.total_staked == 0)
        &&& self.ledger.authority == self.pool.authority
    }

    /// Creates the registry of one deployment: an empty task list, an empty
    /// event log, an empty ledger under the pool's authority, nothing staked,
    /// and the given starting time.
    pub fn initialize_pool(authority: u64, mode: SettlementMode, now: i64) -> (r: TaskRegistry)
        ensures
            r.wf(),
            r.pool.authority == authority,
            r.pool.total_staked == 0,
            r.pool.reward_rate == REWARD_RATE,
            r.mode == mode,
            r.ledger.authority == authority,
            r.ledger.escrow == 0,
            forall|a: u64| r.ledger.balance_spec(a) == 0,
            r.tasks@.len() == 0,
            r.events@.len() == 0,
            r.clock == now,
    {
        TaskRegistry {
            pool: Pool { authority, total_staked: 0, reward_rate: REWARD_RATE },
            mode,
            ledger: Ledger::initialize(authority),
            tasks: Vec::new(),
            events: Vec::new(),
            clock: now,
        }
    }
}

/// The record `create_task` appends: a fresh `Open` task carrying the posted
/// payload, created now, with nothing assigned, submitted or settled yet.
pub open spec fn created_task(task_id: u64, owner: u64, data: TaskData, now: i64) -> Task {
    Task {
        task_id,
        owner,
        data,
        status: TaskStatus::Open,
        assigned_to: None,
        result: None,
        completed_by: None,
        created_at: now,
        assigned_at: None,
        completed_at: None,
    }
}

impl TaskRegistry {
    /// Creates a task in state `Open` for `owner` and returns its fresh
    /// identifier. The reward must be positive and the deadline in the
    /// future. In an escrow deployment, funds equal to the reward move from
    /// the owner's balance into custody atomically with the record: if that
    /// transfer fails, no task is created. Emits a creation event.
    pub fn create_task(&mut self, owner: u64, data: TaskData, now: i64) -> (r: Result<
        u64,
        ErrorCode,
    >)
        requires
            old(self).wf(),
            now >= old(self).clock,
            old(self).tasks@.len() < u64::MAX,
        ensures
            final(self).wf(),
            r is Ok <==> (data.reward > 0 && data.deadline > now && (old(self).mode
                == SettlementMode::EscrowFixed ==> (data.reward <= old(self).ledger.balance_spec(
                owner,
            ) && old(self).pool.total_staked + data.reward <= u64::MAX))),
            data.reward == 0 ==> r == Err::<u64, ErrorCode>(ErrorCode::InvalidRewardAmount),
            data.reward > 0 && data.deadline <= now ==> r == Err::<u64, ErrorCode>(
                ErrorCode::InvalidDeadline,
            ),
            data.reward > 0 && data.deadline > now && old(self).mode == SettlementMode::EscrowFixed
                && !(data.reward <= old(self).ledger.balance_spec(owner) && old(self).pool.total_staked + data.reward <= u64::MAX) ==> r == Err::<u64, ErrorCode>(
                ErrorCode::InsufficientReward,
            ),
            r is Err ==> *final(self) == *old(self),
            r is Ok ==> r == Ok::<u64, ErrorCode>(old(self).tasks@.len() as u64),
            r is Ok ==> final(self).tasks@ == old(self).tasks@.push(
                created_task(old(self).tasks@.len() as u64, owner, data, now),
            ),
            r is Ok ==> final(self).events@ == old(self).events@.push(
                TaskEvent::Created(
                    (TaskCreated {
                        task_id: old(self).tasks@.len() as u64,
                        owner,
                        reward: data.reward,
                    }),
                ),
            ),
            r is Ok ==> final(self).clock == now && final(self).mode == old(self).mode && final(self).pool.authority == old(self).pool.authority && final(self).pool.reward_rate == old(self).pool.reward_rate,
            r is Ok && old(self).mode == SettlementMode::EscrowFixed ==> {
                &&& final(self).pool.total_staked == old(self).pool.total_staked + data.reward
                &&& final(self).ledger.escrow == old(self).ledger.escrow + data.reward
                &&& final(self).ledger.balance_spec(owner) == old(self).ledger.balance_spec(owner)
                    - data.reward
                &&& forall|a: u64| a != owner ==> final(self).ledger.balance_spec(a) == old(self).ledger.balance_spec(a)
            },
            r is Ok && old(self).mode == SettlementMode::MintWeighted ==> final(self).ledger
                == old(self).ledger && final(self).pool.total_staked == old(self).pool.total_staked,
            forall|i: int| 0 <= i < old(self).tasks@.len() ==> lifecycle_step(
                (#[trigger] old(self).tasks@[i]).status,
                final(self).tasks@[i].status,
            ),
    {
        if data.reward == 0 {
            return Err(ErrorCode::InvalidRewardAmount);
        }
        if data.deadline <= now {
            return Err(ErrorCode::InvalidDeadline);
        }
        let reward = data.reward;
        if self.mode == SettlementMode::EscrowFixed {
            match self.ledger.hold(owner, reward) {
                Ok(()) => {},
                Err(e) => {
                    return Err(e);
                },
            }
            self.pool.total_staked = self.pool.total_staked + reward;
        }
        let task_id = self.tasks.len() as u64;
        let ghost old_tasks = self.tasks@;
        let task = Task {
            task_id,
            owner,
            data,
            status: TaskStatus::Open,
            assigned_to: None,
            result: None,
            completed_by: None,
            created_at: now,
            assigned_at: None,
            completed_at: None,
        };
        let ghost new_task = task;
        self.tasks.push(task);
        self.events.push(TaskEvent::Created(TaskCreated { task_id, owner, reward }));
        self.clock = now;
        proof {
            lemma_escrow_sum_push(old_tasks, new_task, self.mode);
        }
        Ok(task_id)
    }

    /// The record an accepted assignment leaves behind: the same task, now
    /// `Assigned` to the given swarm as of the given time.
    pub open spec fn assigned_task(t: Task, assignee: u64, now: i64) -> Task {
        Task {
            status: TaskStatus::Assigned,
            assigned_to: Some(assignee),
            assigned_at: Some(now),
            ..t
        }
    }

    /// Assigns an `Open` task to a worker or swarm: the one transition
    /// `Open → Assigned`. A task that has already left `Open` is never
    /// assigned again; a task past its deadline is no longer assignable. No
    /// funds move. Emits an assignment event.
    pub fn assign_task(&mut self, task_id: u64, assignee: u64, now: i64) -> (r: Result<
        (),
        ErrorCode,
    >)
        requires
            old(self).wf(),
            now >= old(self).clock,
        ensures
            final(self).wf(),
            r is Ok <==> (task_id < old(self).tasks@.len() && old(self).tasks@[task_id as int].status
                == TaskStatus::Open && now <= old(self).tasks@[task_id as int].data.deadline),
            task_id >= old(self).tasks@.len() ==> r == Err::<(), ErrorCode>(ErrorCode::TaskNotFound),
            task_id < old(self).tasks@.len() && old(self).tasks@[task_id as int].status
                != TaskStatus::Open ==> r == Err::<(), ErrorCode>(ErrorCode::TaskAlreadyAssigned),
            task_id < old(self).tasks@.len() && old(self).tasks@[task_id as int].status
                == TaskStatus::Open && now > old(self).tasks@[task_id as int].data.deadline ==> r
                == Err::<(), ErrorCode>(ErrorCode::DeadlineElapsed),
            r is Err ==> *final(self) == *old(self),
            r is Ok ==> final(self).tasks@ == old(self).tasks@.update(
                task_id as int,
                Self::assigned_task(old(self).tasks@[task_id as int], assignee, now),
            ),
            r is Ok ==> final(self).events@ == old(self).events@.push(
                TaskEvent::Assigned((TaskAssigned { task_id, swarm_id: assignee })),
            ),
            r is Ok ==> final(self).pool == old(self).pool && final(self).ledger == old(self).ledger && final(self).mode == old(self).mode && final(self).clock == now,
            forall|i: int| 0 <= i < old(self).tasks@.len() ==> lifecycle_step(
                (#[trigger] old(self).tasks@[i]).status,
                final(self).tasks@[i].status,
            ),
    {
        if task_id >= self.tasks.len() as u64 {
            return Err(ErrorCode::TaskNotFound);
        }
        let i = task_id as usize;
        if !matches!(self.tasks[i].status, TaskStatus::Open) {
            return Err(ErrorCode::TaskAlreadyAssigned);
        }
        if now > self.tasks[i].data.deadline {
            return Err(ErrorCode::DeadlineElapsed);
        }
        let ghost old_tasks = self.tasks@;
        let t = &mut self.tasks[i];
        t.status = TaskStatus::Assigned;
        t.assigned_to = Some(assignee);
        t.assigned_at = Some(now);
        self.events.push(TaskEvent::Assigned(TaskAssigned { task_id, swarm_id: assignee }));
        self.clock = now;
        proof {
            lemma_escrow_sum_update(
                old_tasks,
                i as int,
                self.tasks@[i as int],
                self.mode,
            );
        }
        Ok(())
    }

    /// The worker or swarm a task is assigned to.
    pub open spec fn assignee_of(self, task_id: u64) -> u64 {
        self.tasks@[task_id as int].assigned_to->0
    }

    /// The amount one settlement moves: the full reward under fixed escrow
    /// release, the performance-weighted share under mint settlement. The
    /// score is read at settlement time, never cached from creation.
    pub open spec fn settlement_amount(self, task_id: u64, performance_score: u64) -> int {
        if self.mode == SettlementMode::EscrowFixed {
            self.tasks@[task_id as int].data.reward as int
        } else {
            weighted_reward(self.tasks@[task_id as int].data.reward, performance_score)
        }
    }

    /// Whether a completion call commits: the task exists and is `Assigned`,
    /// its deadline has not elapsed, the proof verifier accepts the
    /// submission against the task's requirements, the performance score is
    /// in range where it matters, and the worker's balance can receive the
    /// settlement.
    pub open spec fn completion_accepted(
        self,
        task_id: u64,
        result_bytes: Seq<u8>,
        compute_proof: Seq<u8>,
        performance_score: u64,
        now: i64,
    ) -> bool {
        &&& task_id < self.tasks@.len()
        &&& self.tasks@[task_id as int].status == TaskStatus::Assigned
        &&& now <= self.tasks@[task_id as int].data.deadline
        &&& computation_verified(
            compute_proof,
            result_bytes,
            self.tasks@[task_id as int].data.requirements@,
        )
        &&& (self.mode == SettlementMode::MintWeighted ==> performance_score <= 100)
        &&& self.ledger.balance_spec(self.assignee_of(task_id)) + self.settlement_amount(
            task_id,
            performance_score,
        ) <= u64::MAX
    }

    /// The record an accepted completion leaves behind: the same task, now
    /// `Completed`, carrying the submitted result, the settling caller and
    /// the settlement time.
    pub open spec fn completed_task(t: Task, result_bytes: Vec<u8>, caller: u64, now: i64) -> Task {
        Task {
            status: TaskStatus::Completed,
            result: Some(result_bytes),
            completed_by: Some(caller),
            completed_at: Some(now),
            ..t
        }
    }

    /// Completes an `Assigned` task: the one transition
    /// `Assigned → Completed`, and the only operation that pays a reward.
    ///
    /// Checked in order, before anything changes: the task must not already
    /// be completed, must be assigned and within its deadline, and the proof
    /// verifier must accept `(compute_proof, result_bytes)` against the
    /// task's requirements — a rejected submission changes no state and no
    /// funds and may be retried. Settlement then moves the amount of
    /// `settlement_amount` to the assigned worker — escrow release or mint,
    /// exactly one of the two — atomically with the status transition: if the
    /// fund movement fails, the task is left untouched. Returns the amount
    /// moved, which the completion event also carries.
    pub fn complete_task(
        &mut self,
        task_id: u64,
        caller: u64,
        result_bytes: Vec<u8>,
        compute_proof: Vec<u8>,
        performance_score: u64,
        now: i64,
    ) -> (r: Result<u64, ErrorCode>)
        requires
            old(self).wf(),
            now >= old(self).clock,
        ensures
            final(self).wf(),
            r is Ok <==> old(self).completion_accepted(
                task_id,
                result_bytes@,
                compute_proof@,
                performance_score,
                now,
            ),
            task_id >= old(self).tasks@.len() ==> r == Err::<u64, ErrorCode>(
                ErrorCode::TaskNotFound,
            ),
            task_id < old(self).tasks@.len() && old(self).tasks@[task_id as int].status
                == TaskStatus::Completed ==> r == Err::<u64, ErrorCode>(
                ErrorCode::TaskAlreadyCompleted,
            ),
            task_id < old(self).tasks@.len() && !(old(self).tasks@[task_id as int].status
                == TaskStatus::Completed) && !(old(self).tasks@[task_id as int].status
                == TaskStatus::Assigned) ==> r == Err::<u64, ErrorCode>(
                ErrorCode::InvalidTaskStatus,
            ),
            task_id < old(self).tasks@.len() && old(self).tasks@[task_id as int].status
                == TaskStatus::Assigned && now > old(self).tasks@[task_id as int].data.deadline
                ==> r == Err::<u64, ErrorCode>(ErrorCode::DeadlineElapsed),
            task_id < old(self).tasks@.len() && old(self).tasks@[task_id as int].status
                == TaskStatus::Assigned && now <= old(self).tasks@[task_id as int].data.deadline
                && !computation_verified(
                compute_proof@,
                result_bytes@,
                old(self).tasks@[task_id as int].data.requirements@,
            ) ==> r == Err::<u64, ErrorCode>(ErrorCode::InvalidComputeProof),
            task_id < old(self).tasks@.len() && old(self).tasks@[task_id as int].status
                == TaskStatus::Assigned && now <= old(self).tasks@[task_id as int].data.deadline
                && computation_verified(
                compute_proof@,
                result_bytes@,
                old(self).tasks@[task_id as int].data.requirements@,
            ) && old(self).mode == SettlementMode::MintWeighted && performance_score > 100 ==> r
                == Err::<u64, ErrorCode>(ErrorCode::InvalidRewardAmount),
            task_id < old(self).tasks@.len() && old(self).tasks@[task_id as int].status
                == TaskStatus::Assigned && now <= old(self).tasks@[task_id as int].data.deadline
                && computation_verified(
                compute_proof@,
                result_bytes@,
                old(self).tasks@[task_id as int].data.requirements@,
            ) && (old(self).mode == SettlementMode::MintWeighted ==> performance_score <= 100)
                && old(self).ledger.balance_spec(old(self).assignee_of(task_id)) + old(self).settlement_amount(task_id, performance_score) > u64::MAX ==> r == Err::<
                u64,
                ErrorCode,
            >(ErrorCode::InsufficientReward),
            r is Err ==> *final(self) == *old(self),
            r is Ok ==> r == Ok::<u64, ErrorCode>(
                old(self).settlement_amount(task_id, performance_score) as u64,
            ),
            r is Ok ==> final(self).tasks@ == old(self).tasks@.update(
                task_id as int,
                Self::completed_task(old(self).tasks@[task_id as int], result_bytes, caller, now),
            ),
            r is Ok ==> final(self).events@ == old(self).events@.push(
                TaskEvent::Completed(
                    (TaskCompleted {
                        task_id,
                        reward: old(self).settlement_amount(task_id, performance_score) as u64,
                    }),
                ),
            ),
            r is Ok ==> final(self).ledger.balance_spec(old(self).assignee_of(task_id)) == old(self).ledger.balance_spec(old(self).assignee_of(task_id)) + old(self).settlement_amount(
                task_id,
                performance_score,
            ),
            r is Ok ==> forall|a: u64| a != old(self).assignee_of(task_id) ==> final(self).ledger.balance_spec(a) == old(self).ledger.balance_spec(a),
            r is Ok && old(self).mode == SettlementMode::EscrowFixed ==> final(self).pool.total_staked == old(self).pool.total_staked - old(self).tasks@[task_id as int].data.reward
                && final(self).ledger.escrow == old(self).ledger.escrow - old(self).tasks@[task_id as int].data.reward,
            r is Ok && old(self).mode == SettlementMode::MintWeighted ==> final(self).pool.total_staked == old(self).pool.total_staked && final(self).ledger.escrow
                == old(self).ledger.escrow,
            r is Ok ==> final(self).clock == now && final(self).mode == old(self).mode && final(self).pool.authority == old(self).pool.authority && final(self).pool.reward_rate == old(self).pool.reward_rate,
            forall|i: int| 0 <= i < old(self).tasks@.len() ==> lifecycle_step(
                (#[trigger] old(self).tasks@[i]).status,
                final(self).tasks@[i].status,
            ),
    {
        if task_id >= self.tasks.len() as u64 {
            return Err(ErrorCode::TaskNotFound);
        }
        let i = task_id as usize;
        if matches!(self.tasks[i].status, TaskStatus::Completed) {
            return Err(ErrorCode::TaskAlreadyCompleted);
        }
        if !matches!(self.tasks[i].status, TaskStatus::Assigned) {
            return Err(ErrorCode::InvalidTaskStatus);
        }
        if now > self.tasks[i].data.deadline {
            return Err(ErrorCode::DeadlineElapsed);
        }
        if !verify_computation(&compute_proof, &result_bytes, &self.tasks[i].data.requirements) {
            return Err(ErrorCode::InvalidComputeProof);
        }
        proof {
            assert(task_wf(self.tasks@[i as int]));
        }
        let worker = self.tasks[i].assigned_to.unwrap();
        let reward = self.tasks[i].data.reward;
        let amount: u64;
        if matches!(self.mode, SettlementMode::EscrowFixed) {
            amount = reward;
            proof {
                lemma_escrow_sum_covers(self.tasks@, i as int, self.mode);
            }
            match self.ledger.release(worker, amount) {
                Ok(()) => {},
                Err(e) => {
                    return Err(e);
                },
            }
            self.pool.total_staked = self.pool.total_staked - amount;
        } else {
            if performance_score > 100 {
                return Err(ErrorCode::InvalidRewardAmount);
            }
            amount = calculate_reward(reward, performance_score);
            let authority = self.pool.authority;
            match self.ledger.issue(authority, worker, amount) {
                Ok(()) => {},
                Err(e) => {
                    return Err(e);
                },
            }
        }
        let ghost old_tasks = self.tasks@;
        let t = &mut self.tasks[i];
        t.status = TaskStatus::Completed;
        t.result = Some(result_bytes);
        t.completed_by = Some(caller);
        t.completed_at = Some(now);
        self.events.push(TaskEvent::Completed(TaskCompleted { task_id, reward: amount }));
        self.clock = now;
        proof {
            lemma_escrow_sum_update(old_tasks, i as int, self.tasks@[i as int], self.mode);
        }
        Ok(amount)
    }

    /// The record an accepted failure leaves behind: the same task, now
    /// `Failed`; whoever it was assigned to stays on record.
    pub open spec fn failed_task(t: Task) -> Task {
        Task { status: TaskStatus::Failed, ..t }
    }

    /// Fails a task that is still `Open` or `Assigned`: the authority's
    /// cancellation and timeout path, and the only other way a task leaves
    /// the escrow sum. In an escrow deployment the task's reward goes back to
    /// its creator atomically with the transition; a terminal task is never
    /// failed. Only the pool's authority may invoke this.
    pub fn fail_task(&mut self, task_id: u64, caller: u64, now: i64) -> (r: Result<(), ErrorCode>)
        requires
            old(self).wf(),
            now >= old(self).clock,
        ensures
            final(self).wf(),
            r is Ok <==> (task_id < old(self).tasks@.len() && caller == old(self).pool.authority
                && (old(self).tasks@[task_id as int].status == TaskStatus::Open || old(self).tasks@[task_id as int].status == TaskStatus::Assigned) && (old(self).mode
                == SettlementMode::EscrowFixed ==> old(self).ledger.balance_spec(
                old(self).tasks@[task_id as int].owner,
            ) + old(self).tasks@[task_id as int].data.reward <= u64::MAX)),
            task_id >= old(self).tasks@.len() ==> r == Err::<(), ErrorCode>(
                ErrorCode::TaskNotFound,
            ),
            task_id < old(self).tasks@.len() && caller != old(self).pool.authority ==> r == Err::<
                (),
                ErrorCode,
            >(ErrorCode::Unauthorized),
            task_id < old(self).tasks@.len() && caller == old(self).pool.authority && (old(self).tasks@[task_id as int].status == TaskStatus::Completed || old(self).tasks@[task_id as int].status == TaskStatus::Failed) ==> r == Err::<(), ErrorCode>(
                ErrorCode::InvalidTaskStatus,
            ),
            task_id < old(self).tasks@.len() && caller == old(self).pool.authority && (old(self).tasks@[task_id as int].status == TaskStatus::Open || old(self).tasks@[task_id as int].status == TaskStatus::Assigned) && old(self).mode == SettlementMode::EscrowFixed && old(self).ledger.balance_spec(
                old(self).tasks@[task_id as int].owner,
            ) + old(self).tasks@[task_id as int].data.reward > u64::MAX ==> r == Err::<
                (),
                ErrorCode,
            >(ErrorCode::InsufficientReward),
            r is Err ==> *final(self) == *old(self),
            r is Ok ==> final(self).tasks@ == old(self).tasks@.update(
                task_id as int,
                Self::failed_task(old(self).tasks@[task_id as int]),
            ),
            r is Ok ==> final(self).events@ == old(self).events@,
            r is Ok && old(self).mode == SettlementMode::EscrowFixed ==> {
                &&& final(self).pool.total_staked == old(self).pool.total_staked - old(self).tasks@[task_id as int].data.reward
                &&& final(self).ledger.escrow == old(self).ledger.escrow - old(self).tasks@[task_id as int].data.reward
                &&& final(self).ledger.balance_spec(old(self).tasks@[task_id as int].owner)
                    == old(self).ledger.balance_spec(old(self).tasks@[task_id as int].owner) + old(self).tasks@[task_id as int].data.reward
                &&& forall|a: u64| a != old(self).tasks@[task_id as int].owner ==> final(self).ledger.balance_spec(a) == old(self).ledger.balance_spec(a)
            },
            r is Ok && old(self).mode == SettlementMode::MintWeighted ==> final(self).ledger
                == old(self).ledger && final(self).pool.total_staked == old(self).pool.total_staked,
            r is Ok ==> final(self).clock == now && final(self).mode == old(self).mode && final(self).pool.authority == old(self).pool.authority && final(self).pool.reward_rate == old(self).pool.reward_rate,
            forall|i: int| 0 <= i < old(self).tasks@.len() ==> lifecycle_step(
                (#[trigger] old(self).tasks@[i]).status,
                final(self).tasks@[i].status,
            ),
    {
        if task_id >= self.tasks.len() as u64 {
            return Err(ErrorCode::TaskNotFound);
        }
        if caller != self.pool.authority {
            return Err(ErrorCode::Unauthorized);
        }
        let i = task_id as usize;
        if matches!(self.tasks[i].status, TaskStatus::Completed) || matches!(
            self.tasks[i].status,
            TaskStatus::Failed,
        ) {
            return Err(ErrorCode::InvalidTaskStatus);
        }
        let owner = self.tasks[i].owner;
        let reward = self.tasks[i].data.reward;
        if matches!(self.mode, SettlementMode::EscrowFixed) {
            proof {
                lemma_escrow_sum_covers(self.tasks@, i as int, self.mode);
            }
            match self.ledger.release(owner, reward) {
                Ok(()) => {},
                Err(e) => {
                    return Err(e);
                },
            }
            self.pool.total_staked = self.pool.total_staked - reward;
        }
        let ghost old_tasks = self.tasks@;
        let t = &mut self.tasks[i];
        t.status = TaskStatus::Failed;
        self.clock = now;
        proof {
            lemma_escrow_sum_update(old_tasks, i as int, self.tasks@[i as int], self.mode);
        }
        Ok(())
    }

    /// Looks a task record up by its identifier.
    pub fn get_task(&self, task_id: u64) -> (r: Option<&Task>)
        ensures
            match r {
                Some(t) => task_id < self.tasks@.len() && *t == self.tasks@[task_id as int],
                None => task_id >= self.tasks@.len(),
            },
    {
        if task_id >= self.tasks.len() as u64 {
            return None;
        }
        Some(&self.tasks[task_id as usize])
    }
}

/// Escrow conservation: in every well-formed registry state the pool's
/// aggregate stake equals the sum of the escrowed rewards of its `Open` and
/// `Assigned` tasks, and equals the funds the ledger holds in custody. Each
/// operation keeps the registry well-formed, so this holds for all time; at
/// completion or failure a task's contribution leaves the sum, the stake and
/// the custody pot together, exactly once.
pub proof fn lemma_escrow_conservation(r: TaskRegistry)
    requires
        r.wf(),
    ensures
        r.pool.total_staked as int == escrow_sum(r.tasks@, r.mode),
        r.ledger.escrow == r.pool.total_staked,
{
}

} // verus!
