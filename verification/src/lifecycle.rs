//! The task lifecycle: the four statuses, the legal moves between them, and
//! the proofs that along any run of the registry a task is assigned at most
//! once, completed at most once, and never steps backwards.

use vstd::prelude::*;

verus! {

/// The lifecycle states of a task. `Open` → `Assigned` → `Completed`, or
/// `Open`/`Assigned` → `Failed`; `Completed` and `Failed` are terminal, and no
/// transition ever reverses.
#[derive(Clone, Copy, Debug, PartialEq, Eq, Structural)]
pub enum TaskStatus {
    /// Created and funded, not yet claimed by any worker.
    Open,
    /// Claimed by exactly one worker or swarm.
    Assigned,
    /// Settled against an accepted compute proof; terminal.
    Completed,
    /// Abandoned by authority decision; escrowed funds went back to the
    /// creator; terminal.
    Failed,
}

/// One legal lifecycle move: stay put, or follow a single arrow of
/// `Open → Assigned`, `Open → Failed`, `Assigned → Completed`,
/// `Assigned → Failed`.
pub open spec fn lifecycle_step(pre: TaskStatus, post: TaskStatus) -> bool {
    ||| pre == post
    ||| (pre == TaskStatus::Open && (post == TaskStatus::Assigned || post == TaskStatus::Failed))
    ||| (pre == TaskStatus::Assigned && (post == TaskStatus::Completed
        || post == TaskStatus::Failed))
}

/// Which statuses a task may still show later, given its status now: the
/// reflexive-transitive closure of `lifecycle_step`. Nothing is reachable from
/// a terminal status but itself, and `Open` is reachable from nothing else.
pub open spec fn lifecycle_reach(pre: TaskStatus, post: TaskStatus) -> bool {
    ||| pre == post
    ||| (pre == TaskStatus::Open && post != TaskStatus::Open)
    ||| (pre == TaskStatus::Assigned && (post == TaskStatus::Completed
        || post == TaskStatus::Failed))
}

/// An observed status history of one task: it starts at `Open` (every task is
/// created there) and each observation follows the previous one by a legal
/// lifecycle move. Every run of registry operations produces such a history,
/// since each operation guarantees `lifecycle_step` between the statuses it
/// leaves behind.
pub open spec fn valid_history(h: Seq<TaskStatus>) -> bool {
    &&& h.len() > 0
    &&& h[0] == TaskStatus::Open
    &&& forall|i: int| 0 <= i < h.len() - 1 ==> lifecycle_step(h[i], #[trigger] h[i + 1])
}

/// Reachability runs along every chain of legal moves.
proof fn lemma_history_reach(h: Seq<TaskStatus>, i: int, j: int)
    requires
        forall|k: int| 0 <= k < h.len() - 1 ==> lifecycle_step(h[k], #[trigger] h[k + 1]),
        0 <= i <= j < h.len(),
    ensures
        lifecycle_reach(h[i], h[j]),
    decreases j - i,
{
    if i < j {
        lemma_history_reach(h, i, j - 1);
        assert(lifecycle_step(h[j - 1], h[j - 1 + 1]));
    }
}

/// A valid history grows one observation at a time: any legal move from its
/// last status keeps it valid. Together with the `lifecycle_step` guarantee
/// every registry operation gives for every task, the statuses observed over
/// any run of operations form a valid history.
pub proof fn lemma_history_extend(h: Seq<TaskStatus>, s: TaskStatus)
    requires
        valid_history(h),
        lifecycle_step(h.last(), s),
    ensures
        valid_history(h.push(s)),
{
    let h2 = h.push(s);
    assert forall|i: int| 0 <= i < h2.len() - 1 implies lifecycle_step(
        h2[i],
        #[trigger] h2[i + 1],
    ) by {
        if i < h.len() - 1 {
            assert(lifecycle_step(h[i], h[i + 1]));
        }
    }
}

/// Monotone lifecycle: along any valid history, every later status is
/// reachable from every earlier one — the observed sequence is a subsequence
/// of `Open, Assigned, Completed` or of `Open, Assigned, Failed` or of
/// `Open, Failed`, never another order — and a terminal status never changes
/// again.
pub proof fn lemma_monotone_lifecycle(h: Seq<TaskStatus>)
    requires
        valid_history(h),
    ensures
        forall|i: int, j: int| 0 <= i <= j < h.len()
            ==> lifecycle_reach(#[trigger] h[i], #[trigger] h[j]),
        forall|i: int, j: int| 0 <= i <= j < h.len()
            && (h[i] == TaskStatus::Completed || h[i] == TaskStatus::Failed) ==> h[j] == h[i],
{
    assert forall|i: int, j: int| 0 <= i <= j < h.len() implies lifecycle_reach(h[i], h[j]) by {
        lemma_history_reach(h, i, j);
    }
    assert forall|i: int, j: int|
        0 <= i <= j < h.len() && (h[i] == TaskStatus::Completed
            || h[i] == TaskStatus::Failed) implies h[j] == h[i] by {
        lemma_history_reach(h, i, j);
    }
}

/// Single assignment: a valid history moves from `Open` to `Assigned` at most
/// once. Since `assign_task` succeeds exactly on an `Open` task and leaves it
/// `Assigned`, at most one `assign_task` call on a task ever succeeds.
pub proof fn lemma_single_assignment(h: Seq<TaskStatus>, i: int, j: int)
    requires
        valid_history(h),
        0 <= i < h.len() - 1,
        0 <= j < h.len() - 1,
        h[i] == TaskStatus::Open && h[i + 1] == TaskStatus::Assigned,
        h[j] == TaskStatus::Open && h[j + 1] == TaskStatus::Assigned,
    ensures
        i == j,
{
    if i < j {
        lemma_history_reach(h, i + 1, j);
    }
    if j < i {
        lemma_history_reach(h, j + 1, i);
    }
}

/// Single completion: a valid history enters `Completed` at most once. Since
/// `complete_task` succeeds exactly on an `Assigned` task, leaves it
/// `Completed`, and moves the reward only then, the reward of a task is moved
/// at most once.
pub proof fn lemma_single_completion(h: Seq<TaskStatus>, i: int, j: int)
    requires
        valid_history(h),
        0 <= i < h.len() - 1,
        0 <= j < h.len() - 1,
        h[i] != TaskStatus::Completed && h[i + 1] == TaskStatus::Completed,
        h[j] != TaskStatus::Completed && h[j + 1] == TaskStatus::Completed,
    ensures
        i == j,
{
    if i < j {
        lemma_history_reach(h, i + 1, j);
    }
    if j < i {
        lemma_history_reach(h, j + 1, i);
    }
}

} // verus!
