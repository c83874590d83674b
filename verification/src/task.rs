//! The task record: one unit of requested computation with its settlement
//! data, and the well-formedness that ties its fields to its lifecycle status.

use vstd::prelude::*;
use crate::lifecycle::TaskStatus;

verus! {

/// The payload a creator attaches to a task.
pub struct TaskData {
    /// Free-form label naming the kind of computation requested.
    pub task_type: String,
    /// Opaque requirements blob; an accepted compute proof attests the result
    /// against exactly these bytes.
    pub requirements: Vec<u8>,
    /// The reward in the smallest token unit; positive, fixed at creation,
    /// never mutated.
    pub reward: u64,
    /// Absolute timestamp after which the task can no longer be assigned or
    /// completed.
    pub deadline: i64,
}

/// One task record. Records are never deleted: `Completed` and `Failed` are
/// terminal, but the record persists for audit.
pub struct Task {
    /// Unique identifier, assigned at creation and never reused.
    pub task_id: u64,
    /// The party that posted the task; immutable after creation.
    pub owner: u64,
    /// The posted payload; immutable after creation.
    pub data: TaskData,
    /// Where the task stands in its lifecycle.
    pub status: TaskStatus,
    /// The worker or swarm the task was assigned to; set exactly once, only
    /// from `Open`.
    pub assigned_to: Option<u64>,
    /// The submitted result blob; set exactly once, on completion.
    pub result: Option<Vec<u8>>,
    /// The identity that settled the task.
    pub completed_by: Option<u64>,
    /// When the task was created.
    pub created_at: i64,
    /// When the task was assigned, if it ever was.
    pub assigned_at: Option<i64>,
    /// When the task was completed, if it ever was.
    pub completed_at: Option<i64>,
}

/// Well-formedness of one task record: a positive reward, a deadline beyond
/// creation, and per-status agreement of the optional fields — an `Open` task
/// has no assignee or result, an `Assigned` task an assignee but no result, a
/// `Completed` task all of assignee, result and settler, a `Failed` task never
/// a result. Timestamps that exist never precede creation.
pub open spec fn task_wf(t: Task) -> bool {
    &&& t.data.reward > 0
    &&& t.created_at < t.data.deadline
    &&& match t.status {
        TaskStatus::Open => {
            &&& t.assigned_to is None
            &&& t.result is None
            &&& t.completed_by is None
            &&& t.assigned_at is None
            &&& t.completed_at is None
        },
        TaskStatus::Assigned => {
            &&& t.assigned_to is Some
            &&& t.result is None
            &&& t.completed_by is None
            &&& t.assigned_at is Some
            &&& t.created_at <= t.assigned_at->0
            &&& t.completed_at is None
        },
        TaskStatus::Completed => {
            &&& t.assigned_to is Some
            &&& t.result is Some
            &&& t.completed_by is Some
            &&& t.assigned_at is Some
            &&& t.completed_at is Some
            &&& t.created_at <= t.assigned_at->0
            &&& t.assigned_at->0 <= t.completed_at->0
        },
        TaskStatus::Failed => {
            &&& t.result is None
            &&& t.completed_by is None
            &&& t.completed_at is None
            &&& (t.assigned_to is Some <==> t.assigned_at is Some)
            &&& (t.assigned_at is Some ==> t.created_at <= t.assigned_at->0)
        },
    }
}

/// The latest timestamp a task record carries.
pub open spec fn task_last_time(t: Task) -> int {
    if t.completed_at is Some {
        t.completed_at->0 as int
    } else if t.assigned_at is Some {
        t.assigned_at->0 as int
    } else {
        t.created_at as int
    }
}

} // verus!
