//! The error taxonomy of the marketplace: every failing operation reports a
//! specific kind, aborts whole, and leaves no partial effects.

use vstd::prelude::*;

verus! {

/// Why an operation on the task registry or the settlement ledger failed.
///
/// Precondition violations and verification failures are caller errors: the
/// operation reports them immediately and changes nothing.
#[derive(Clone, Copy, Debug, PartialEq, Eq, Structural)]
pub enum ErrorCode {
    /// No task record exists under the given identifier.
    TaskNotFound,
    /// The task has already left the `Open` state; a second assignment never
    /// succeeds.
    TaskAlreadyAssigned,
    /// The task has already been settled; a second completion never succeeds.
    TaskAlreadyCompleted,
    /// The task is not in the state the operation needs (completing an
    /// unassigned task, failing a task that is already terminal).
    InvalidTaskStatus,
    /// The deadline handed to `create_task` does not lie in the future.
    InvalidDeadline,
    /// The task's deadline has elapsed; it can no longer be assigned or
    /// completed.
    DeadlineElapsed,
    /// The submitted compute proof does not attest the submitted result; the
    /// submission is rejected and may be retried with a valid proof.
    InvalidComputeProof,
    /// A reward amount outside the rules: a task posted with a zero reward, or
    /// a performance score above 100.
    InvalidRewardAmount,
    /// A fund movement could not be carried out: the payer's balance is short,
    /// or a balance or the escrow pot would overflow.
    InsufficientReward,
    /// The caller is not the authority the operation demands.
    Unauthorized,
}

} // verus!
