//! What each instruction is handed: the records it works on, the balances it
//! moves, and the address of the caller.
//!
//! Every field is a value of its own. An instruction changes the context it is
//! given and nothing else; whoever runs it writes the records and the balances
//! back to where they are kept.

use crate::state::{Account, Address, Submission, Task};
use vstd::prelude::*;

verus! {

/// For `create_task`.
#[derive(Clone, Debug, PartialEq, Eq)]
pub struct CreateTask {
    /// The record that is filled in; what it held before is of no account.
    pub task: Task,
    /// Where the funds of the task are locked.
    pub escrow: Account,
    /// The caller, who funds the task.
    pub requester: Account,
}

/// For `submit_work`.
#[derive(Clone, Debug, PartialEq, Eq)]
pub struct SubmitWork {
    /// The record that is filled in; what it held before is of no account.
    pub submission: Submission,
    pub task: Task,
    /// The address at which `task` is kept.
    pub task_key: Address,
    /// The caller, who did the work.
    pub worker: Address,
}

/// For `approve_submission`.
#[derive(Clone, Debug, PartialEq, Eq)]
pub struct ApproveSubmission {
    pub task: Task,
    pub submission: Submission,
    /// The funds locked for `task`.
    pub escrow: Account,
    /// The caller.
    pub requester: Address,
    /// Where the payment goes.
    pub worker: Account,
    /// Where the fee goes.
    pub platform_wallet: Account,
}

/// For `reject_submission`.
#[derive(Clone, Debug, PartialEq, Eq)]
pub struct RejectSubmission {
    pub task: Task,
    pub submission: Submission,
    /// The caller.
    pub requester: Address,
}

/// For `cancel_task`.
#[derive(Clone, Debug, PartialEq, Eq)]
pub struct CancelTask {
    pub task: Task,
    /// The funds locked for `task`.
    pub escrow: Account,
    /// The caller, to whom the refund goes.
    pub requester: Account,
}

} // verus!
