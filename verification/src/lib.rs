//! Escrow accounting for a task marketplace.
//!
//! A requester locks funds for a number of worker slots, workers submit
//! work, and the requester approves or rejects each submission. An approval
//! releases one fixed payment and the platform's fee on it from escrow; a
//! cancellation returns what is not owed for work already approved.
//!
//! The crate holds the records, the fee arithmetic, the five instructions
//! as transitions on plain values, and the properties that hold of them.
//! Where the records and the balances are kept, what time it is and who
//! signed a call is for the ledger that runs the instructions to say.

pub mod contexts;
pub mod fees;
pub mod instructions;
pub mod laws;
pub mod state;

pub use fees::{escrow_amount, platform_fee, total_payment};
pub use state::{
    id_fits, transfer, Account, Address, CreateTaskError, ErrorCode, Submission,
    SubmissionStatus, Task, TaskStatus, MAX_ID_LEN,
};
pub use contexts::{ApproveSubmission, CancelTask, CreateTask, RejectSubmission, SubmitWork};
pub use instructions::{
    approve_submission, cancel_task, create_task, reject_submission, submit_work,
};
