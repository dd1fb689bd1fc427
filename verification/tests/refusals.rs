use taskblitz::{
    approve_submission, cancel_task, reject_submission, submit_work, Account, Address,
    ApproveSubmission, CancelTask, ErrorCode, RejectSubmission, Submission, SubmissionStatus,
    SubmitWork, Task, TaskStatus,
};

const REQUESTER: Address = Address { hi: 1, lo: 10 };
const STRANGER: Address = Address { hi: 1, lo: 11 };
const ESCROW: Address = Address { hi: 2, lo: 20 };
const TASK_KEY: Address = Address { hi: 3, lo: 30 };
const PLATFORM: Address = Address { hi: 4, lo: 40 };
const WORKER: Address = Address { hi: 5, lo: 50 };

/// An active task of 3 workers at 100 each and 5%, one of them paid.
fn task() -> Task {
    Task {
        task_id: "t".to_string(),
        requester: REQUESTER,
        payment_per_worker: 100,
        workers_needed: 3,
        workers_completed: 1,
        platform_fee_bps: 500,
        escrow_amount: 315,
        created_at: 1,
        status: TaskStatus::Active,
    }
}

fn submission(status: SubmissionStatus) -> Submission {
    Submission {
        submission_id: "s".to_string(),
        task: TASK_KEY,
        worker: WORKER,
        submitted_at: 2,
        reviewed_at: match status {
            SubmissionStatus::Pending => None,
            _ => Some(3),
        },
        status,
    }
}

fn approval() -> ApproveSubmission {
    ApproveSubmission {
        task: task(),
        submission: submission(SubmissionStatus::Pending),
        escrow: Account { key: ESCROW, lamports: 210 },
        requester: REQUESTER,
        worker: Account { key: WORKER, lamports: 0 },
        platform_wallet: Account { key: PLATFORM, lamports: 5 },
    }
}

fn rejection() -> RejectSubmission {
    RejectSubmission {
        task: task(),
        submission: submission(SubmissionStatus::Pending),
        requester: REQUESTER,
    }
}

fn cancellation() -> CancelTask {
    CancelTask {
        task: task(),
        escrow: Account { key: ESCROW, lamports: 210 },
        requester: Account { key: REQUESTER, lamports: 1_000 },
    }
}

fn submitting() -> SubmitWork {
    SubmitWork {
        submission: submission(SubmissionStatus::Rejected),
        task: task(),
        task_key: TASK_KEY,
        worker: WORKER,
    }
}

fn refused_approval(before: ApproveSubmission, error: ErrorCode) {
    let mut ctx = before.clone();
    assert_eq!(approve_submission(&mut ctx, 9), Err(error));
    assert_eq!(ctx, before);
}

fn refused_rejection(before: RejectSubmission, error: ErrorCode) {
    let mut ctx = before.clone();
    assert_eq!(reject_submission(&mut ctx, 9), Err(error));
    assert_eq!(ctx, before);
}

fn refused_cancellation(before: CancelTask, error: ErrorCode) {
    let mut ctx = before.clone();
    assert_eq!(cancel_task(&mut ctx), Err(error));
    assert_eq!(ctx, before);
}

fn refused_submitting(before: SubmitWork, error: ErrorCode) {
    let mut ctx = before.clone();
    assert_eq!(submit_work(&mut ctx, "new".to_string(), 9), Err(error));
    assert_eq!(ctx, before);
}

#[test]
fn the_contexts_of_these_tests_are_accepted() {
    let mut ctx = approval();
    assert_eq!(approve_submission(&mut ctx, 9), Ok(()));
    assert_eq!(ctx.task.workers_completed, 2);
    assert_eq!(ctx.task.status, TaskStatus::Active);
    assert_eq!(ctx.escrow.lamports, 105);
    assert_eq!(ctx.worker.lamports, 100);
    assert_eq!(ctx.platform_wallet.lamports, 10);
    assert_eq!(ctx.requester, REQUESTER);
    assert_eq!(ctx.submission.status, SubmissionStatus::Approved);
    assert_eq!(ctx.submission.reviewed_at, Some(9));

    let mut ctx = rejection();
    assert_eq!(reject_submission(&mut ctx, 9), Ok(()));
    assert_eq!(ctx.task, task());
    assert_eq!(ctx.requester, REQUESTER);
    assert_eq!(ctx.submission.status, SubmissionStatus::Rejected);
    assert_eq!(ctx.submission.reviewed_at, Some(9));

    let mut ctx = cancellation();
    assert_eq!(cancel_task(&mut ctx), Ok(()));
    assert_eq!(ctx.task.status, TaskStatus::Cancelled);
    assert_eq!(ctx.escrow.lamports, 0);
    assert_eq!(ctx.requester.lamports, 1_210);

    let mut ctx = submitting();
    assert_eq!(submit_work(&mut ctx, "new".to_string(), 9), Ok(()));
    assert_eq!(ctx.submission.status, SubmissionStatus::Pending);
    assert_eq!(ctx.submission.submission_id, "new");
}

#[test]
fn approve_by_a_stranger_is_unauthorized() {
    let mut ctx = approval();
    ctx.requester = STRANGER;
    refused_approval(ctx, ErrorCode::Unauthorized);
    // the worker is a stranger too
    let mut ctx = approval();
    ctx.requester = WORKER;
    refused_approval(ctx, ErrorCode::Unauthorized);
    // one half of the address is not enough
    let mut ctx = approval();
    ctx.requester = Address { hi: REQUESTER.hi, lo: 0 };
    refused_approval(ctx, ErrorCode::Unauthorized);
    let mut ctx = approval();
    ctx.requester = Address { hi: 0, lo: REQUESTER.lo };
    refused_approval(ctx, ErrorCode::Unauthorized);
}

#[test]
fn reject_by_a_stranger_is_unauthorized() {
    let mut ctx = rejection();
    ctx.requester = STRANGER;
    refused_rejection(ctx, ErrorCode::Unauthorized);
}

#[test]
fn cancel_by_a_stranger_is_unauthorized() {
    let mut ctx = cancellation();
    ctx.requester.key = STRANGER;
    refused_cancellation(ctx, ErrorCode::Unauthorized);
}

#[test]
fn a_stranger_is_unauthorized_whatever_else_is_wrong() {
    for status in [TaskStatus::Completed, TaskStatus::Cancelled] {
        for verdict in [SubmissionStatus::Approved, SubmissionStatus::Rejected] {
            let mut ctx = approval();
            ctx.requester = STRANGER;
            ctx.task.status = status;
            ctx.submission = submission(verdict);
            ctx.escrow.lamports = 0;
            refused_approval(ctx, ErrorCode::Unauthorized);

            let mut ctx = rejection();
            ctx.requester = STRANGER;
            ctx.task.status = status;
            ctx.submission = submission(verdict);
            refused_rejection(ctx, ErrorCode::Unauthorized);
        }
        let mut ctx = cancellation();
        ctx.requester.key = STRANGER;
        ctx.task.status = status;
        ctx.escrow.lamports = 0;
        refused_cancellation(ctx, ErrorCode::Unauthorized);
    }
}

#[test]
fn nothing_is_done_to_a_completed_or_cancelled_task() {
    for status in [TaskStatus::Completed, TaskStatus::Cancelled] {
        let mut ctx = approval();
        ctx.task.status = status;
        refused_approval(ctx, ErrorCode::TaskNotActive);

        let mut ctx = rejection();
        ctx.task.status = status;
        refused_rejection(ctx, ErrorCode::TaskNotActive);

        let mut ctx = cancellation();
        ctx.task.status = status;
        refused_cancellation(ctx, ErrorCode::TaskNotActive);

        let mut ctx = submitting();
        ctx.task.status = status;
        refused_submitting(ctx, ErrorCode::TaskNotActive);
    }
}

#[test]
fn a_review_looks_at_the_submission_before_the_task() {
    for status in [TaskStatus::Active, TaskStatus::Completed, TaskStatus::Cancelled] {
        for verdict in [SubmissionStatus::Approved, SubmissionStatus::Rejected] {
            let mut ctx = approval();
            ctx.task.status = status;
            ctx.submission = submission(verdict);
            refused_approval(ctx, ErrorCode::InvalidStatus);

            let mut ctx = rejection();
            ctx.task.status = status;
            ctx.submission = submission(verdict);
            refused_rejection(ctx, ErrorCode::InvalidStatus);
        }
    }
    // ... and at the task before its slots and the amounts
    let mut ctx = approval();
    ctx.task.status = TaskStatus::Completed;
    ctx.task.workers_completed = 3;
    ctx.escrow.lamports = 0;
    refused_approval(ctx, ErrorCode::TaskNotActive);
    let mut ctx = approval();
    ctx.submission = submission(SubmissionStatus::Approved);
    ctx.task.workers_completed = 3;
    ctx.escrow.lamports = 0;
    refused_approval(ctx, ErrorCode::InvalidStatus);
}

#[test]
fn a_reviewed_submission_is_not_reviewed_again() {
    for verdict in [SubmissionStatus::Approved, SubmissionStatus::Rejected] {
        let mut ctx = approval();
        ctx.submission = submission(verdict);
        refused_approval(ctx, ErrorCode::InvalidStatus);

        let mut ctx = rejection();
        ctx.submission = submission(verdict);
        refused_rejection(ctx, ErrorCode::InvalidStatus);
    }
}

#[test]
fn approve_overflows_where_the_fee_cannot_be_computed() {
    let mut ctx = approval();
    ctx.task.payment_per_worker = u64::MAX / 500 + 1;
    ctx.escrow.lamports = u64::MAX;
    refused_approval(ctx, ErrorCode::Overflow);
}

#[test]
fn approve_overflows_where_escrow_is_short() {
    let mut ctx = approval();
    ctx.escrow.lamports = 104;
    refused_approval(ctx, ErrorCode::Overflow);
    let mut ctx = approval();
    ctx.escrow.lamports = 99;
    refused_approval(ctx, ErrorCode::Overflow);
    let mut ctx = approval();
    ctx.escrow.lamports = 105;
    assert_eq!(approve_submission(&mut ctx, 9), Ok(()));
    assert_eq!(ctx.escrow.lamports, 0);
}

#[test]
fn approve_overflows_where_a_receiver_has_no_room() {
    let mut ctx = approval();
    ctx.worker.lamports = u64::MAX - 99;
    refused_approval(ctx, ErrorCode::Overflow);
    let mut ctx = approval();
    ctx.platform_wallet.lamports = u64::MAX - 4;
    refused_approval(ctx, ErrorCode::Overflow);
    let mut ctx = approval();
    ctx.worker.lamports = u64::MAX - 100;
    ctx.platform_wallet.lamports = u64::MAX - 5;
    assert_eq!(approve_submission(&mut ctx, 9), Ok(()));
    assert_eq!(ctx.worker.lamports, u64::MAX);
    assert_eq!(ctx.platform_wallet.lamports, u64::MAX);
}

#[test]
fn approve_refuses_a_task_whose_slots_are_all_paid() {
    let mut ctx = approval();
    ctx.task.workers_completed = 3;
    refused_approval(ctx, ErrorCode::TaskFull);
    let mut ctx = approval();
    ctx.task.workers_completed = 4;
    refused_approval(ctx, ErrorCode::TaskFull);
    let mut ctx = approval();
    ctx.task.workers_completed = u8::MAX;
    refused_approval(ctx, ErrorCode::TaskFull);
    let mut ctx = approval();
    ctx.task.workers_needed = u8::MAX;
    ctx.task.workers_completed = u8::MAX;
    refused_approval(ctx, ErrorCode::TaskFull);
    // the slots are looked at before the amounts
    let mut ctx = approval();
    ctx.task.workers_completed = 3;
    ctx.escrow.lamports = 0;
    ctx.worker.lamports = u64::MAX;
    refused_approval(ctx, ErrorCode::TaskFull);
}

#[test]
fn approve_pays_the_last_of_the_most_slots_a_task_can_have() {
    let mut ctx = approval();
    ctx.task.workers_needed = u8::MAX;
    ctx.task.workers_completed = u8::MAX - 1;
    assert_eq!(approve_submission(&mut ctx, 9), Ok(()));
    assert_eq!(ctx.task.workers_completed, u8::MAX);
    assert_eq!(ctx.task.status, TaskStatus::Completed);
}

#[test]
fn approve_completes_the_task_with_the_last_slot_only() {
    let mut ctx = approval();
    ctx.task.workers_completed = 2;
    assert_eq!(approve_submission(&mut ctx, 9), Ok(()));
    assert_eq!(ctx.task.workers_completed, 3);
    assert_eq!(ctx.task.status, TaskStatus::Completed);

    let mut ctx = approval();
    ctx.task.workers_completed = 0;
    assert_eq!(approve_submission(&mut ctx, 9), Ok(()));
    assert_eq!(ctx.task.workers_completed, 1);
    assert_eq!(ctx.task.status, TaskStatus::Active);
}

#[test]
fn approve_pays_the_worker_that_the_caller_names() {
    // The payout goes to the account in the context, whoever made the submission.
    let mut ctx = approval();
    ctx.worker = Account { key: STRANGER, lamports: 1 };
    assert_eq!(approve_submission(&mut ctx, 9), Ok(()));
    assert_eq!(ctx.worker, Account { key: STRANGER, lamports: 101 });
    assert_eq!(ctx.submission.worker, WORKER);
}

#[test]
fn cancel_overflows_where_the_payments_made_cannot_be_computed() {
    let mut ctx = cancellation();
    ctx.task.payment_per_worker = u64::MAX;
    ctx.task.workers_completed = 2;
    refused_cancellation(ctx, ErrorCode::Overflow);
    // the product with the rate
    let mut ctx = cancellation();
    ctx.task.payment_per_worker = u64::MAX / 500 + 1;
    ctx.task.escrow_amount = u64::MAX;
    refused_cancellation(ctx, ErrorCode::Overflow);
}

#[test]
fn cancel_overflows_where_more_was_paid_than_was_locked() {
    // the payments alone
    let mut ctx = cancellation();
    ctx.task.escrow_amount = 99;
    refused_cancellation(ctx, ErrorCode::Overflow);
    // the payments and the fee on them
    let mut ctx = cancellation();
    ctx.task.escrow_amount = 104;
    refused_cancellation(ctx, ErrorCode::Overflow);
    let mut ctx = cancellation();
    ctx.task.escrow_amount = 105;
    assert_eq!(cancel_task(&mut ctx), Ok(()));
    assert_eq!(ctx.escrow.lamports, 210);
    assert_eq!(ctx.requester.lamports, 1_000);
    assert_eq!(ctx.task.status, TaskStatus::Cancelled);
}

#[test]
fn cancel_overflows_where_escrow_is_short() {
    let mut ctx = cancellation();
    ctx.escrow.lamports = 209;
    refused_cancellation(ctx, ErrorCode::Overflow);
}

#[test]
fn cancel_overflows_where_the_requester_has_no_room() {
    let mut ctx = cancellation();
    ctx.requester.lamports = u64::MAX - 209;
    refused_cancellation(ctx, ErrorCode::Overflow);
    let mut ctx = cancellation();
    ctx.requester.lamports = u64::MAX - 210;
    assert_eq!(cancel_task(&mut ctx), Ok(()));
    assert_eq!(ctx.requester.lamports, u64::MAX);
}

#[test]
fn cancel_leaves_what_escrow_holds_beyond_the_refund() {
    let mut ctx = cancellation();
    ctx.escrow.lamports = 250;
    assert_eq!(cancel_task(&mut ctx), Ok(()));
    assert_eq!(ctx.escrow, Account { key: ESCROW, lamports: 40 });
    assert_eq!(ctx.requester, Account { key: REQUESTER, lamports: 1_210 });
    let mut after = task();
    after.status = TaskStatus::Cancelled;
    assert_eq!(ctx.task, after);
}

#[test]
fn submit_to_a_full_task_is_refused() {
    let mut ctx = submitting();
    ctx.task.workers_completed = 3;
    refused_submitting(ctx, ErrorCode::TaskFull);
    let mut ctx = submitting();
    ctx.task.workers_completed = 4;
    refused_submitting(ctx, ErrorCode::TaskFull);
    let mut ctx = submitting();
    ctx.task.workers_needed = 0;
    ctx.task.workers_completed = 0;
    refused_submitting(ctx, ErrorCode::TaskFull);
    let mut ctx = submitting();
    ctx.task.workers_completed = 2;
    assert_eq!(submit_work(&mut ctx, "new".to_string(), 9), Ok(()));
}

#[test]
fn submit_looks_at_the_status_before_the_slots() {
    let mut ctx = submitting();
    ctx.task.workers_completed = 3;
    ctx.task.status = TaskStatus::Completed;
    refused_submitting(ctx, ErrorCode::TaskNotActive);
}

#[test]
fn submit_is_open_to_any_caller() {
    for worker in [WORKER, STRANGER, REQUESTER] {
        let mut ctx = submitting();
        ctx.worker = worker;
        assert_eq!(submit_work(&mut ctx, "new".to_string(), 9), Ok(()));
        assert_eq!(ctx.submission.worker, worker);
        assert_eq!(ctx.submission.task, TASK_KEY);
    }
}

#[test]
fn a_task_without_slots_takes_no_approval() {
    // not even one that pays nothing
    let mut ctx = approval();
    ctx.task.workers_needed = 0;
    ctx.task.workers_completed = 0;
    ctx.task.payment_per_worker = 0;
    ctx.task.escrow_amount = 0;
    ctx.escrow.lamports = 0;
    refused_approval(ctx, ErrorCode::TaskFull);

    let mut ctx = approval();
    ctx.task.workers_needed = 0;
    ctx.task.workers_completed = 0;
    ctx.task.escrow_amount = 0;
    refused_approval(ctx, ErrorCode::TaskFull);
}
