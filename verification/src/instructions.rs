//! The five instructions. Each one checks what has to hold, then changes its
//! context in one step or, where it refuses, not at all.

use crate::contexts::{ApproveSubmission, CancelTask, CreateTask, RejectSubmission, SubmitWork};
use crate::fees::{
    escrow_amount, escrow_amount_of, escrow_computable, fee_computable, platform_fee,
    platform_fee_of, total_payment,
};
use crate::state::{
    stored_len, transfer, transfer_fits, Account, Address, CreateTaskError, ErrorCode,
    Submission, SubmissionStatus, Task, TaskStatus, MAX_ID_LEN,
};
use vstd::arithmetic::mul::{lemma_mul_is_commutative, lemma_mul_is_distributive_add};
use vstd::prelude::*;

verus! {

/// Whether the amount that a task of these terms locks can move from the
/// requester into escrow: the requester holds it and escrow has room for it.
pub open spec fn funding_fits(
    ctx: CreateTask,
    payment_per_worker: u64,
    workers_needed: u8,
    platform_fee_bps: u16,
) -> bool {
    transfer_fits(
        ctx.requester.lamports as nat,
        ctx.escrow.lamports as nat,
        escrow_amount_of(payment_per_worker as nat, workers_needed as nat, platform_fee_bps as nat),
    )
}

/// The error with which `create_task` refuses, if it does. The terms are looked
/// at first: `Overflow` where a step towards the amount to lock does not fit in 64
/// bits, and in no other case. Then the funds: a transfer that cannot be made is a
/// failure of its own.
pub open spec fn create_refusal(
    ctx: CreateTask,
    payment_per_worker: u64,
    workers_needed: u8,
    platform_fee_bps: u16,
) -> Option<CreateTaskError> {
    if !escrow_computable(
        payment_per_worker as nat,
        workers_needed as nat,
        platform_fee_bps as nat,
    ) {
        Some(CreateTaskError::Code(ErrorCode::Overflow))
    } else if !funding_fits(ctx, payment_per_worker, workers_needed, platform_fee_bps) {
        Some(CreateTaskError::TransferRefused)
    } else {
        None
    }
}

/// The task that `create_task` makes of these terms.
pub open spec fn new_task(
    requester: Address,
    task_id: String,
    payment_per_worker: u64,
    workers_needed: u8,
    platform_fee_bps: u16,
    now: i64,
) -> Task {
    Task {
        task_id,
        requester,
        payment_per_worker,
        workers_needed,
        workers_completed: 0,
        platform_fee_bps,
        escrow_amount: escrow_amount_of(
            payment_per_worker as nat,
            workers_needed as nat,
            platform_fee_bps as nat,
        ) as u64,
        created_at: now,
        status: TaskStatus::Active,
    }
}

/// What `create_task` makes of `ctx` where it does not refuse.
pub open spec fn created(
    ctx: CreateTask,
    task_id: String,
    payment_per_worker: u64,
    workers_needed: u8,
    platform_fee_bps: u16,
    now: i64,
) -> CreateTask {
    let task = new_task(
        ctx.requester.key,
        task_id,
        payment_per_worker,
        workers_needed,
        platform_fee_bps,
        now,
    );
    CreateTask {
        task,
        escrow: Account {
            lamports: (ctx.escrow.lamports + task.escrow_amount) as u64,
            ..ctx.escrow
        },
        requester: Account {
            lamports: (ctx.requester.lamports - task.escrow_amount) as u64,
            ..ctx.requester
        },
    }
}

/// Creates a task at time `now` for the caller and locks what it costs: the
/// payments of all its workers and the fee on their sum move from the requester
/// into escrow. The new task is active and has no paid slot. `Overflow` is for
/// terms whose amounts do not fit; a requester who holds too little is not one.
pub fn create_task(
    ctx: &mut CreateTask,
    task_id: String,
    payment_per_worker: u64,
    workers_needed: u8,
    platform_fee_bps: u16,
    now: i64,
) -> (result: Result<(), CreateTaskError>)
    ensures
        match result {
            Ok(()) => {
                &&& create_refusal(*old(ctx), payment_per_worker, workers_needed, platform_fee_bps)
                    is None
                &&& *final(ctx) == created(
                    *old(ctx),
                    task_id,
                    payment_per_worker,
                    workers_needed,
                    platform_fee_bps,
                    now,
                )
                &&& stored_len(task_id@) <= MAX_ID_LEN ==> final(ctx).task.wf()
                &&& old(ctx).escrow.lamports == 0 ==> final(ctx).task.backed_by(
                    final(ctx).escrow.lamports,
                )
            },
            Err(e) => {
                &&& create_refusal(*old(ctx), payment_per_worker, workers_needed, platform_fee_bps)
                    == Some(e)
                &&& *final(ctx) == *old(ctx)
            },
        },
{
    let locked = match escrow_amount(payment_per_worker, workers_needed, platform_fee_bps) {
        Ok(locked) => locked,
        Err(e) => { return Err(CreateTaskError::Code(e)); },
    };
    let mut requester = ctx.requester;
    let mut escrow = ctx.escrow;
    match transfer(&mut requester, &mut escrow, locked) {
        Ok(()) => {},
        Err(_) => { return Err(CreateTaskError::TransferRefused); },
    }
    ctx.requester = requester;
    ctx.escrow = escrow;
    ctx.task = Task {
        task_id,
        requester: requester.key,
        payment_per_worker,
        workers_needed,
        workers_completed: 0,
        platform_fee_bps,
        escrow_amount: locked,
        created_at: now,
        status: TaskStatus::Active,
    };
    proof {
        lemma_mul_is_commutative(0, ctx.task.approval_cost() as int);
    }
    Ok(())
}

/// The error with which `submit_work` refuses work for `task`, if it does.
pub open spec fn submit_refusal(task: Task) -> Option<ErrorCode> {
    if task.status != TaskStatus::Active {
        Some(ErrorCode::TaskNotActive)
    } else if task.workers_completed >= task.workers_needed {
        Some(ErrorCode::TaskFull)
    } else {
        None
    }
}

/// The submission that `submit_work` makes.
pub open spec fn new_submission(
    submission_id: String,
    task_key: Address,
    worker: Address,
    now: i64,
) -> Submission {
    Submission {
        submission_id,
        task: task_key,
        worker,
        submitted_at: now,
        reviewed_at: None,
        status: SubmissionStatus::Pending,
    }
}

/// Records at time `now` that the caller has done the task. The task must be
/// active and have a slot that is not paid yet. It is not changed.
pub fn submit_work(ctx: &mut SubmitWork, submission_id: String, now: i64) -> (result: Result<
    (),
    ErrorCode,
>)
    ensures
        match result {
            Ok(()) => {
                &&& submit_refusal(old(ctx).task) is None
                &&& *final(ctx) == (SubmitWork {
                    submission: new_submission(
                        submission_id,
                        old(ctx).task_key,
                        old(ctx).worker,
                        now,
                    ),
                    ..*old(ctx)
                })
                &&& stored_len(submission_id@) <= MAX_ID_LEN ==> final(ctx).submission.wf()
            },
            Err(e) => {
                &&& submit_refusal(old(ctx).task) == Some(e)
                &&& *final(ctx) == *old(ctx)
            },
        },
{
    if ctx.task.status != TaskStatus::Active {
        return Err(ErrorCode::TaskNotActive);
    }
    if ctx.task.workers_completed >= ctx.task.workers_needed {
        return Err(ErrorCode::TaskFull);
    }
    ctx.submission = Submission {
        submission_id,
        task: ctx.task_key,
        worker: ctx.worker,
        submitted_at: now,
        reviewed_at: None,
        status: SubmissionStatus::Pending,
    };
    Ok(())
}

/// Whether every sum and difference of an approval can be formed: the fee can be
/// computed, escrow holds the payment and the fee, and the two receivers have room
/// for them.
pub open spec fn approval_fits(ctx: ApproveSubmission) -> bool {
    let payment = ctx.task.payment_per_worker as nat;
    let fee = platform_fee_of(payment, ctx.task.platform_fee_bps as nat);
    &&& fee_computable(payment, ctx.task.platform_fee_bps as nat)
    &&& payment + fee <= ctx.escrow.lamports
    &&& ctx.worker.lamports + payment <= u64::MAX
    &&& ctx.platform_wallet.lamports + fee <= u64::MAX
}

/// The error with which `approve_submission` refuses, if it does. The caller is
/// looked at first, then the submission, then the task and its slots, then the
/// amounts.
pub open spec fn approve_refusal(ctx: ApproveSubmission) -> Option<ErrorCode> {
    if ctx.requester != ctx.task.requester {
        Some(ErrorCode::Unauthorized)
    } else if ctx.submission.status != SubmissionStatus::Pending {
        Some(ErrorCode::InvalidStatus)
    } else if ctx.task.status != TaskStatus::Active {
        Some(ErrorCode::TaskNotActive)
    } else if ctx.task.workers_completed >= ctx.task.workers_needed {
        Some(ErrorCode::TaskFull)
    } else if !approval_fits(ctx) {
        Some(ErrorCode::Overflow)
    } else {
        None
    }
}

/// The task after one more of its submissions is approved: one more slot is paid,
/// and with the last slot the task is completed.
pub open spec fn task_after_approval(task: Task) -> Task {
    Task {
        workers_completed: (task.workers_completed + 1) as u8,
        status: if task.workers_completed + 1 >= task.workers_needed {
            TaskStatus::Completed
        } else {
            task.status
        },
        ..task
    }
}

/// A submission after its review at time `now`.
pub open spec fn reviewed(
    submission: Submission,
    verdict: SubmissionStatus,
    now: i64,
) -> Submission {
    Submission { status: verdict, reviewed_at: Some(now), ..submission }
}

/// What `approve_submission` makes of `ctx` at time `now` where it does not refuse.
pub open spec fn approved(ctx: ApproveSubmission, now: i64) -> ApproveSubmission {
    let payment = ctx.task.payment_per_worker as nat;
    let fee = platform_fee_of(payment, ctx.task.platform_fee_bps as nat);
    ApproveSubmission {
        task: task_after_approval(ctx.task),
        submission: reviewed(ctx.submission, SubmissionStatus::Approved, now),
        escrow: Account { lamports: (ctx.escrow.lamports - payment - fee) as u64, ..ctx.escrow },
        requester: ctx.requester,
        worker: Account { lamports: (ctx.worker.lamports + payment) as u64, ..ctx.worker },
        platform_wallet: Account {
            lamports: (ctx.platform_wallet.lamports + fee) as u64,
            ..ctx.platform_wallet
        },
    }
}

/// Approves a pending submission at time `now`: the worker is paid from escrow, the
/// platform gets its fee on that payment from escrow, and the task has one more
/// paid slot. Only the requester of an active task with a slot that is not paid
/// yet may do this. The submission is taken as it is handed in: its `task` and
/// `worker` are not held against the task and the receiver of the payment.
pub fn approve_submission(ctx: &mut ApproveSubmission, now: i64) -> (result: Result<(), ErrorCode>)
    ensures
        match result {
            Ok(()) => approve_refusal(*old(ctx)) is None && *final(ctx) == approved(*old(ctx), now),
            Err(e) => approve_refusal(*old(ctx)) == Some(e) && *final(ctx) == *old(ctx),
        },
        old(ctx).task.workers_completed <= final(ctx).task.workers_completed,
        old(ctx).task.workers_completed <= old(ctx).task.workers_needed
            ==> final(ctx).task.workers_completed <= final(ctx).task.workers_needed,
        old(ctx).task.wf() ==> final(ctx).task.wf(),
        old(ctx).submission.wf() ==> final(ctx).submission.wf(),
        old(ctx).task.backed_by(old(ctx).escrow.lamports) ==> final(ctx).task.backed_by(
            final(ctx).escrow.lamports,
        ),
{
    if ctx.task.requester != ctx.requester {
        return Err(ErrorCode::Unauthorized);
    }
    if ctx.submission.status != SubmissionStatus::Pending {
        return Err(ErrorCode::InvalidStatus);
    }
    if ctx.task.status != TaskStatus::Active {
        return Err(ErrorCode::TaskNotActive);
    }
    if ctx.task.workers_completed >= ctx.task.workers_needed {
        return Err(ErrorCode::TaskFull);
    }
    let worker_payment = ctx.task.payment_per_worker;
    let fee = match platform_fee(worker_payment, ctx.task.platform_fee_bps) {
        Ok(fee) => fee,
        Err(e) => { return Err(e); },
    };
    let mut escrow = ctx.escrow;
    let mut worker = ctx.worker;
    let mut platform_wallet = ctx.platform_wallet;
    match transfer(&mut escrow, &mut worker, worker_payment) {
        Ok(()) => {},
        Err(e) => { return Err(e); },
    }
    match transfer(&mut escrow, &mut platform_wallet, fee) {
        Ok(()) => {},
        Err(e) => { return Err(e); },
    }
    let completed = ctx.task.workers_completed + 1;
    ctx.escrow = escrow;
    ctx.worker = worker;
    ctx.platform_wallet = platform_wallet;
    ctx.submission.status = SubmissionStatus::Approved;
    ctx.submission.reviewed_at = Some(now);
    ctx.task.workers_completed = completed;
    if completed >= ctx.task.workers_needed {
        ctx.task.status = TaskStatus::Completed;
    }
    proof {
        lemma_approval_cost_adds_up(old(ctx).task);
    }
    Ok(())
}

/// One more paid slot adds one approval's cost to what was paid out.
pub proof fn lemma_approval_cost_adds_up(task: Task)
    requires
        task.workers_completed < u8::MAX,
    ensures
        task_after_approval(task).paid_out() == task.paid_out() + task.approval_cost(),
{
    let cost = task.approval_cost() as int;
    let done = task.workers_completed as int;
    lemma_mul_is_distributive_add(cost, done, 1);
    lemma_mul_is_commutative(cost, done + 1);
    lemma_mul_is_commutative(cost, done);
}

/// The error with which `reject_submission` refuses, if it does. The caller is
/// looked at first, then the submission, then the task.
pub open spec fn reject_refusal(ctx: RejectSubmission) -> Option<ErrorCode> {
    if ctx.requester != ctx.task.requester {
        Some(ErrorCode::Unauthorized)
    } else if ctx.submission.status != SubmissionStatus::Pending {
        Some(ErrorCode::InvalidStatus)
    } else if ctx.task.status != TaskStatus::Active {
        Some(ErrorCode::TaskNotActive)
    } else {
        None
    }
}

/// Rejects a pending submission at time `now`. No funds move and the task is not
/// changed: the slot stays open for other work. Only the requester of an active
/// task may do this.
pub fn reject_submission(ctx: &mut RejectSubmission, now: i64) -> (result: Result<(), ErrorCode>)
    ensures
        match result {
            Ok(()) => {
                &&& reject_refusal(*old(ctx)) is None
                &&& *final(ctx) == (RejectSubmission {
                    submission: reviewed(old(ctx).submission, SubmissionStatus::Rejected, now),
                    ..*old(ctx)
                })
            },
            Err(e) => reject_refusal(*old(ctx)) == Some(e) && *final(ctx) == *old(ctx),
        },
        old(ctx).submission.wf() ==> final(ctx).submission.wf(),
{
    if ctx.task.requester != ctx.requester {
        return Err(ErrorCode::Unauthorized);
    }
    if ctx.submission.status != SubmissionStatus::Pending {
        return Err(ErrorCode::InvalidStatus);
    }
    if ctx.task.status != TaskStatus::Active {
        return Err(ErrorCode::TaskNotActive);
    }
    ctx.submission.status = SubmissionStatus::Rejected;
    ctx.submission.reviewed_at = Some(now);
    Ok(())
}

/// Whether every product, sum and difference of a cancellation can be formed: the
/// payments made and the fee on their sum can be computed and are covered by what
/// was locked, escrow holds the refund, and the requester has room for it.
pub open spec fn cancellation_fits(ctx: CancelTask) -> bool {
    &&& ctx.task.completed_payment() <= u64::MAX
    &&& fee_computable(ctx.task.completed_payment(), ctx.task.platform_fee_bps as nat)
    &&& 0 <= ctx.task.refund_due() <= ctx.escrow.lamports
    &&& ctx.requester.lamports + ctx.task.refund_due() <= u64::MAX
}

/// The error with which `cancel_task` refuses, if it does. The caller is looked at
/// first, then the task, then the amounts.
pub open spec fn cancel_refusal(ctx: CancelTask) -> Option<ErrorCode> {
    if ctx.requester.key != ctx.task.requester {
        Some(ErrorCode::Unauthorized)
    } else if ctx.task.status != TaskStatus::Active {
        Some(ErrorCode::TaskNotActive)
    } else if !cancellation_fits(ctx) {
        Some(ErrorCode::Overflow)
    } else {
        None
    }
}

/// What `cancel_task` makes of `ctx` where it does not refuse.
pub open spec fn cancelled(ctx: CancelTask) -> CancelTask {
    CancelTask {
        task: Task { status: TaskStatus::Cancelled, ..ctx.task },
        escrow: Account {
            lamports: (ctx.escrow.lamports - ctx.task.refund_due()) as u64,
            ..ctx.escrow
        },
        requester: Account {
            lamports: (ctx.requester.lamports + ctx.task.refund_due()) as u64,
            ..ctx.requester
        },
    }
}

/// Cancels an active task: what was locked, less the payments made and the fee on
/// their sum, goes from escrow back to the requester. Submissions that are still
/// pending stay as they are. Only the requester may do this.
pub fn cancel_task(ctx: &mut CancelTask) -> (result: Result<(), ErrorCode>)
    ensures
        match result {
            Ok(()) => cancel_refusal(*old(ctx)) is None && *final(ctx) == cancelled(*old(ctx)),
            Err(e) => cancel_refusal(*old(ctx)) == Some(e) && *final(ctx) == *old(ctx),
        },
        old(ctx).task.wf() ==> final(ctx).task.wf(),
        old(ctx).task.backed_by(old(ctx).escrow.lamports) ==> final(ctx).task.backed_by(
            final(ctx).escrow.lamports,
        ),
{
    if ctx.task.requester != ctx.requester.key {
        return Err(ErrorCode::Unauthorized);
    }
    if ctx.task.status != TaskStatus::Active {
        return Err(ErrorCode::TaskNotActive);
    }
    let completed_payment = match total_payment(
        ctx.task.payment_per_worker,
        ctx.task.workers_completed,
    ) {
        Ok(paid) => paid,
        Err(e) => { return Err(e); },
    };
    let completed_fees = match platform_fee(completed_payment, ctx.task.platform_fee_bps) {
        Ok(fees) => fees,
        Err(e) => { return Err(e); },
    };
    let after_payments = match ctx.task.escrow_amount.checked_sub(completed_payment) {
        Some(left) => left,
        None => { return Err(ErrorCode::Overflow); },
    };
    let refund_amount = match after_payments.checked_sub(completed_fees) {
        Some(refund) => refund,
        None => { return Err(ErrorCode::Overflow); },
    };
    let mut escrow = ctx.escrow;
    let mut requester = ctx.requester;
    match transfer(&mut escrow, &mut requester, refund_amount) {
        Ok(()) => {},
        Err(e) => { return Err(e); },
    }
    ctx.escrow = escrow;
    ctx.requester = requester;
    ctx.task.status = TaskStatus::Cancelled;
    Ok(())
}

} // verus!
