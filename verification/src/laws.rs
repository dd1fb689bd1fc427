//! What holds of the instructions taken together: of any run of them on one
//! task and the funds locked for it.

use crate::contexts::{ApproveSubmission, CancelTask, CreateTask, RejectSubmission};
use crate::fees::{
    escrow_amount_of, fee_computable, lemma_fee_is_monotonic, lemma_fee_on_parts,
    lemma_fee_residue, platform_fee_of, total_payment_of,
};
use crate::instructions::{
    approval_fits, approve_refusal, approved, cancel_refusal, cancellation_fits, cancelled,
    create_refusal, created, lemma_approval_cost_adds_up, reject_refusal, reviewed,
    submit_refusal,
};
use crate::state::{
    stored_len, Account, Address, ErrorCode, Submission, SubmissionStatus, Task, TaskStatus,
    MAX_ID_LEN,
};
use vstd::arithmetic::mul::{
    lemma_mul_basics, lemma_mul_inequality, lemma_mul_is_commutative,
    lemma_mul_is_distributive_add,
};
use vstd::prelude::*;

verus! {

/// A task together with the funds locked for it.
pub struct Escrowed {
    pub task: Task,
    pub escrow: Account,
}

/// One call of an instruction on a task: what the instruction is handed besides
/// the task and its escrow.
pub enum Call {
    SubmitWork,
    ApproveSubmission {
        submission: Submission,
        requester: Address,
        worker: Account,
        platform_wallet: Account,
        now: i64,
    },
    RejectSubmission { submission: Submission, requester: Address },
    CancelTask { requester: Account },
}

impl Escrowed {
    /// Whether the funds are what the task's record says they should be.
    pub open spec fn conserved(self) -> bool {
        self.task.backed_by(self.escrow.lamports)
    }

    /// The context in which `approve_submission` runs for this call.
    pub open spec fn approve_context(
        self,
        submission: Submission,
        requester: Address,
        worker: Account,
        platform_wallet: Account,
    ) -> ApproveSubmission {
        ApproveSubmission {
            task: self.task,
            submission,
            escrow: self.escrow,
            requester,
            worker,
            platform_wallet,
        }
    }

    /// The context in which `cancel_task` runs for this call.
    pub open spec fn cancel_context(self, requester: Account) -> CancelTask {
        CancelTask { task: self.task, escrow: self.escrow, requester }
    }

    /// The error with which `call` is refused, if it is.
    pub open spec fn refusal(self, call: Call) -> Option<ErrorCode> {
        match call {
            Call::SubmitWork => submit_refusal(self.task),
            Call::ApproveSubmission { submission, requester, worker, platform_wallet, now } =>
                approve_refusal(
                self.approve_context(submission, requester, worker, platform_wallet),
            ),
            Call::RejectSubmission { submission, requester } => reject_refusal(
                RejectSubmission { task: self.task, submission, requester },
            ),
            Call::CancelTask { requester } => cancel_refusal(self.cancel_context(requester)),
        }
    }

    /// The task and its escrow after `call`. A call that is refused changes nothing;
    /// neither does submitting or rejecting work.
    pub open spec fn step(self, call: Call) -> Escrowed {
        if self.refusal(call) is Some {
            self
        } else {
            match call {
                Call::SubmitWork => self,
                Call::ApproveSubmission { submission, requester, worker, platform_wallet, now } => {
                    let after = approved(
                        self.approve_context(submission, requester, worker, platform_wallet),
                        now,
                    );
                    Escrowed { task: after.task, escrow: after.escrow }
                },
                Call::RejectSubmission { submission, requester } => self,
                Call::CancelTask { requester } => {
                    let after = cancelled(self.cancel_context(requester));
                    Escrowed { task: after.task, escrow: after.escrow }
                },
            }
        }
    }

    /// What `call` pays out of escrow to a worker and to the platform: the payment
    /// and the fee of an approval that is not refused.
    pub open spec fn payout(self, call: Call) -> nat {
        if call is ApproveSubmission && self.refusal(call) is None {
            self.task.approval_cost()
        } else {
            0
        }
    }

    /// What `call` returns from escrow to the requester: the refund of a
    /// cancellation that is not refused.
    pub open spec fn refund(self, call: Call) -> int {
        if call is CancelTask && self.refusal(call) is None {
            self.task.refund_due()
        } else {
            0
        }
    }

    /// The sum of what the approvals among `calls` pay out.
    pub open spec fn payouts(self, calls: Seq<Call>) -> nat
        decreases calls.len(),
    {
        if calls.len() == 0 {
            0
        } else {
            self.payouts(calls.drop_last()) + self.run(calls.drop_last()).payout(calls.last())
        }
    }

    /// The sum of what the cancellations among `calls` return.
    pub open spec fn refunds(self, calls: Seq<Call>) -> int
        decreases calls.len(),
    {
        if calls.len() == 0 {
            0
        } else {
            self.refunds(calls.drop_last()) + self.run(calls.drop_last()).refund(calls.last())
        }
    }

    /// The task and its escrow after `calls`, one after the other.
    pub open spec fn run(self, calls: Seq<Call>) -> Escrowed
        decreases calls.len(),
    {
        if calls.len() == 0 {
            self
        } else {
            self.run(calls.drop_last()).step(calls.last())
        }
    }
}

/// Creation funds escrow in full: the new task is well formed, it is active with
/// no paid slot, and an escrow that was empty holds exactly the locked amount, so
/// that the task and its escrow are conserved from the start.
pub proof fn lemma_creation_funds_escrow(
    ctx: CreateTask,
    task_id: String,
    payment_per_worker: u64,
    workers_needed: u8,
    platform_fee_bps: u16,
    now: i64,
)
    requires
        stored_len(task_id@) <= MAX_ID_LEN,
        create_refusal(ctx, payment_per_worker, workers_needed, platform_fee_bps) is None,
    ensures
        ({
            let after = created(
                ctx,
                task_id,
                payment_per_worker,
                workers_needed,
                platform_fee_bps,
                now,
            );
            &&& after.task.wf()
            &&& after.task.status == TaskStatus::Active
            &&& after.task.workers_completed == 0
            &&& after.escrow.lamports == ctx.escrow.lamports + after.task.escrow_amount
            &&& after.requester.lamports == ctx.requester.lamports - after.task.escrow_amount
            &&& ctx.escrow.lamports == 0 ==> (Escrowed {
                task: after.task,
                escrow: after.escrow,
            }).conserved()
        }),
{
    let after = created(ctx, task_id, payment_per_worker, workers_needed, platform_fee_bps, now);
    lemma_mul_basics(after.task.approval_cost() as int);
}

/// Escrow conservation, one call at a time: where escrow holds what the record
/// says before a call, it does so after it.
pub proof fn lemma_step_conserves_escrow(s: Escrowed, call: Call)
    requires
        s.conserved(),
    ensures
        s.step(call).conserved(),
{
    if s.refusal(call) is None && call is ApproveSubmission {
        lemma_approval_cost_adds_up(s.task);
    }
}

/// Escrow conservation: where escrow holds what the record says, it does so
/// after any run of instructions: the locked amount less payment and fee for
/// every paid slot, and less the refund if the task was cancelled. That balance is
/// never negative.
pub proof fn lemma_escrow_is_conserved(s: Escrowed, calls: Seq<Call>)
    requires
        s.conserved(),
    ensures
        s.run(calls).conserved(),
        s.run(calls).escrow.lamports == s.run(calls).task.escrow_amount - s.run(
            calls,
        ).task.paid_out() - s.run(calls).task.refunded(),
        s.run(calls).task.escrow_due() >= 0,
    decreases calls.len(),
{
    if calls.len() > 0 {
        lemma_escrow_is_conserved(s, calls.drop_last());
        lemma_step_conserves_escrow(s.run(calls.drop_last()), calls.last());
    }
}

/// Nothing leaves escrow unaccounted for: after any run of instructions, escrow
/// holds what it held before less the payment and fee of every approval in the
/// run and less what a cancellation in the run returned.
pub proof fn lemma_escrow_accounts_for_every_payment(s: Escrowed, calls: Seq<Call>)
    ensures
        s.run(calls).escrow.lamports == s.escrow.lamports - s.payouts(calls) - s.refunds(calls),
        s.run(calls).escrow.key == s.escrow.key,
        s.run(calls).task.escrow_amount == s.task.escrow_amount,
    decreases calls.len(),
{
    if calls.len() > 0 {
        lemma_escrow_accounts_for_every_payment(s, calls.drop_last());
    }
}

/// Escrow conservation from the creation of a task on: where escrow holds the
/// locked amount of a new task, it holds after any run of instructions that
/// amount less the payment and fee of every approved submission and less the
/// refund if the task was cancelled, and this is never negative.
pub proof fn lemma_escrow_from_creation(s: Escrowed, calls: Seq<Call>)
    requires
        s.task.status == TaskStatus::Active,
        s.task.workers_completed == 0,
        s.escrow.lamports == s.task.escrow_amount,
    ensures
        s.run(calls).escrow.lamports == s.task.escrow_amount - s.payouts(calls) - s.refunds(calls),
        s.payouts(calls) == s.run(calls).task.paid_out(),
        s.refunds(calls) == s.run(calls).task.refunded(),
        s.task.escrow_amount - s.payouts(calls) - s.refunds(calls) >= 0,
    decreases calls.len(),
{
    lemma_escrow_accounts_for_every_payment(s, calls);
    lemma_escrow_is_conserved(s, calls);
    if calls.len() == 0 {
    } else {
        let before = s.run(calls.drop_last());
        let call = calls.last();
        lemma_escrow_from_creation(s, calls.drop_last());
        lemma_escrow_accounts_for_every_payment(s, calls.drop_last());
        if before.refusal(call) is None && call is ApproveSubmission {
            lemma_approval_cost_adds_up(before.task);
        }
    }
}

/// Escrow covers what is owed for an open slot: on a well-formed task whose
/// escrow is conserved, the fee of the next approval can be computed and escrow
/// holds the payment and the fee. Such an approval is refused only where a
/// receiver's balance has no room.
pub proof fn lemma_escrow_covers_approval(ctx: ApproveSubmission)
    requires
        ctx.task.wf(),
        ctx.task.backed_by(ctx.escrow.lamports),
        ctx.task.status == TaskStatus::Active,
        ctx.task.workers_completed < ctx.task.workers_needed,
    ensures
        fee_computable(ctx.task.payment_per_worker as nat, ctx.task.platform_fee_bps as nat),
        ctx.task.approval_cost() <= ctx.escrow.lamports,
        approval_fits(ctx) == (ctx.worker.lamports + ctx.task.payment_per_worker <= u64::MAX
            && ctx.platform_wallet.lamports + platform_fee_of(
            ctx.task.payment_per_worker as nat,
            ctx.task.platform_fee_bps as nat,
        ) <= u64::MAX),
{
    let payment = ctx.task.payment_per_worker as nat;
    let slots = ctx.task.workers_needed as nat;
    let done = ctx.task.workers_completed as nat;
    let rate = ctx.task.platform_fee_bps as nat;
    let total = total_payment_of(payment, slots);
    lemma_slots_cost(payment, rate, done + 1, slots);
    lemma_approval_cost_adds_up(ctx.task);
    assert(payment * rate <= total * rate) by {
        lemma_mul_inequality(1, slots as int, payment as int);
        lemma_mul_is_commutative(slots as int, payment as int);
        lemma_mul_inequality(payment as int, total as int, rate as int);
    }
}

/// Escrow covers every slot that is still open: on a well-formed task that is not
/// cancelled and whose escrow is conserved, escrow holds payment and fee for each
/// slot that is not paid yet.
pub proof fn lemma_escrow_covers_open_slots(task: Task, balance: u64)
    requires
        task.wf(),
        task.backed_by(balance),
        task.status != TaskStatus::Cancelled,
    ensures
        balance >= (task.workers_needed - task.workers_completed) * task.approval_cost(),
{
    let cost = task.approval_cost() as int;
    let slots = task.workers_needed as int;
    let done = task.workers_completed as int;
    lemma_slots_cost(
        task.payment_per_worker as nat,
        task.platform_fee_bps as nat,
        slots as nat,
        slots as nat,
    );
    assert(slots * cost == (slots - done) * cost + done * cost) by {
        lemma_mul_is_distributive_add(cost, slots - done, done);
        lemma_mul_is_commutative(cost, slots);
        lemma_mul_is_commutative(cost, slots - done);
        lemma_mul_is_commutative(cost, done);
    }
}

/// An approval that is owed is made. Where the requester approves a pending
/// submission of an active task with a slot that is not paid yet, the fee can be
/// computed, escrow holds payment and fee for every open slot and the two
/// receivers have room, the approval is not refused: escrow loses the payment
/// and the fee, the worker gains the payment, the platform the fee, so that the
/// three balances together hold what they held, and escrow still holds payment
/// and fee for every slot that is open afterwards.
pub proof fn lemma_approval_is_owed(ctx: ApproveSubmission, now: i64)
    requires
        ctx.requester == ctx.task.requester,
        ctx.submission.status == SubmissionStatus::Pending,
        ctx.task.status == TaskStatus::Active,
        ctx.task.workers_completed < ctx.task.workers_needed,
        fee_computable(ctx.task.payment_per_worker as nat, ctx.task.platform_fee_bps as nat),
        ctx.escrow.lamports >= (ctx.task.workers_needed - ctx.task.workers_completed)
            * ctx.task.approval_cost(),
        ctx.worker.lamports + ctx.task.payment_per_worker <= u64::MAX,
        ctx.platform_wallet.lamports + platform_fee_of(
            ctx.task.payment_per_worker as nat,
            ctx.task.platform_fee_bps as nat,
        ) <= u64::MAX,
    ensures
        approve_refusal(ctx) is None,
        ({
            let after = approved(ctx, now);
            let payment = ctx.task.payment_per_worker as nat;
            let fee = platform_fee_of(payment, ctx.task.platform_fee_bps as nat);
            &&& after.escrow.lamports == ctx.escrow.lamports - payment - fee
            &&& after.worker.lamports == ctx.worker.lamports + payment
            &&& after.platform_wallet.lamports == ctx.platform_wallet.lamports + fee
            &&& after.escrow.lamports + after.worker.lamports + after.platform_wallet.lamports
                == ctx.escrow.lamports + ctx.worker.lamports + ctx.platform_wallet.lamports
            &&& after.task.workers_completed == ctx.task.workers_completed + 1
            &&& after.escrow.lamports >= (after.task.workers_needed
                - after.task.workers_completed) * after.task.approval_cost()
        }),
{
    let cost = ctx.task.approval_cost() as int;
    let open = ctx.task.workers_needed - ctx.task.workers_completed;
    assert(open * cost == (open - 1) * cost + cost) by {
        lemma_mul_is_distributive_add(cost, open - 1, 1);
        lemma_mul_is_commutative(cost, open);
        lemma_mul_is_commutative(cost, open - 1);
    }
    assert((open - 1) * cost >= 0) by {
        lemma_mul_inequality(0, open - 1, cost);
        lemma_mul_basics(cost);
    }
}

/// A cancellation that is owed is made. Where the requester cancels an active,
/// well-formed task whose escrow is conserved and has room for the refund, the
/// cancellation is not refused: the requester gains, and escrow loses, the locked
/// amount less the payments made and the fee on their sum. What stays in escrow
/// is the fee on that sum less the fees paid one by one: never negative, nothing
/// where at most one slot was paid, and less than the number of paid slots.
pub proof fn lemma_cancellation_is_owed(ctx: CancelTask)
    requires
        ctx.requester.key == ctx.task.requester,
        ctx.task.status == TaskStatus::Active,
        ctx.task.wf(),
        ctx.task.backed_by(ctx.escrow.lamports),
        ctx.requester.lamports + ctx.task.refund_due() <= u64::MAX,
    ensures
        cancel_refusal(ctx) is None,
        ({
            let after = cancelled(ctx);
            let paid = ctx.task.workers_completed as nat;
            let rate = ctx.task.platform_fee_bps as nat;
            let residue = platform_fee_of(ctx.task.completed_payment(), rate) - paid
                * platform_fee_of(ctx.task.payment_per_worker as nat, rate);
            &&& after.task.status == TaskStatus::Cancelled
            &&& 0 <= ctx.task.refund_due() <= ctx.escrow.lamports
            &&& after.requester.lamports - ctx.requester.lamports == ctx.task.refund_due()
            &&& ctx.escrow.lamports - after.escrow.lamports == ctx.task.refund_due()
            &&& after.escrow.lamports == residue
            &&& 0 <= residue <= paid
            &&& paid <= 1 ==> residue == 0
            &&& paid > 1 ==> residue < paid
        }),
{
    lemma_escrow_covers_refund(ctx);
    let after = cancelled(ctx);
    lemma_residue_is_small(after.task);
}

/// Escrow covers the refund: on a well-formed task whose escrow is conserved,
/// every amount of a cancellation can be computed and escrow holds the refund.
/// Such a cancellation is refused only where the requester's balance has no room.
pub proof fn lemma_escrow_covers_refund(ctx: CancelTask)
    requires
        ctx.task.wf(),
        ctx.task.backed_by(ctx.escrow.lamports),
        ctx.task.status == TaskStatus::Active,
    ensures
        ctx.task.completed_payment() <= u64::MAX,
        fee_computable(ctx.task.completed_payment(), ctx.task.platform_fee_bps as nat),
        0 <= ctx.task.refund_due() <= ctx.escrow.lamports,
        cancellation_fits(ctx) == (ctx.requester.lamports + ctx.task.refund_due() <= u64::MAX),
{
    let payment = ctx.task.payment_per_worker as nat;
    let slots = ctx.task.workers_needed as nat;
    let done = ctx.task.workers_completed as nat;
    let rate = ctx.task.platform_fee_bps as nat;
    let total = total_payment_of(payment, slots);
    lemma_slots_cost(payment, rate, done, slots);
    assert(payment * done <= total) by {
        lemma_mul_inequality(done as int, slots as int, payment as int);
        lemma_mul_is_commutative(done as int, payment as int);
        lemma_mul_is_commutative(slots as int, payment as int);
    }
    lemma_mul_inequality((payment * done) as int, total as int, rate as int);
    lemma_fee_is_monotonic(payment * done, total, rate);
    lemma_fee_on_parts(done, payment, rate);
    assert(done * payment == payment * done) by {
        lemma_mul_is_commutative(done as int, payment as int);
    }
    assert(done * (payment + platform_fee_of(payment, rate)) == done * payment + done
        * platform_fee_of(payment, rate)) by {
        lemma_mul_is_distributive_add(
            done as int,
            payment as int,
            platform_fee_of(payment, rate) as int,
        );
    }
}

/// What `paid` slots cost, payment and fee, is covered by what is locked for
/// `slots` of them.
proof fn lemma_slots_cost(payment: nat, rate: nat, paid: nat, slots: nat)
    requires
        paid <= slots,
    ensures
        paid * (payment + platform_fee_of(payment, rate)) <= escrow_amount_of(payment, slots, rate),
{
    let each = platform_fee_of(payment, rate);
    assert(paid * (payment + each) == paid * payment + paid * each) by {
        lemma_mul_is_distributive_add(paid as int, payment as int, each as int);
    }
    assert(paid * payment <= payment * slots) by {
        lemma_mul_inequality(paid as int, slots as int, payment as int);
        lemma_mul_is_commutative(slots as int, payment as int);
    }
    lemma_fee_on_parts(paid, payment, rate);
    lemma_fee_is_monotonic(paid * payment, payment * slots, rate);
}

/// What rounding leaves in escrow is small. Once a well-formed task is completed
/// or cancelled, escrow is due to hold the fee on the sum of the payments made
/// less the fees paid on each of them: less than one unit for each slot that was
/// paid, and nothing where at most one was.
pub proof fn lemma_residue_is_small(task: Task)
    requires
        task.wf(),
        task.is_terminal(),
    ensures
        task.escrow_due() == platform_fee_of(task.completed_payment(), task.platform_fee_bps as nat)
            - task.workers_completed * platform_fee_of(
            task.payment_per_worker as nat,
            task.platform_fee_bps as nat,
        ),
        0 <= task.escrow_due() <= task.workers_completed,
        task.workers_completed > 0 ==> task.escrow_due() < task.workers_completed,
        task.workers_completed <= 1 ==> task.escrow_due() == 0,
{
    let payment = task.payment_per_worker as nat;
    let done = task.workers_completed as nat;
    let rate = task.platform_fee_bps as nat;
    let each = platform_fee_of(payment, rate);
    assert(done * (payment + each) == done * payment + done * each) by {
        lemma_mul_is_distributive_add(done as int, payment as int, each as int);
    }
    assert(done * payment == payment * done) by {
        lemma_mul_is_commutative(done as int, payment as int);
    }
    lemma_fee_on_parts(done, payment, rate);
    if done > 0 {
        lemma_fee_residue(done, payment, rate);
    } else {
        lemma_mul_basics(payment as int);
        lemma_mul_basics(each as int);
        lemma_mul_basics(rate as int);
    }
}

/// One call keeps a task well formed, lowers no count of paid slots, and
/// completes the task only by an approval.
pub proof fn lemma_step_keeps_progress(s: Escrowed, call: Call)
    requires
        s.task.wf(),
    ensures
        s.step(call).task.wf(),
        s.step(call).task.workers_completed >= s.task.workers_completed,
        s.step(call).task.workers_completed > s.task.workers_completed ==> {
            &&& call is ApproveSubmission
            &&& s.step(call).task.workers_completed == s.task.workers_completed + 1
        },
        s.step(call).task.status == TaskStatus::Completed && s.task.status
            != TaskStatus::Completed ==> call is ApproveSubmission,
        s.step(call).task.workers_needed == s.task.workers_needed,
{
}

/// Monotonic completion: over any run of instructions on a well-formed task the
/// count of paid slots never falls and never passes the number of slots, and the
/// task is completed exactly when it has a slot and the count has reached their
/// number.
pub proof fn lemma_completion_is_monotonic(s: Escrowed, calls: Seq<Call>)
    requires
        s.task.wf(),
    ensures
        s.run(calls).task.wf(),
        s.run(calls).task.workers_needed == s.task.workers_needed,
        s.task.workers_completed <= s.run(calls).task.workers_completed
            <= s.task.workers_needed,
        (s.run(calls).task.status == TaskStatus::Completed) == (s.task.workers_needed > 0
            && s.run(calls).task.workers_completed == s.task.workers_needed),
    decreases calls.len(),
{
    if calls.len() > 0 {
        lemma_completion_is_monotonic(s, calls.drop_last());
        lemma_step_keeps_progress(s.run(calls.drop_last()), calls.last());
    }
}

/// An approval never takes the count of paid slots past the number of slots,
/// whatever the task. Where the count was within that number and the approval
/// is not refused, the count grows by one, stays within the number of slots, and
/// the task is completed exactly when the count has reached it.
pub proof fn lemma_approval_stays_within_slots(ctx: ApproveSubmission, now: i64)
    requires
        ctx.task.workers_completed <= ctx.task.workers_needed,
    ensures
        approve_refusal(ctx) is None ==> {
            let after = approved(ctx, now).task;
            &&& after.workers_completed == ctx.task.workers_completed + 1
            &&& after.workers_completed <= after.workers_needed
            &&& after.workers_needed == ctx.task.workers_needed
            &&& after.status == if after.workers_completed == after.workers_needed {
                TaskStatus::Completed
            } else {
                TaskStatus::Active
            }
        },
{
}

/// What creation fixed stays fixed: no run of instructions changes the task's
/// identifier, its requester, its terms, the locked amount or the time of its
/// creation.
pub proof fn lemma_terms_are_fixed(s: Escrowed, calls: Seq<Call>)
    ensures
        s.run(calls).task.task_id == s.task.task_id,
        s.run(calls).task.requester == s.task.requester,
        s.run(calls).task.payment_per_worker == s.task.payment_per_worker,
        s.run(calls).task.workers_needed == s.task.workers_needed,
        s.run(calls).task.platform_fee_bps == s.task.platform_fee_bps,
        s.run(calls).task.escrow_amount == s.task.escrow_amount,
        s.run(calls).task.created_at == s.task.created_at,
    decreases calls.len(),
{
    if calls.len() > 0 {
        lemma_terms_are_fixed(s, calls.drop_last());
    }
}

/// Once a task is completed or cancelled, every call on it is refused and
/// nothing changes. A review or a cancellation that does not come from the
/// requester is refused with `Unauthorized`. From the requester, a review of a
/// submission that is approved or rejected already is refused with
/// `InvalidStatus`; every other call is refused with `TaskNotActive`.
pub proof fn lemma_terminal_refuses(s: Escrowed, call: Call)
    requires
        s.task.is_terminal(),
    ensures
        s.step(call) == s,
        s.refusal(call) == Some(
            match call {
                Call::SubmitWork => ErrorCode::TaskNotActive,
                Call::ApproveSubmission { submission, requester, .. } => if requester
                    != s.task.requester {
                    ErrorCode::Unauthorized
                } else if submission.is_terminal() {
                    ErrorCode::InvalidStatus
                } else {
                    ErrorCode::TaskNotActive
                },
                Call::RejectSubmission { submission, requester } => if requester
                    != s.task.requester {
                    ErrorCode::Unauthorized
                } else if submission.is_terminal() {
                    ErrorCode::InvalidStatus
                } else {
                    ErrorCode::TaskNotActive
                },
                Call::CancelTask { requester } => if requester.key != s.task.requester {
                    ErrorCode::Unauthorized
                } else {
                    ErrorCode::TaskNotActive
                },
            },
        ),
{
}

/// Terminal idempotence: no run of instructions changes a task that is completed
/// or cancelled, nor its escrow.
pub proof fn lemma_terminal_is_final(s: Escrowed, calls: Seq<Call>)
    requires
        s.task.is_terminal(),
    ensures
        s.run(calls) == s,
    decreases calls.len(),
{
    if calls.len() > 0 {
        lemma_terminal_is_final(s, calls.drop_last());
        lemma_terminal_refuses(s, calls.last());
    }
}

/// A submission is reviewed once: an approval or a rejection of a submission
/// that is approved or rejected already is refused, with `InvalidStatus` where it
/// comes from the requester, whatever the state of the task. A review keeps a
/// well-formed submission well formed.
pub proof fn lemma_review_happens_once(
    approve: ApproveSubmission,
    reject: RejectSubmission,
    now: i64,
)
    ensures
        approve.submission.is_terminal() ==> approve_refusal(approve) == Some(
            if approve.requester == approve.task.requester {
                ErrorCode::InvalidStatus
            } else {
                ErrorCode::Unauthorized
            },
        ),
        reject.submission.is_terminal() ==> reject_refusal(reject) == Some(
            if reject.requester == reject.task.requester {
                ErrorCode::InvalidStatus
            } else {
                ErrorCode::Unauthorized
            },
        ),
        approve.submission.wf() && approve_refusal(approve) is None ==> {
            &&& approved(approve, now).submission.wf()
            &&& approved(approve, now).submission.is_terminal()
        },
        reject.submission.wf() ==> {
            &&& reviewed(reject.submission, SubmissionStatus::Rejected, now).wf()
            &&& reviewed(reject.submission, SubmissionStatus::Rejected, now).is_terminal()
        },
{
}

/// Authorization gating: a review or a cancellation that does not come from the
/// task's requester is refused with `Unauthorized`, whatever else holds, and the
/// task and its escrow stay as they were.
pub proof fn lemma_stranger_is_refused(s: Escrowed, call: Call)
    requires
        match call {
            Call::SubmitWork => false,
            Call::ApproveSubmission { requester, .. } => requester != s.task.requester,
            Call::RejectSubmission { requester, .. } => requester != s.task.requester,
            Call::CancelTask { requester } => requester.key != s.task.requester,
        },
    ensures
        s.refusal(call) == Some(ErrorCode::Unauthorized),
        s.step(call) == s,
{
}

} // verus!
