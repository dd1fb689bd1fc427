//! The records that the marketplace keeps, and the balances it moves.

use crate::fees::{escrow_amount_of, escrow_computable, platform_fee_of};
use vstd::prelude::*;
use vstd::utf8::encode_utf8;

verus! {

/// The longest identifier that a task or a submission may carry, in bytes of UTF-8.
pub const MAX_ID_LEN: usize = 50;

/// The length of an identifier as it is stored: that of its UTF-8 encoding.
pub open spec fn stored_len(id: Seq<char>) -> nat {
    encode_utf8(id).len()
}

/// Whether `id` is short enough for a record.
pub fn id_fits(id: &str) -> (fits: bool)
    ensures
        fits == (stored_len(id@) <= MAX_ID_LEN),
{
    id.as_bytes().len() <= MAX_ID_LEN
}

/// A 256-bit ledger address, held as its upper and lower halves.
#[derive(Clone, Copy, Debug, PartialEq, Eq, Hash, Structural)]
pub struct Address {
    pub hi: u128,
    pub lo: u128,
}

/// A balance that the ledger holds at one address.
#[derive(Clone, Copy, Debug, PartialEq, Eq, Structural)]
pub struct Account {
    pub key: Address,
    pub lamports: u64,
}

impl Account {
    /// Takes `amount` out of the balance, or leaves it alone where it holds less.
    pub fn debit(&mut self, amount: u64) -> (result: Result<(), ErrorCode>)
        ensures
            result == if amount <= old(self).lamports {
                Ok::<(), ErrorCode>(())
            } else {
                Err::<(), ErrorCode>(ErrorCode::Overflow)
            },
            final(self).key == old(self).key,
            final(self).lamports == if amount <= old(self).lamports {
                old(self).lamports - amount
            } else {
                old(self).lamports as int
            },
    {
        match self.lamports.checked_sub(amount) {
            Some(left) => {
                self.lamports = left;
                Ok(())
            },
            None => Err(ErrorCode::Overflow),
        }
    }

    /// Adds `amount` to the balance, or leaves it alone where the sum does not fit.
    pub fn credit(&mut self, amount: u64) -> (result: Result<(), ErrorCode>)
        ensures
            result == if old(self).lamports + amount <= u64::MAX {
                Ok::<(), ErrorCode>(())
            } else {
                Err::<(), ErrorCode>(ErrorCode::Overflow)
            },
            final(self).key == old(self).key,
            final(self).lamports == if old(self).lamports + amount <= u64::MAX {
                old(self).lamports + amount
            } else {
                old(self).lamports as int
            },
    {
        match self.lamports.checked_add(amount) {
            Some(sum) => {
                self.lamports = sum;
                Ok(())
            },
            None => Err(ErrorCode::Overflow),
        }
    }
}

/// Whether `amount` can move from a balance of `from` to a balance of `to`: the
/// one holds it and the other has room for it.
pub open spec fn transfer_fits(from: nat, to: nat, amount: nat) -> bool {
    amount <= from && to + amount <= u64::MAX
}

/// Moves `amount` from one balance to another in one step: both change, or neither.
pub fn transfer(from: &mut Account, to: &mut Account, amount: u64) -> (result: Result<
    (),
    ErrorCode,
>)
    ensures
        final(from).key == old(from).key,
        final(to).key == old(to).key,
        transfer_fits(old(from).lamports as nat, old(to).lamports as nat, amount as nat) ==> {
            &&& result == Ok::<(), ErrorCode>(())
            &&& final(from).lamports == old(from).lamports - amount
            &&& final(to).lamports == old(to).lamports + amount
        },
        !transfer_fits(old(from).lamports as nat, old(to).lamports as nat, amount as nat) ==> {
            &&& result == Err::<(), ErrorCode>(ErrorCode::Overflow)
            &&& *final(from) == *old(from)
            &&& *final(to) == *old(to)
        },
{
    let mut source = *from;
    let mut target = *to;
    match source.debit(amount) {
        Ok(()) => {},
        Err(e) => { return Err(e); },
    }
    match target.credit(amount) {
        Ok(()) => {},
        Err(e) => { return Err(e); },
    }
    *from = source;
    *to = target;
    Ok(())
}

/// Where a task stands. `Completed` and `Cancelled` are final.
#[derive(Clone, Copy, Debug, PartialEq, Eq, Structural)]
pub enum TaskStatus {
    Active,
    Completed,
    Cancelled,
}

/// Where a submission stands. `Approved` and `Rejected` are final.
#[derive(Clone, Copy, Debug, PartialEq, Eq, Structural)]
pub enum SubmissionStatus {
    Pending,
    Approved,
    Rejected,
}

/// Why an instruction was refused.
#[derive(Clone, Copy, Debug, PartialEq, Eq, Structural)]
pub enum ErrorCode {
    /// A product or a sum does not fit in 64 bits, or a difference would be negative.
    Overflow,
    /// The task is completed or cancelled.
    TaskNotActive,
    /// Every slot of the task is already paid, or it has none.
    TaskFull,
    /// The caller is not the task's requester.
    Unauthorized,
    /// The submission has already been reviewed.
    InvalidStatus,
}

/// Why a task was not created.
#[derive(Clone, Copy, Debug, PartialEq, Eq, Structural)]
pub enum CreateTaskError {
    /// The terms of the task were refused with this error.
    Code(ErrorCode),
    /// The amount to lock could not move from the requester into escrow: the
    /// requester holds less, or escrow has no room for it.
    TransferRefused,
}

impl ErrorCode {
    /// The text that is shown for the error.
    pub fn message(&self) -> (text: &'static str)
        ensures
            text@ == match *self {
                ErrorCode::Overflow => "Arithmetic overflow"@,
                ErrorCode::TaskNotActive => "Task is not active"@,
                ErrorCode::TaskFull => "Task is full"@,
                ErrorCode::Unauthorized => "Unauthorized"@,
                ErrorCode::InvalidStatus => "Invalid status"@,
            },
    {
        match self {
            ErrorCode::Overflow => "Arithmetic overflow",
            ErrorCode::TaskNotActive => "Task is not active",
            ErrorCode::TaskFull => "Task is full",
            ErrorCode::Unauthorized => "Unauthorized",
            ErrorCode::InvalidStatus => "Invalid status",
        }
    }
}

/// A funded request for work.
#[derive(Clone, Debug, PartialEq, Eq)]
pub struct Task {
    pub task_id: String,
    /// Who funded the task; the only caller that may review or cancel.
    pub requester: Address,
    pub payment_per_worker: u64,
    pub workers_needed: u8,
    /// How many submissions have been approved and paid.
    pub workers_completed: u8,
    /// The platform's fee in basis points: 10000 is the whole payment.
    pub platform_fee_bps: u16,
    /// What was locked when the task was created.
    pub escrow_amount: u64,
    pub created_at: i64,
    pub status: TaskStatus,
}

impl Task {
    /// Whether nothing can change the task any more.
    pub open spec fn is_terminal(&self) -> bool {
        self.status != TaskStatus::Active
    }

    /// What one approval takes out of escrow: the worker's payment and the fee on it.
    pub open spec fn approval_cost(&self) -> nat {
        self.payment_per_worker as nat + platform_fee_of(
            self.payment_per_worker as nat,
            self.platform_fee_bps as nat,
        )
    }

    /// What the approvals so far have taken out of escrow.
    pub open spec fn paid_out(&self) -> nat {
        self.workers_completed as nat * self.approval_cost()
    }

    /// What the approved workers were paid together, fees apart.
    pub open spec fn completed_payment(&self) -> nat {
        self.payment_per_worker as nat * self.workers_completed as nat
    }

    /// What a cancellation returns: the locked amount less the payments made and
    /// the fee on their sum.
    pub open spec fn refund_due(&self) -> int {
        self.escrow_amount - self.completed_payment() - platform_fee_of(
            self.completed_payment(),
            self.platform_fee_bps as nat,
        )
    }

    /// What has left escrow towards the requester: the refund once the task is
    /// cancelled, nothing before.
    pub open spec fn refunded(&self) -> int {
        if self.status == TaskStatus::Cancelled {
            self.refund_due()
        } else {
            0
        }
    }

    /// What escrow holds for the task while every movement of funds is accounted for.
    pub open spec fn escrow_due(&self) -> int {
        self.escrow_amount - self.paid_out() - self.refunded()
    }

    /// Whether `balance` is what escrow holds for the task.
    pub open spec fn backed_by(&self, balance: u64) -> bool {
        balance == self.escrow_due()
    }

    /// What holds of every task from its creation on: the identifier is short, the
    /// locked amount is the one that the terms of the task give, no more slots are
    /// paid than the task has, and the task is completed exactly when it has a slot
    /// and every slot is paid.
    pub open spec fn wf(&self) -> bool {
        &&& stored_len(self.task_id@) <= MAX_ID_LEN
        &&& escrow_computable(
            self.payment_per_worker as nat,
            self.workers_needed as nat,
            self.platform_fee_bps as nat,
        )
        &&& self.escrow_amount == escrow_amount_of(
            self.payment_per_worker as nat,
            self.workers_needed as nat,
            self.platform_fee_bps as nat,
        )
        &&& self.workers_completed <= self.workers_needed
        &&& (self.status == TaskStatus::Completed) == (self.workers_needed > 0
            && self.workers_completed == self.workers_needed)
    }
}

/// One worker's claim to have done a task.
#[derive(Clone, Debug, PartialEq, Eq)]
pub struct Submission {
    pub submission_id: String,
    /// The address of the task that the work is for.
    pub task: Address,
    pub worker: Address,
    pub submitted_at: i64,
    /// When the requester decided; `None` while the submission is pending.
    pub reviewed_at: Option<i64>,
    pub status: SubmissionStatus,
}

impl Submission {
    /// Whether the review of the submission is over.
    pub open spec fn is_terminal(&self) -> bool {
        self.status != SubmissionStatus::Pending
    }

    /// What holds of every submission from the moment it is made: the identifier is
    /// short, and the time of review is set exactly when the review is over.
    pub open spec fn wf(&self) -> bool {
        &&& stored_len(self.submission_id@) <= MAX_ID_LEN
        &&& (self.status == SubmissionStatus::Pending) == (self.reviewed_at is None)
    }
}

} // verus!
