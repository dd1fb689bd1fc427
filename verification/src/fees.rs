//! What a task costs: the payments, the platform's fee and their sum.

use crate::state::ErrorCode;
use vstd::arithmetic::div_mod::{
    lemma_div_is_ordered, lemma_div_multiples_vanish, lemma_fundamental_div_mod,
};
use vstd::arithmetic::mul::{
    lemma_mul_inequality, lemma_mul_is_associative, lemma_mul_is_commutative,
    lemma_mul_is_distributive_add,
};
use vstd::prelude::*;

verus! {

/// The number of basis points in a whole.
pub const BPS_DENOMINATOR: u64 = 10000;

/// What all the workers of a task are paid together.
pub open spec fn total_payment_of(payment_per_worker: nat, workers: nat) -> nat {
    payment_per_worker * workers
}

/// The platform's share of `amount` at `fee_bps` basis points, rounded down.
pub open spec fn platform_fee_of(amount: nat, fee_bps: nat) -> nat {
    (amount * fee_bps) / (BPS_DENOMINATOR as nat)
}

/// What a task locks: the payments of all its workers and the fee on their sum.
pub open spec fn escrow_amount_of(payment_per_worker: nat, workers: nat, fee_bps: nat) -> nat {
    total_payment_of(payment_per_worker, workers) + platform_fee_of(
        total_payment_of(payment_per_worker, workers),
        fee_bps,
    )
}

/// Whether the fee on `amount` can be computed: the product that is divided fits in
/// 64 bits.
pub open spec fn fee_computable(amount: nat, fee_bps: nat) -> bool {
    amount * fee_bps <= u64::MAX
}

/// Whether every step towards the escrow amount fits in 64 bits.
pub open spec fn escrow_computable(payment_per_worker: nat, workers: nat, fee_bps: nat) -> bool {
    &&& total_payment_of(payment_per_worker, workers) <= u64::MAX
    &&& fee_computable(total_payment_of(payment_per_worker, workers), fee_bps)
    &&& escrow_amount_of(payment_per_worker, workers, fee_bps) <= u64::MAX
}

/// The payment of one worker times the number of workers.
pub fn total_payment(payment_per_worker: u64, workers_needed: u8) -> (total: Result<
    u64,
    ErrorCode,
>)
    ensures
        total == if total_payment_of(payment_per_worker as nat, workers_needed as nat) <= u64::MAX {
            Ok::<u64, ErrorCode>(
                total_payment_of(payment_per_worker as nat, workers_needed as nat) as u64,
            )
        } else {
            Err::<u64, ErrorCode>(ErrorCode::Overflow)
        },
{
    match payment_per_worker.checked_mul(workers_needed as u64) {
        Some(total) => Ok(total),
        None => Err(ErrorCode::Overflow),
    }
}

/// The platform's fee on `amount`. The product with the rate is checked; the
/// division cannot fail.
pub fn platform_fee(amount: u64, fee_bps: u16) -> (fee: Result<u64, ErrorCode>)
    ensures
        fee == if fee_computable(amount as nat, fee_bps as nat) {
            Ok::<u64, ErrorCode>(platform_fee_of(amount as nat, fee_bps as nat) as u64)
        } else {
            Err::<u64, ErrorCode>(ErrorCode::Overflow)
        },
{
    match amount.checked_mul(fee_bps as u64) {
        Some(scaled) => Ok(scaled / BPS_DENOMINATOR),
        None => Err(ErrorCode::Overflow),
    }
}

/// What has to be locked for a task of `workers_needed` workers.
pub fn escrow_amount(payment_per_worker: u64, workers_needed: u8, platform_fee_bps: u16) -> (locked:
    Result<u64, ErrorCode>)
    ensures
        locked == if escrow_computable(
            payment_per_worker as nat,
            workers_needed as nat,
            platform_fee_bps as nat,
        ) {
            Ok::<u64, ErrorCode>(
                escrow_amount_of(
                    payment_per_worker as nat,
                    workers_needed as nat,
                    platform_fee_bps as nat,
                ) as u64,
            )
        } else {
            Err::<u64, ErrorCode>(ErrorCode::Overflow)
        },
{
    let total = match total_payment(payment_per_worker, workers_needed) {
        Ok(total) => total,
        Err(e) => { return Err(e); },
    };
    let fee = match platform_fee(total, platform_fee_bps) {
        Ok(fee) => fee,
        Err(e) => { return Err(e); },
    };
    match total.checked_add(fee) {
        Some(locked) => Ok(locked),
        None => Err(ErrorCode::Overflow),
    }
}

/// The fee does not fall when the amount grows.
pub proof fn lemma_fee_is_monotonic(smaller: nat, larger: nat, fee_bps: nat)
    requires
        smaller <= larger,
    ensures
        platform_fee_of(smaller, fee_bps) <= platform_fee_of(larger, fee_bps),
{
    lemma_mul_inequality(smaller as int, larger as int, fee_bps as int);
    lemma_div_is_ordered((smaller * fee_bps) as int, (larger * fee_bps) as int, 10000);
}

/// Rounding favours the payer: the fees on `count` payments of `amount`, each
/// rounded down by itself, are never more than the fee on all of them together.
pub proof fn lemma_fee_on_parts(count: nat, amount: nat, fee_bps: nat)
    ensures
        count * platform_fee_of(amount, fee_bps) <= platform_fee_of(count * amount, fee_bps),
{
    let k = count as int;
    let scaled = (amount * fee_bps) as int;
    let each = scaled / 10000;
    lemma_fundamental_div_mod(scaled, 10000);
    lemma_mul_inequality(10000 * each, scaled, k);
    lemma_mul_is_commutative(10000 * each, k);
    lemma_mul_is_commutative(scaled, k);
    lemma_mul_is_associative(k, 10000, each);
    lemma_mul_is_commutative(k, 10000);
    lemma_mul_is_associative(10000, k, each);
    assert(10000 * (k * each) <= k * scaled);
    lemma_div_is_ordered(10000 * (k * each), k * scaled, 10000);
    lemma_div_multiples_vanish(k * each, 10000);
    lemma_mul_is_associative(k, amount as int, fee_bps as int);
}

/// What rounding leaves behind is small: the fee on `count` payments together is
/// less than `count` above the fees on each of them.
pub proof fn lemma_fee_residue(count: nat, amount: nat, fee_bps: nat)
    requires
        count > 0,
    ensures
        platform_fee_of(count * amount, fee_bps) < count * platform_fee_of(amount, fee_bps) + count,
{
    let k = count as int;
    let scaled = (amount * fee_bps) as int;
    let each = scaled / 10000;
    let rest = scaled % 10000;
    let whole = k * each + k;
    let top = k * scaled;
    lemma_fundamental_div_mod(scaled, 10000);
    lemma_mul_is_associative(k, amount as int, fee_bps as int);
    assert(top < 10000 * whole) by {
        lemma_mul_is_distributive_add(k, 10000 * each, rest);
        lemma_mul_is_associative(k, 10000, each);
        lemma_mul_is_commutative(k, 10000);
        lemma_mul_is_associative(10000, k, each);
        lemma_mul_inequality(rest, 9999, k);
        lemma_mul_is_commutative(rest, k);
        lemma_mul_is_commutative(9999, k);
        lemma_mul_is_distributive_add(10000, k * each, k);
    }
    if top / 10000 >= whole {
        lemma_fundamental_div_mod(top, 10000);
        lemma_mul_inequality(whole, top / 10000, 10000);
        lemma_mul_is_commutative(whole, 10000);
        lemma_mul_is_commutative(top / 10000, 10000);
        assert(false);
    }
}

} // verus!
