//! Refund policy engine: maps an escrowed amount and the time remaining
//! until the appointment to a three-way split among client, salon owner,
//! and platform treasury.

use vstd::prelude::*;

verus! {

/// Conversion rate from one whole currency unit to the ledger's native unit.
pub const EUR_TO_LAMPORTS: u64 = 50_000_000;

/// Platform commission in basis points (3%).
pub const APP_COMMISSION_BPS: u64 = 300;

/// Tier threshold: 48 hours before the appointment, in seconds.
pub const HOURS_48: i64 = 48 * 60 * 60;

/// Tier threshold: 24 hours before the appointment, in seconds.
pub const HOURS_24: i64 = 24 * 60 * 60;

/// Percentage of the escrowed amount refunded to the client, selected by
/// the time remaining until the appointment (strictly-greater comparisons,
/// descending tiers).
pub open spec fn spec_refund_percentage(t: int) -> int {
    if t > HOURS_48 {
        100
    } else if t > HOURS_24 {
        80
    } else if t > 0 {
        50
    } else {
        0
    }
}

/// Flat cancellation fee owed to the salon, in whole currency units,
/// selected by the same tiers as the refund percentage.
pub open spec fn spec_flat_fee_eur(t: int) -> int {
    if t > HOURS_48 {
        0
    } else if t > HOURS_24 {
        2
    } else if t > 0 {
        5
    } else {
        10
    }
}

/// The flat fee converted to the ledger's native unit.
pub open spec fn spec_flat_fee_lamports(t: int) -> int {
    spec_flat_fee_eur(t) * EUR_TO_LAMPORTS
}

/// The client's refund: the tier percentage of the amount, rounded down.
pub open spec fn spec_client_refund(amount: int, t: int) -> int {
    amount * spec_refund_percentage(t) / 100
}

/// The fee actually charged: the converted flat fee, capped so that
/// refund plus fee never exceeds the escrowed amount.
pub open spec fn spec_actual_fee(amount: int, t: int) -> int {
    let flat = spec_flat_fee_lamports(t);
    let room = amount - spec_client_refund(amount, t);
    if flat < room {
        flat
    } else {
        room
    }
}

/// The platform's commission, carved out of the actual fee (not out of
/// the full amount).
pub open spec fn spec_commission(amount: int, t: int) -> int {
    spec_actual_fee(amount, t) * APP_COMMISSION_BPS / 10000
}

/// What remains of the actual fee for the salon owner after the commission.
pub open spec fn spec_provider_fee(amount: int, t: int) -> int {
    spec_actual_fee(amount, t) - spec_commission(amount, t)
}

/// The refund never exceeds the escrowed amount.
pub proof fn lemma_refund_le_amount(amount: int, t: int)
    requires
        amount >= 0,
    ensures
        0 <= spec_client_refund(amount, t) <= amount,
{
    let p = spec_refund_percentage(t);
    assert(0 <= p <= 100);
    assert(0 <= amount * p / 100 <= amount) by (nonlinear_arith)
        requires
            amount >= 0 && 0 <= p <= 100,
    ;
}

/// All three legs of the split are nonnegative and together never exceed
/// the escrowed amount. (Together with `lemma_split_conserves` this is the
/// conservation property; the sum can fall short of the amount only where
/// the cap of `spec_actual_fee` leaves the converted flat fee intact.)
pub proof fn lemma_split_bounds(amount: int, t: int)
    requires
        amount >= 0,
    ensures
        spec_client_refund(amount, t) >= 0,
        spec_provider_fee(amount, t) >= 0,
        spec_commission(amount, t) >= 0,
        spec_client_refund(amount, t) + spec_provider_fee(amount, t) + spec_commission(amount, t)
            <= amount,
{
    lemma_refund_le_amount(amount, t);
    let fee = spec_actual_fee(amount, t);
    assert(0 <= fee <= amount - spec_client_refund(amount, t));
    assert(0 <= fee * APP_COMMISSION_BPS / 10000 <= fee) by (nonlinear_arith)
        requires
            fee >= 0,
    ;
}

/// Exact conservation: wherever the converted flat fee is at least the gap
/// between the amount and the refund (so the cap binds, or the gap is zero),
/// the three legs sum exactly to the escrowed amount.
pub proof fn lemma_split_conserves(amount: int, t: int)
    requires
        amount >= 0,
        amount - spec_client_refund(amount, t) <= spec_flat_fee_lamports(t),
    ensures
        spec_client_refund(amount, t) + spec_provider_fee(amount, t)
            + spec_commission(amount, t) == amount,
{
    lemma_refund_le_amount(amount, t);
    assert(spec_actual_fee(amount, t) == amount - spec_client_refund(amount, t));
}

/// Tier monotonicity: the client's refund never grows as the time remaining
/// until the appointment shrinks.
pub proof fn lemma_refund_monotone(amount: int, t1: int, t2: int)
    requires
        amount >= 0,
        t2 <= t1,
    ensures
        spec_client_refund(amount, t2) <= spec_client_refund(amount, t1),
{
    let p1 = spec_refund_percentage(t1);
    let p2 = spec_refund_percentage(t2);
    assert(p2 <= p1);
    assert(amount * p2 / 100 <= amount * p1 / 100) by (nonlinear_arith)
        requires
            amount >= 0 && p2 <= p1,
    ;
}

/// Boundary exactness: the tier comparisons are strict, so exactly 48 hours
/// remaining falls in the 80%/2-unit tier, exactly 24 hours in the 50%/5-unit
/// tier, and zero (or negative) time in the 0%/10-unit tier.
pub proof fn lemma_boundary_tiers(amount: int)
    requires
        amount >= 0,
    ensures
        spec_client_refund(amount, HOURS_48 as int) == amount * 80 / 100,
        spec_flat_fee_eur(HOURS_48 as int) == 2,
        spec_client_refund(amount, HOURS_24 as int) == amount * 50 / 100,
        spec_flat_fee_eur(HOURS_24 as int) == 5,
        spec_client_refund(amount, 0) == 0,
        spec_flat_fee_eur(0) == 10,
{
    assert(spec_refund_percentage(HOURS_48 as int) == 80);
    assert(spec_refund_percentage(HOURS_24 as int) == 50);
    assert(spec_refund_percentage(0) == 0);
    assert(amount * 0 == 0) by (nonlinear_arith);
}

/// The platform's commission on a completed or no-show reservation: taken
/// on the full escrowed amount, unlike the cancellation path, where it is
/// carved out of the (much smaller) fee.
pub open spec fn spec_completion_commission(amount: int) -> int {
    amount * APP_COMMISSION_BPS / 10000
}

/// What the salon owner receives on completion or no-show: the full amount
/// less the platform's commission.
pub open spec fn spec_completion_payment(amount: int) -> int {
    amount - spec_completion_commission(amount)
}

/// The completion split is exact: both legs are nonnegative and together
/// return the whole escrowed amount.
pub proof fn lemma_completion_split(amount: int)
    requires
        amount >= 0,
    ensures
        0 <= spec_completion_commission(amount) <= amount,
        0 <= spec_completion_payment(amount) <= amount,
        spec_completion_commission(amount) + spec_completion_payment(amount) == amount,
{
    assert(0 <= amount * 300 / 10000 <= amount) by (nonlinear_arith)
        requires
            amount >= 0,
    ;
}

/// Compute the two-way split for a completion or no-show: the salon owner's
/// payment and the platform's commission, in that order.
pub fn calculate_completion_split(amount: u64) -> (r: (u64, u64))
    ensures
        r.0 == spec_completion_payment(amount as int),
        r.1 == spec_completion_commission(amount as int),
        r.0 + r.1 == amount,
{
    proof {
        lemma_completion_split(amount as int);
    }
    let wide_commission: u128 = (amount as u128) * (APP_COMMISSION_BPS as u128) / 10000;
    assert(wide_commission == spec_completion_commission(amount as int));
    let app_commission: u64 = wide_commission as u64;
    (amount - app_commission, app_commission)
}

/// Compute the three-way split for a cancellation: the client's refund,
/// the salon owner's fee, and the platform's commission, in that order.
pub fn calculate_refund(amount: u64, time_until_appointment: i64) -> (r: (u64, u64, u64))
    ensures
        r.0 == spec_client_refund(amount as int, time_until_appointment as int),
        r.1 == spec_provider_fee(amount as int, time_until_appointment as int),
        r.2 == spec_commission(amount as int, time_until_appointment as int),
        r.0 + r.1 + r.2 <= amount,
{
    let ghost t = time_until_appointment as int;
    let (client_percentage, salon_fee_eur): (u64, u64) = if time_until_appointment > HOURS_48 {
        (100, 0)
    } else if time_until_appointment > HOURS_24 {
        (80, 2)
    } else if time_until_appointment > 0 {
        (50, 5)
    } else {
        (0, 10)
    };
    assert(client_percentage == spec_refund_percentage(t));
    assert(salon_fee_eur == spec_flat_fee_eur(t));

    proof {
        lemma_refund_le_amount(amount as int, t);
        lemma_split_bounds(amount as int, t);
    }
    let wide_refund: u128 = (amount as u128) * (client_percentage as u128) / 100;
    assert(wide_refund == spec_client_refund(amount as int, t));
    let client_refund: u64 = wide_refund as u64;

    let salon_fee: u64 = salon_fee_eur * EUR_TO_LAMPORTS;
    let room: u64 = amount - client_refund;
    let actual_salon_fee: u64 = if salon_fee < room {
        salon_fee
    } else {
        room
    };
    assert(actual_salon_fee == spec_actual_fee(amount as int, t));

    let wide_commission: u128 = (actual_salon_fee as u128) * (APP_COMMISSION_BPS as u128) / 10000;
    assert(wide_commission == spec_commission(amount as int, t));
    assert(spec_provider_fee(amount as int, t) >= 0);
    assert(wide_commission <= actual_salon_fee as u128);
    let app_commission: u64 = wide_commission as u64;

    (client_refund, actual_salon_fee - app_commission, app_commission)
}

} // verus!


