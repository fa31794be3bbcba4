use solbook::policy::{calculate_completion_split, calculate_refund};

const HOUR: i64 = 3600;
const ONE_SOL: u64 = 1_000_000_000;

#[test]
fn full_refund_beyond_48_hours() {
    // 72 hours remaining: 100% refund, no fee, no commission.
    let (refund, fee, commission) = calculate_refund(ONE_SOL, 72 * HOUR);
    assert_eq!(refund, 1_000_000_000);
    assert_eq!(fee, 0);
    assert_eq!(commission, 0);
    assert_eq!(refund + fee + commission, ONE_SOL);
}

#[test]
fn partial_refund_at_30_hours() {
    // 30 hours remaining: 80% refund; the 2-unit fee converts to
    // 100,000,000 native units, under the 200,000,000 cap; 3% of the fee
    // goes to the treasury.
    let (refund, fee, commission) = calculate_refund(ONE_SOL, 30 * HOUR);
    assert_eq!(refund, 800_000_000);
    assert_eq!(fee, 97_000_000);
    assert_eq!(commission, 3_000_000);
    // The converted fee sits under the cap, so 100,000,000 of the escrow is
    // disbursed to nobody: the split falls short of the amount here.
    assert_eq!(refund + fee + commission, 900_000_000);
}

#[test]
fn boundary_48_hours_is_strict() {
    // Exactly 48 hours falls in the 80%/2-unit tier, not the 100% tier.
    let (refund, fee, commission) = calculate_refund(1000, 48 * HOUR);
    assert_eq!(refund, 800);
    // Converted fee far exceeds the 200 left, so the cap binds:
    // fee = 200 - commission, commission = 200 * 300 / 10000.
    assert_eq!(commission, 6);
    assert_eq!(fee, 194);
    assert_eq!(refund + fee + commission, 1000);
}

#[test]
fn boundary_24_hours_is_strict() {
    // Exactly 24 hours falls in the 50%/5-unit tier.
    let (refund, fee, commission) = calculate_refund(1000, 24 * HOUR);
    assert_eq!(refund, 500);
    assert_eq!(commission, 15);
    assert_eq!(fee, 485);
    assert_eq!(refund + fee + commission, 1000);
}

#[test]
fn boundary_zero_is_past_tier() {
    // Zero seconds remaining falls in the 0%/10-unit tier.
    let (refund, fee, commission) = calculate_refund(1000, 0);
    assert_eq!(refund, 0);
    assert_eq!(commission, 30);
    assert_eq!(fee, 970);
    assert_eq!(refund + fee + commission, 1000);
}

#[test]
fn negative_delta_uses_past_tier() {
    let (refund, fee, commission) = calculate_refund(1000, -5 * HOUR);
    assert_eq!(refund, 0);
    assert_eq!(fee, 970);
    assert_eq!(commission, 30);
}

#[test]
fn zero_amount_splits_to_zero() {
    for t in [100 * HOUR, 30 * HOUR, 10 * HOUR, 0, -HOUR] {
        assert_eq!(calculate_refund(0, t), (0, 0, 0));
    }
}

#[test]
fn refund_is_monotone_across_tiers() {
    let deltas = [100 * HOUR, 49 * HOUR, 48 * HOUR, 30 * HOUR, 24 * HOUR, HOUR, 0, -HOUR];
    let mut previous = u64::MAX;
    for t in deltas {
        let (refund, _, _) = calculate_refund(ONE_SOL, t);
        assert!(refund <= previous);
        previous = refund;
    }
}

#[test]
fn split_never_exceeds_amount() {
    for amount in [0u64, 1, 99, 100, 1000, ONE_SOL, u64::MAX] {
        for t in [100 * HOUR, 30 * HOUR, 10 * HOUR, 0, -HOUR] {
            let (refund, fee, commission) = calculate_refund(amount, t);
            assert!(refund as u128 + fee as u128 + commission as u128 <= amount as u128);
        }
    }
}

#[test]
fn small_amount_conserves_exactly() {
    // Where the cap binds, nothing is left stranded in escrow.
    let (refund, fee, commission) = calculate_refund(100, 30 * HOUR);
    assert_eq!(refund, 80);
    assert_eq!(fee, 20);
    assert_eq!(commission, 0);
    assert_eq!(refund + fee + commission, 100);
}

#[test]
fn completion_split_takes_three_percent_of_full_amount() {
    let (payment, commission) = calculate_completion_split(ONE_SOL);
    assert_eq!(commission, 30_000_000);
    assert_eq!(payment, 970_000_000);
    assert_eq!(payment + commission, ONE_SOL);
}

#[test]
fn completion_split_of_zero_is_zero() {
    assert_eq!(calculate_completion_split(0), (0, 0));
}
