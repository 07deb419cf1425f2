//! How a payment divides: fees are rounded up, the merchant takes the rest.
use crate::types::{FeeSplit, SettlementError, SettlementRule, BPS_DENOMINATOR};
use vstd::prelude::*;

verus! {

/// `bps` basis points of `amount`, rounded up to a whole unit.
pub open spec fn fee(amount: int, bps: int) -> int {
    (amount * bps + (BPS_DENOMINATOR - 1)) / BPS_DENOMINATOR as int
}

/// The split of `amount` under `rule`: two rounded-up fees, and the remainder.
pub open spec fn split(amount: int, rule: SettlementRule) -> FeeSplit {
    let platform = fee(amount, rule.platform_fee_bps as int);
    let network = fee(amount, rule.network_fee_bps as int);
    FeeSplit {
        gross_amount: amount as i128,
        platform_fee_amount: platform as i128,
        network_fee_amount: network as i128,
        merchant_amount: (amount - platform - network) as i128,
    }
}

/// Whether the larger fee on `amount`, before the division, leaves `i128`.
pub open spec fn split_overflows(amount: int, rule: SettlementRule) -> bool {
    &&& rule.larger_fee() > 0
    &&& amount * rule.larger_fee() + (BPS_DENOMINATOR - 1) > i128::MAX
}

/// The bounds within which a split is computed without overflow.
proof fn lemma_fee_fits(amount: int, bps: int)
    requires
        0 <= amount <= i128::MAX,
        0 <= bps <= u32::MAX,
        bps > 0 ==> amount * bps + (BPS_DENOMINATOR - 1) <= i128::MAX,
    ensures
        0 <= amount * bps,
        amount * bps + (BPS_DENOMINATOR - 1) <= i128::MAX,
        0 <= fee(amount, bps) <= i128::MAX / 10_000,
{
    assert(0 <= amount * bps) by (nonlinear_arith)
        requires
            0 <= amount,
            0 <= bps,
    ;
    if bps == 0 {
        assert(amount * bps == 0) by (nonlinear_arith)
            requires
                bps == 0,
        ;
    }
}

/// The fees of a split that does not overflow, and the remainder, are what
/// [`split`] says, without wrapping.
pub proof fn lemma_split_fits(amount: int, rule: SettlementRule)
    requires
        0 <= amount <= i128::MAX,
        !split_overflows(amount, rule),
    ensures
        0 <= fee(amount, rule.platform_fee_bps as int) <= i128::MAX / 10_000,
        0 <= fee(amount, rule.network_fee_bps as int) <= i128::MAX / 10_000,
        0 <= amount * rule.platform_fee_bps <= i128::MAX - (BPS_DENOMINATOR - 1),
        0 <= amount * rule.network_fee_bps <= i128::MAX - (BPS_DENOMINATOR - 1),
{
    let larger = rule.larger_fee();
    let platform = rule.platform_fee_bps as int;
    let network = rule.network_fee_bps as int;
    assert(amount * platform <= amount * larger) by (nonlinear_arith)
        requires
            platform <= larger,
            amount >= 0,
    ;
    assert(amount * network <= amount * larger) by (nonlinear_arith)
        requires
            network <= larger,
            amount >= 0,
    ;
    lemma_fee_fits(amount, platform);
    lemma_fee_fits(amount, network);
}

/// Divides `amount` into the platform fee, the network fee and the merchant's
/// remainder. Fees are rounded up, so that none is collected short.
pub fn calculate_split(amount: i128, rule: &SettlementRule) -> (r: Result<
    FeeSplit,
    SettlementError,
>)
    requires
        amount >= 0,
    ensures
        split_overflows(amount as int, *rule) ==> r == Err::<FeeSplit, SettlementError>(
            SettlementError::AmountOverflow,
        ),
        !split_overflows(amount as int, *rule) ==> r == Ok::<FeeSplit, SettlementError>(
            split(amount as int, *rule),
        ),
        r matches Ok(s) ==> {
            &&& s.gross_amount == amount
            &&& s.platform_fee_amount == fee(amount as int, rule.platform_fee_bps as int)
            &&& s.network_fee_amount == fee(amount as int, rule.network_fee_bps as int)
            &&& s.merchant_amount == amount - s.platform_fee_amount - s.network_fee_amount
        },
{
    let denom: i128 = BPS_DENOMINATOR as i128;
    let max_bps: i128 = if rule.platform_fee_bps >= rule.network_fee_bps {
        rule.platform_fee_bps as i128
    } else {
        rule.network_fee_bps as i128
    };
    // The room left once the rounding term is set aside, so that the test is
    // exact at the boundary.
    let room: i128 = i128::MAX - (denom - 1);
    if max_bps > 0 && amount > room / max_bps {
        assert(amount * max_bps > room) by (nonlinear_arith)
            requires
                max_bps > 0,
                amount > room as int / max_bps as int,
        ;
        return Err(SettlementError::AmountOverflow);
    }
    let platform_bps: i128 = rule.platform_fee_bps as i128;
    let network_bps: i128 = rule.network_fee_bps as i128;
    proof {
        if max_bps > 0 {
            assert(amount * max_bps <= room) by (nonlinear_arith)
                requires
                    max_bps > 0,
                    amount >= 0,
                    amount <= room as int / max_bps as int,
            ;
        }
        lemma_split_fits(amount as int, *rule);
    }
    let platform_fee_amount: i128 = (amount * platform_bps + (denom - 1)) / denom;
    let network_fee_amount: i128 = (amount * network_bps + (denom - 1)) / denom;
    let merchant_amount: i128 = amount - platform_fee_amount - network_fee_amount;
    Ok(FeeSplit { gross_amount: amount, platform_fee_amount, network_fee_amount, merchant_amount })
}

} // verus!
