//! Pricing of a transfer: variance, fee and net-asset-value adjustment.
//!
//! The charge for a transfer of `A` with maximum variance `v`, sampled
//! variance `r` and a sign bit is, in integer arithmetic,
//!
//! * `A - A * r / 255` if the sign bit asks for a discount, `A + A * r / 255`
//!   if it asks for a premium;
//! * plus the fee `A * (255 - v) / 10000`;
//! * with `nav = reserve * 100 / collateral` (100 when there is no
//!   collateral): less `A * (100 - nav) / 10000` when `nav < 100`, never
//!   below zero, and plus `A * (nav - 100) / 10000` when `nav > 100`;
//! * and never more than the sender holds.
//!
//! The specification is stated over unbounded integers; the executable
//! functions compute the same values in 128-bit arithmetic.

use vstd::prelude::*;

verus! {

/// Denominator of the variance: a roll of 255 moves the whole amount.
pub const VARIANCE_SCALE: u64 = 255;

/// Denominator of the fee and of the net-asset-value adjustment.
pub const BPS_SCALE: u64 = 10000;

/// The net-asset-value percentage at which the reserve exactly backs the
/// collateral.
pub const NAV_PAR: u64 = 100;

/// `amount * numerator / denominator`, rounded down.
pub open spec fn spec_scaled(amount: u64, numerator: u64, denominator: u64) -> int {
    (amount * numerator) / (denominator as int)
}

/// Share of the amount that the sampled variance moves.
pub open spec fn spec_variance_adjustment(amount: u64, roll: u8) -> int {
    spec_scaled(amount, roll as u64, VARIANCE_SCALE)
}

/// The amount after the variance: lowered for a discount, raised otherwise.
pub open spec fn spec_variance_adjusted(amount: u64, roll: u8, discount: bool) -> int {
    if discount {
        amount - spec_variance_adjustment(amount, roll)
    } else {
        amount + spec_variance_adjustment(amount, roll)
    }
}

/// Fee rate: the less variance a sender accepts, the higher the fee.
pub open spec fn spec_fee_bps(max_variance: u8) -> u64 {
    (255 - max_variance) as u64
}

/// Fee on the requested amount.
pub open spec fn spec_fee_amount(amount: u64, max_variance: u8) -> int {
    spec_scaled(amount, spec_fee_bps(max_variance), BPS_SCALE)
}

/// Reserve as a percentage of the collateral pool; 100 when the pool is empty.
pub open spec fn spec_nav_percent(reserve: u64, collateral: u64) -> int {
    if collateral > 0 {
        spec_scaled(reserve, NAV_PAR, collateral)
    } else {
        100
    }
}

/// Applies the net-asset-value adjustment to a charge that already holds the
/// variance and the fee.
pub open spec fn spec_nav_adjusted(amount: u64, with_fee: int, nav_percent: int) -> int {
    if nav_percent < 100 {
        let discount = (amount * (100 - nav_percent)) / 10000;
        if with_fee > discount {
            with_fee - discount
        } else {
            0
        }
    } else if nav_percent > 100 {
        with_fee + (amount * (nav_percent - 100)) / 10000
    } else {
        with_fee
    }
}

/// The charge before it is held to the sender's balance.
pub open spec fn spec_quoted_charge(
    collateral: u64,
    reserve: u64,
    amount: u64,
    max_variance: u8,
    roll: u8,
    discount: bool,
) -> int {
    spec_nav_adjusted(
        amount,
        spec_variance_adjusted(amount, roll, discount) + spec_fee_amount(amount, max_variance),
        spec_nav_percent(reserve, collateral),
    )
}

/// What the sender pays: the quoted charge, but no more than the balance.
pub open spec fn spec_final_charge(
    collateral: u64,
    reserve: u64,
    sender_balance: u64,
    amount: u64,
    max_variance: u8,
    roll: u8,
    discount: bool,
) -> int {
    let quoted = spec_quoted_charge(collateral, reserve, amount, max_variance, roll, discount);
    if quoted > sender_balance {
        sender_balance as int
    } else {
        quoted
    }
}

/// The most a sender can be asked for before the net-asset-value adjustment:
/// the amount, the largest premium and the fee.
pub open spec fn spec_worst_case_charge(amount: u64, max_variance: u8) -> int {
    amount + spec_scaled(amount, max_variance as u64, VARIANCE_SCALE) + spec_fee_amount(
        amount,
        max_variance,
    )
}

/// A scaled amount is not negative, and not above the amount when the
/// numerator is not above the denominator.
pub proof fn lemma_scaled_bounds(amount: u64, numerator: u64, denominator: u64)
    requires
        denominator > 0,
    ensures
        0 <= spec_scaled(amount, numerator, denominator),
        spec_scaled(amount, numerator, denominator) <= amount * numerator,
        amount * numerator <= u64::MAX * u64::MAX,
        numerator <= denominator ==> spec_scaled(amount, numerator, denominator) <= amount,
{
    let p: int = amount * numerator;
    let d: int = denominator as int;
    assert(0 <= p <= u64::MAX * u64::MAX) by (nonlinear_arith)
        requires
            p == amount * numerator,
            0 <= amount <= u64::MAX,
            0 <= numerator <= u64::MAX,
    ;
    assert(0 <= p / d <= p) by (nonlinear_arith)
        requires
            0 <= p,
            d > 0,
    ;
    if numerator <= denominator {
        assert(p / d <= amount) by (nonlinear_arith)
            requires
                p == amount * numerator,
                0 <= numerator <= d,
                0 <= amount,
                d > 0,
        ;
    }
}

/// The quoted charge is never negative.
pub proof fn lemma_quoted_charge_nonnegative(
    collateral: u64,
    reserve: u64,
    amount: u64,
    max_variance: u8,
    roll: u8,
    discount: bool,
)
    ensures
        0 <= spec_quoted_charge(collateral, reserve, amount, max_variance, roll, discount),
        0 <= spec_variance_adjustment(amount, roll) <= amount,
        0 <= spec_fee_amount(amount, max_variance) <= amount,
{
    lemma_scaled_bounds(amount, roll as u64, VARIANCE_SCALE);
    lemma_scaled_bounds(amount, (255 - max_variance) as u64, BPS_SCALE);
    let nav: int = spec_nav_percent(reserve, collateral);
    if nav > 100 {
        let bps: int = nav - 100;
        assert(0 <= (amount * bps) / 10000) by (nonlinear_arith)
            requires
                0 <= amount,
                0 <= bps,
        ;
    }
}

/// `amount * numerator / denominator` in 128-bit arithmetic.
pub fn scaled(amount: u64, numerator: u64, denominator: u64) -> (share: u128)
    requires
        denominator > 0,
    ensures
        share == spec_scaled(amount, numerator, denominator),
        numerator <= denominator ==> share <= amount,
{
    proof {
        lemma_scaled_bounds(amount, numerator, denominator);
    }
    ((amount as u128) * (numerator as u128)) / (denominator as u128)
}

/// Share of the amount that a variance roll moves: `amount * roll / 255`.
pub fn variance_adjustment(amount: u64, roll: u8) -> (adjustment: u128)
    ensures
        adjustment == spec_variance_adjustment(amount, roll),
        adjustment <= amount,
{
    scaled(amount, roll as u64, VARIANCE_SCALE)
}

/// Fee on the requested amount: `amount * (255 - max_variance) / 10000`.
pub fn fee_amount(amount: u64, max_variance: u8) -> (fee: u128)
    ensures
        fee == spec_fee_amount(amount, max_variance),
        fee <= amount,
{
    scaled(amount, (255 - max_variance) as u64, BPS_SCALE)
}

/// Reserve as a percentage of the collateral pool: `reserve * 100 /
/// collateral`, and 100 when the pool is empty.
pub fn nav_percent(reserve: u64, collateral: u64) -> (percent: u128)
    ensures
        percent == spec_nav_percent(reserve, collateral),
        percent <= 100 * u64::MAX,
{
    if collateral > 0 {
        proof {
            lemma_scaled_bounds(reserve, NAV_PAR, collateral);
            assert(reserve * 100 <= 100 * u64::MAX);
        }
        scaled(reserve, NAV_PAR, collateral)
    } else {
        100
    }
}

/// The largest charge before the net-asset-value adjustment: the amount, the
/// premium at the maximum variance and the fee.
pub fn worst_case_charge(amount: u64, max_variance: u8) -> (charge: u128)
    ensures
        charge == spec_worst_case_charge(amount, max_variance),
        amount <= charge <= 3 * amount,
{
    let premium: u128 = scaled(amount, max_variance as u64, VARIANCE_SCALE);
    let fee: u128 = fee_amount(amount, max_variance);
    (amount as u128) + premium + fee
}

/// What the sender pays for a transfer: the amount with variance, fee and
/// net-asset-value adjustment, held to the sender's balance.
pub fn final_charge(
    collateral: u64,
    reserve: u64,
    sender_balance: u64,
    amount: u64,
    max_variance: u8,
    roll: u8,
    discount: bool,
) -> (charge: u64)
    ensures
        charge == spec_final_charge(
            collateral,
            reserve,
            sender_balance,
            amount,
            max_variance,
            roll,
            discount,
        ),
        charge <= sender_balance,
{
    let adjustment: u128 = variance_adjustment(amount, roll);
    let modified: u128 = if discount {
        (amount as u128) - adjustment
    } else {
        (amount as u128) + adjustment
    };
    let fee: u128 = fee_amount(amount, max_variance);
    let with_fee: u128 = modified + fee;
    let nav: u128 = nav_percent(reserve, collateral);
    let quoted: u128 = if nav < 100 {
        let discount_bps: u64 = (100 - nav) as u64;
        let nav_discount: u128 = scaled(amount, discount_bps, BPS_SCALE);
        if with_fee > nav_discount {
            with_fee - nav_discount
        } else {
            0
        }
    } else if nav > 100 {
        let penalty_bps: u128 = nav - 100;
        match (amount as u128).checked_mul(penalty_bps) {
            Some(product) => with_fee + product / 10000,
            None => {
                proof {
                    let p: int = amount * (nav - 100);
                    assert(p / 10000 > u64::MAX) by (nonlinear_arith)
                        requires
                            p > u128::MAX,
                    ;
                }
                return sender_balance;
            },
        }
    } else {
        with_fee
    };
    if quoted > sender_balance as u128 {
        sender_balance
    } else {
        quoted as u64
    }
}

} // verus!
