use degen_cash::pricing::{
    fee_amount, final_charge, nav_percent, scaled, variance_adjustment, worst_case_charge,
    BPS_SCALE, NAV_PAR, VARIANCE_SCALE,
};

#[test]
fn scales() {
    assert_eq!(VARIANCE_SCALE, 255);
    assert_eq!(BPS_SCALE, 10000);
    assert_eq!(NAV_PAR, 100);
    assert_eq!(scaled(1000, 3, 7), 428);
    assert_eq!(scaled(u64::MAX, u64::MAX, 1), (u64::MAX as u128) * (u64::MAX as u128));
}

#[test]
fn variance_adjustment_is_amount_times_roll_over_255() {
    assert_eq!(variance_adjustment(1000, 0), 0);
    assert_eq!(variance_adjustment(1000, 255), 1000);
    assert_eq!(variance_adjustment(1000, 100), 392);
    assert_eq!(variance_adjustment(50, 1), 0);
    assert_eq!(variance_adjustment(u64::MAX, 255), u64::MAX as u128);
}

#[test]
fn fee_is_amount_times_255_less_variance_over_10000() {
    assert_eq!(fee_amount(50, 0), 1);
    assert_eq!(fee_amount(1_000_000, 0), 25_500);
    assert_eq!(fee_amount(1_000_000, 100), 15_500);
    assert_eq!(fee_amount(1_000_000, 255), 0);
    assert_eq!(fee_amount(39, 0), 0);
    assert_eq!(fee_amount(40, 0), 1);
}

#[test]
fn nav_percent_is_reserve_over_collateral() {
    assert_eq!(nav_percent(100, 100), 100);
    assert_eq!(nav_percent(50, 100), 50);
    assert_eq!(nav_percent(300, 100), 300);
    assert_eq!(nav_percent(0, 100), 0);
    assert_eq!(nav_percent(199, 100), 199);
    assert_eq!(nav_percent(1, 3), 33);
    // An empty pool counts as exactly backed.
    assert_eq!(nav_percent(0, 0), 100);
    assert_eq!(nav_percent(12345, 0), 100);
    assert_eq!(nav_percent(u64::MAX, 1), (u64::MAX as u128) * 100);
}

#[test]
fn worst_case_is_amount_premium_and_fee() {
    assert_eq!(worst_case_charge(50, 0), 51);
    assert_eq!(worst_case_charge(1000, 100), 1407);
    assert_eq!(worst_case_charge(1000, 255), 2000);
    assert_eq!(worst_case_charge(0, 17), 0);
}

#[test]
fn charge_at_par() {
    assert_eq!(final_charge(100, 100, 100, 50, 0, 0, true), 51);
    assert_eq!(final_charge(100, 100, 100, 50, 0, 0, false), 51);
    // premium and discount of 392 on 1000, fee 15
    assert_eq!(final_charge(100, 100, 10_000, 1000, 100, 100, false), 1407);
    assert_eq!(final_charge(100, 100, 10_000, 1000, 100, 100, true), 623);
}

#[test]
fn charge_below_par_is_discounted() {
    // nav 50: discount of 10000 * 50 / 10000 = 50 on 10255
    assert_eq!(final_charge(200, 100, 1_000_000, 10_000, 0, 0, true), 10_205);
    // nav 0 and a full variance discount: 0 + 0 fee - 1 % never falls below 0
    assert_eq!(final_charge(100, 0, 1_000_000, 10_000, 255, 255, true), 0);
}

#[test]
fn charge_above_par_is_raised_by_the_surplus() {
    // nav 300: penalty of 10000 * 200 / 10000 = 200 on 10255
    assert_eq!(final_charge(100, 300, 1_000_000, 10_000, 0, 0, true), 10_455);
    // nav 101: penalty of 10000 * 1 / 10000 = 1
    assert_eq!(final_charge(100, 101, 1_000_000, 10_000, 0, 0, true), 10_256);
}

#[test]
fn charge_never_exceeds_the_balance() {
    assert_eq!(final_charge(100, 100, 40, 50, 0, 0, true), 40);
    assert_eq!(final_charge(100, 300, 10_300, 10_000, 0, 0, true), 10_300);
    // A penalty beyond 128 bits still ends at the balance.
    assert_eq!(final_charge(1, u64::MAX, u64::MAX, u64::MAX, 0, 0, false), u64::MAX);
    assert_eq!(final_charge(1, u64::MAX, 12, u64::MAX, 255, 255, true), 12);
}
