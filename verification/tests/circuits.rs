use degen_cash::circuits::{
    deposit, init_global_dc_mint, init_user_dc_balance, transfer, withdraw, EmptyStruct,
};
use degen_cash::status::{
    BusinessStatus, STATUS_INSUFFICIENT_FUNDS, STATUS_OVERFLOW, STATUS_RNG_FAILURE,
    STATUS_SUCCESS,
};

#[test]
fn initial_values_are_zero() {
    assert_eq!(init_global_dc_mint(EmptyStruct), 0);
    assert_eq!(init_user_dc_balance(EmptyStruct), 0);
}

#[test]
fn status_codes_round_trip() {
    assert_eq!(STATUS_SUCCESS, 0);
    assert_eq!(STATUS_OVERFLOW, 1);
    assert_eq!(STATUS_INSUFFICIENT_FUNDS, 2);
    assert_eq!(STATUS_RNG_FAILURE, 3);
    for status in [
        BusinessStatus::Success,
        BusinessStatus::Overflow,
        BusinessStatus::InsufficientFunds,
        BusinessStatus::RngFailure,
    ] {
        assert_eq!(BusinessStatus::from_code(status.code()), Some(status));
    }
    assert_eq!(BusinessStatus::from_code(2), Some(BusinessStatus::InsufficientFunds));
    assert_eq!(BusinessStatus::from_code(4), None);
    assert_eq!(BusinessStatus::from_code(255), None);
}

#[test]
fn deposit_adds_to_reserve_and_balance() {
    assert_eq!(deposit(0, 0, 100), (0, 100, 100, 100));
    assert_eq!(deposit(500, 20, 7), (0, 7, 507, 27));
    assert_eq!(deposit(u64::MAX - 1, 0, 1), (0, 1, u64::MAX, 1));
    assert_eq!(deposit(3, 4, 0), (0, 0, 3, 4));
}

#[test]
fn deposit_reports_overflow_of_the_balance() {
    let (status, amount, reserve, balance) = deposit(0, u64::MAX - 5, 100);
    assert_eq!(status, STATUS_OVERFLOW);
    assert_eq!(amount, 100);
    assert_eq!(reserve, 100);
    assert_eq!(balance, 94);
}

#[test]
fn deposit_reports_overflow_of_the_reserve() {
    let (status, amount, reserve, balance) = deposit(u64::MAX, 10, 1);
    assert_eq!(status, STATUS_OVERFLOW);
    assert_eq!(amount, 1);
    assert_eq!(reserve, 0);
    assert_eq!(balance, 11);
}

#[test]
fn withdraw_takes_from_reserve_and_balance() {
    assert_eq!(withdraw(100, 100, 40), (0, 40, 60, 60));
    assert_eq!(withdraw(100, 100, 100), (0, 100, 0, 0));
    assert_eq!(withdraw(100, 30, 0), (0, 0, 100, 30));
}

#[test]
fn withdraw_beyond_the_balance_is_insufficient_funds() {
    let (status, amount, reserve, balance) = withdraw(100, 100, 150);
    assert_eq!(status, STATUS_INSUFFICIENT_FUNDS);
    assert_eq!(amount, 150);
    assert_eq!(reserve, 100u64.wrapping_sub(150));
    assert_eq!(balance, 100u64.wrapping_sub(150));
}

#[test]
fn withdraw_beyond_the_reserve_is_insufficient_funds() {
    let (status, _, reserve, balance) = withdraw(10, 100, 50);
    assert_eq!(status, STATUS_INSUFFICIENT_FUNDS);
    assert_eq!(reserve, 10u64.wrapping_sub(50));
    assert_eq!(balance, 50);
    assert_eq!(withdraw(100, 10, 50).0, STATUS_INSUFFICIENT_FUNDS);
}

#[test]
fn concrete_scenario() {
    // Deposit of 100 into an empty ledger.
    let (status, amount, reserve, balance) = deposit(0, 0, 100);
    assert_eq!((status, amount, reserve, balance), (0, 100, 100, 100));

    // Withdrawal of 150 is turned down; the ledger keeps reserve and balance.
    let (status, _, _, _) = withdraw(reserve, balance, 150);
    assert_eq!(status, 2);
    let (reserve, balance) = (100u64, 100u64);

    // Transfer of 50 without variance, the reserve backing the collateral.
    let fee = 50u64 * 255 / 10000;
    assert_eq!(fee, 1);
    let final_charge = 50 + fee;
    let out = transfer(100, reserve, balance, 0, 50, 0, &[], false);
    assert_eq!(out.0, 0);
    assert_eq!(out.1, 0);
    assert_eq!(out.2, 50);
    assert_eq!(out.3, balance - final_charge);
    assert_eq!(out.5, 50);
    assert_eq!(out.4, reserve - (final_charge - 50));
    assert_eq!(out, (0, 0, 50, 49, 99, 50));
    // The reserve still equals the sum of the balances.
    assert_eq!(out.4, out.3 + out.5);
}

#[test]
fn transfer_without_variance_ignores_the_random_source() {
    let a = transfer(100, 100, 100, 0, 50, 0, &[], true);
    let b = transfer(100, 100, 100, 0, 50, 0, &[255, 255, 7], false);
    assert_eq!(a, b);
    assert_eq!(a, (0, 0, 50, 49, 99, 50));
}

#[test]
fn transfer_with_premium_burns_from_the_reserve() {
    // Maximum variance 255: every draw is kept, 255 moves the whole amount.
    let out = transfer(6000, 6000, 5000, 10, 1000, 255, &[255], false);
    assert_eq!(out, (0, 255, 1000, 3000, 5000, 1010));
}

#[test]
fn transfer_with_discount_tops_the_reserve_up() {
    let out = transfer(6000, 6000, 5000, 10, 1000, 255, &[255], true);
    assert_eq!(out, (0, 255, 1000, 5000, 7000, 1010));
}

#[test]
fn transfer_reads_the_first_kept_draw() {
    // Maximum variance 100: draws from 202 on are rejected.
    let out = transfer(1_000_000, 1_000_000, 50_000, 0, 10_000, 100, &[202, 255, 150, 3], false);
    // 150 % 101 = 49; premium 10000 * 49 / 255 = 1921; fee 10000 * 155 / 10000 = 155.
    assert_eq!(out, (0, 49, 10_000, 50_000 - 12_076, 1_000_000 - 2_076, 10_000));
}

#[test]
fn transfer_fails_when_every_draw_is_rejected() {
    let draws = [255u128; 10];
    let out = transfer(100, 100, 100, 7, 50, 100, &draws, true);
    assert_eq!(out, (STATUS_RNG_FAILURE, 0, 50, 100, 100, 7));
    // An eleventh draw is never read.
    let mut more = vec![255u128; 10];
    more.push(0);
    let out = transfer(100, 100, 100, 7, 50, 100, &more, true);
    assert_eq!(out, (STATUS_RNG_FAILURE, 0, 50, 100, 100, 7));
    // Without draws there is no sample either.
    let out = transfer(100, 100, 100, 7, 50, 100, &[], true);
    assert_eq!(out, (STATUS_RNG_FAILURE, 0, 50, 100, 100, 7));
}

#[test]
fn transfer_accepts_the_tenth_draw() {
    let mut draws = vec![255u128; 9];
    draws.push(0);
    let out = transfer(1000, 1000, 1000, 0, 100, 100, &draws, true);
    // roll 0, fee 100 * 155 / 10000 = 1
    assert_eq!(out, (0, 0, 100, 899, 999, 100));
}

#[test]
fn transfer_needs_the_worst_case_charge() {
    // Worst case for 50 at variance 0 is 51.
    let out = transfer(100, 100, 50, 0, 50, 0, &[], true);
    assert_eq!(out, (STATUS_INSUFFICIENT_FUNDS, 0, 50, 50, 100, 0));
    let out = transfer(100, 100, 51, 0, 50, 0, &[], true);
    assert_eq!(out, (0, 0, 50, 0, 99, 50));
    // Worst case for 1000 at variance 100 is 1000 + 392 + 15, whatever is drawn.
    let out = transfer(5000, 5000, 1406, 0, 1000, 100, &[0], true);
    assert_eq!(out, (STATUS_INSUFFICIENT_FUNDS, 0, 1000, 1406, 5000, 0));
    let out = transfer(5000, 5000, 1407, 0, 1000, 100, &[0], true);
    assert_eq!(out, (0, 0, 1000, 1407 - 1015, 5000 - 15, 1000));
}

#[test]
fn transfer_catches_receiver_overflow() {
    let out = transfer(100, 100, 100, u64::MAX, 1, 0, &[], true);
    assert_eq!(out, (STATUS_OVERFLOW, 0, 1, 100, 100, u64::MAX));
    // Overflow is reported even where the sender could not pay either.
    let out = transfer(100, 100, 0, u64::MAX, 1, 0, &[], true);
    assert_eq!(out.0, STATUS_OVERFLOW);
}

#[test]
fn transfer_catches_a_reserve_that_cannot_absorb_the_gap() {
    // The charge is 51 for 50 credited, and the reserve holds nothing to burn.
    let out = transfer(0, 0, 100, 0, 50, 0, &[], true);
    assert_eq!(out, (STATUS_OVERFLOW, 0, 50, 100, 0, 0));
    // A full discount would push the reserve over the top.
    let out = transfer(u64::MAX, u64::MAX, 5000, 0, 1000, 255, &[255], true);
    assert_eq!(out, (STATUS_OVERFLOW, 255, 1000, 5000, u64::MAX, 0));
}

#[test]
fn transfer_holds_the_charge_to_the_balance() {
    // Reserve at three times the collateral: penalty of 2 % on top.
    let out = transfer(1000, 3000, 10_255, 0, 10_000, 0, &[], true);
    // quoted 10000 + 255 + 200 = 10455, but the sender holds 10255.
    assert_eq!(out, (0, 0, 10_000, 0, 3000 - 255, 10_000));
}

#[test]
fn successful_operations_keep_the_reserve_equal_to_the_balances() {
    let mut reserve = 0u64;
    let mut alice = 0u64;
    let mut bob = 0u64;
    let (s, _, r, b) = deposit(reserve, alice, 1_000_000);
    assert_eq!(s, 0);
    reserve = r;
    alice = b;
    let (s, _, r, b) = deposit(reserve, bob, 500);
    assert_eq!(s, 0);
    reserve = r;
    bob = b;
    let collateral = 1_000_500u64;
    let mut seed = 12345u64;
    for _ in 0..200 {
        let mut draws = Vec::new();
        for _ in 0..10 {
            seed = seed.wrapping_mul(6364136223846793005).wrapping_add(1442695040888963407);
            draws.push(((seed >> 33) & 0xff) as u128);
        }
        let sign = (seed >> 20) & 1 == 1;
        let out = transfer(collateral, reserve, alice, bob, 1000, 100, &draws, sign);
        if out.0 == 0 {
            alice = out.3;
            reserve = out.4;
            bob = out.5;
        }
        assert_eq!(reserve, alice + bob);
    }
    let (s, _, r, b) = withdraw(reserve, bob, 100);
    assert_eq!(s, 0);
    reserve = r;
    bob = b;
    assert_eq!(reserve, alice + bob);
}
