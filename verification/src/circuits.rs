//! The balance transitions that the confidential cluster evaluates.
//!
//! Each function works on the plaintext of the reserve and of the balances,
//! as it is seen inside the confidential context, and returns a status code
//! together with the new values. Decryption of the inputs and re-encryption
//! of the outputs happen around these functions and are not part of them.
//! Nothing here touches ledger state: the ledger reads the status code and
//! decides whether the new values are stored.

use vstd::prelude::*;
use crate::pricing::{
    final_charge,
    lemma_quoted_charge_nonnegative,
    spec_final_charge,
    spec_variance_adjustment,
    spec_worst_case_charge,
    worst_case_charge,
};
use crate::sampler::{sample_variance, sampled};
use crate::status::{
    STATUS_INSUFFICIENT_FUNDS,
    STATUS_OVERFLOW,
    STATUS_RNG_FAILURE,
    STATUS_SUCCESS,
};

verus! {

/// Input of the two initialisation circuits: they take no value.
#[derive(Clone, Copy, Debug, PartialEq, Eq, Structural)]
pub struct EmptyStruct;

/// `x + y` reduced to 64 bits.
pub open spec fn wrapped_sum(x: u64, y: u64) -> u64 {
    if x + y > u64::MAX {
        (x + y - 0x1_0000_0000_0000_0000) as u64
    } else {
        (x + y) as u64
    }
}

/// `x - y` reduced to 64 bits.
pub open spec fn wrapped_difference(x: u64, y: u64) -> u64 {
    if x < y {
        (x - y + 0x1_0000_0000_0000_0000) as u64
    } else {
        (x - y) as u64
    }
}

/// Status of a deposit: overflow if either sum leaves 64 bits.
pub open spec fn deposit_status(reserve: u64, balance: u64, amount: u64) -> u8 {
    if reserve + amount > u64::MAX || balance + amount > u64::MAX {
        STATUS_OVERFLOW
    } else {
        STATUS_SUCCESS
    }
}

/// Status of a withdrawal: insufficient funds if the amount exceeds the
/// balance or the reserve.
pub open spec fn withdraw_status(reserve: u64, balance: u64, amount: u64) -> u8 {
    if amount > balance || amount > reserve {
        STATUS_INSUFFICIENT_FUNDS
    } else {
        STATUS_SUCCESS
    }
}

/// What the reserve loses in a transfer: the charge beyond the amount that
/// the receiver is credited with. Negative when the sender pays less than the
/// receiver gets, in which case the reserve gains.
pub open spec fn reserve_burn(charge: int, amount: u64) -> int {
    charge - amount
}

/// Status of a transfer whose variance was sampled.
///
/// A credit that would overflow the receiver comes first, then a sender who
/// cannot afford the worst case, then a reserve that cannot absorb the gap
/// between the charge and the credited amount.
pub open spec fn transfer_status(
    collateral: u64,
    reserve: u64,
    sender_balance: u64,
    receiver_balance: u64,
    amount: u64,
    max_variance: u8,
    roll: u8,
    discount: bool,
) -> u8 {
    let charge = spec_final_charge(
        collateral,
        reserve,
        sender_balance,
        amount,
        max_variance,
        roll,
        discount,
    );
    if receiver_balance + amount > u64::MAX {
        STATUS_OVERFLOW
    } else if spec_worst_case_charge(amount, max_variance) > sender_balance {
        STATUS_INSUFFICIENT_FUNDS
    } else if reserve - reserve_burn(charge, amount) < 0 || reserve - reserve_burn(charge, amount)
        > u64::MAX {
        STATUS_OVERFLOW
    } else {
        STATUS_SUCCESS
    }
}

/// Result of a transfer, given the outcome of the variance sampler and the
/// sign bit: status, revealed variance, revealed amount, then the sender's
/// balance, the reserve and the receiver's balance.
///
/// Without a sample the status is the sampler's failure and the balances are
/// handed back as they came. With a sample and a status other than success
/// they are handed back as well. On success the sender is charged, the
/// receiver is credited with the requested amount and the reserve loses the
/// difference.
pub open spec fn transfer_outcome(
    collateral: u64,
    reserve: u64,
    sender_balance: u64,
    receiver_balance: u64,
    amount: u64,
    max_variance: u8,
    roll: Option<u8>,
    discount: bool,
) -> (u8, u8, u64, u64, u64, u64) {
    match roll {
        None => (STATUS_RNG_FAILURE, 0u8, amount, sender_balance, reserve, receiver_balance),
        Some(r) => {
            let status = transfer_status(
                collateral,
                reserve,
                sender_balance,
                receiver_balance,
                amount,
                max_variance,
                r,
                discount,
            );
            let charge = spec_final_charge(
                collateral,
                reserve,
                sender_balance,
                amount,
                max_variance,
                r,
                discount,
            );
            if status == STATUS_SUCCESS {
                (
                    status,
                    r,
                    amount,
                    (sender_balance - charge) as u64,
                    (reserve - reserve_burn(charge, amount)) as u64,
                    (receiver_balance + amount) as u64,
                )
            } else {
                (status, r, amount, sender_balance, reserve, receiver_balance)
            }
        },
    }
}

/// A deposit that succeeds adds the amount to the reserve and to the balance
/// without wrapping.
pub proof fn lemma_deposit_success_is_exact(reserve: u64, balance: u64, amount: u64)
    requires
        deposit_status(reserve, balance, amount) == STATUS_SUCCESS,
    ensures
        wrapped_sum(reserve, amount) == reserve + amount,
        wrapped_sum(balance, amount) == balance + amount,
{
}

/// A withdrawal that succeeds takes the amount from the reserve and from the
/// balance without wrapping: neither falls below zero.
pub proof fn lemma_withdraw_success_is_exact(reserve: u64, balance: u64, amount: u64)
    requires
        withdraw_status(reserve, balance, amount) == STATUS_SUCCESS,
    ensures
        wrapped_difference(reserve, amount) == reserve - amount,
        wrapped_difference(balance, amount) == balance - amount,
{
}

/// A transfer that succeeds charges the sender no more than the balance,
/// credits the receiver with the requested amount and takes the difference
/// from the reserve, and none of the three new values wraps.
pub proof fn lemma_transfer_success_is_exact(
    collateral: u64,
    reserve: u64,
    sender_balance: u64,
    receiver_balance: u64,
    amount: u64,
    max_variance: u8,
    roll: Option<u8>,
    discount: bool,
)
    requires
        transfer_outcome(
            collateral,
            reserve,
            sender_balance,
            receiver_balance,
            amount,
            max_variance,
            roll,
            discount,
        ).0 == STATUS_SUCCESS,
    ensures
        roll is Some,
        ({
            let out = transfer_outcome(
                collateral,
                reserve,
                sender_balance,
                receiver_balance,
                amount,
                max_variance,
                roll,
                discount,
            );
            let charge = spec_final_charge(
                collateral,
                reserve,
                sender_balance,
                amount,
                max_variance,
                roll->Some_0,
                discount,
            );
            &&& 0 <= charge <= sender_balance
            &&& out.3 == sender_balance - charge
            &&& out.5 == receiver_balance + amount
            &&& out.4 == reserve - reserve_burn(charge, amount)
            &&& out.3 + out.5 + reserve_burn(charge, amount) == sender_balance + receiver_balance
        }),
{
    lemma_quoted_charge_nonnegative(
        collateral,
        reserve,
        amount,
        max_variance,
        roll->Some_0,
        discount,
    );
}

/// With a maximum variance of zero the random source has no say: whatever
/// the draws and the sign bit, the outcome is the one for a variance of zero.
pub proof fn lemma_zero_variance_is_deterministic(
    collateral: u64,
    reserve: u64,
    sender_balance: u64,
    receiver_balance: u64,
    amount: u64,
    draws: Seq<u128>,
    discount: bool,
)
    ensures
        sampled(draws, 0) == Some(0u8),
        spec_variance_adjustment(amount, 0) == 0,
        transfer_outcome(
            collateral,
            reserve,
            sender_balance,
            receiver_balance,
            amount,
            0,
            sampled(draws, 0),
            discount,
        ) == transfer_outcome(
            collateral,
            reserve,
            sender_balance,
            receiver_balance,
            amount,
            0,
            Some(0u8),
            true,
        ),
{
    assert(spec_variance_adjustment(amount, 0) == 0) by {
        assert(amount * 0 == 0);
    }
}

/// The initial reserve: zero.
pub fn init_global_dc_mint(input: EmptyStruct) -> (supply: u64)
    ensures
        supply == 0,
{
    0
}

/// The initial balance of a user: zero.
pub fn init_user_dc_balance(input: EmptyStruct) -> (balance: u64)
    ensures
        balance == 0,
{
    0
}

/// Adds a deposit to the reserve and to the user's balance.
///
/// Returns the status, the deposited amount, the new reserve and the new
/// balance. The status is overflow when either sum leaves 64 bits; the values
/// returned are then the sums reduced to 64 bits, and the ledger discards
/// them.
pub fn deposit(global_mint_amount: u64, user_dc_balance: u64, deposit_amount: u64) -> (out: (
    u8,
    u64,
    u64,
    u64,
))
    ensures
        out.0 == deposit_status(global_mint_amount, user_dc_balance, deposit_amount),
        out.1 == deposit_amount,
        out.2 == wrapped_sum(global_mint_amount, deposit_amount),
        out.3 == wrapped_sum(user_dc_balance, deposit_amount),
        out.0 == STATUS_SUCCESS ==> out.2 == global_mint_amount + deposit_amount && out.3
            == user_dc_balance + deposit_amount,
{
    let new_global_mint_amount: u64 = global_mint_amount.wrapping_add(deposit_amount);
    let new_user_dc_balance: u64 = user_dc_balance.wrapping_add(deposit_amount);

    let mut status_code: u8 = STATUS_SUCCESS;
    if new_global_mint_amount < global_mint_amount {
        status_code = STATUS_OVERFLOW;
    }
    if new_user_dc_balance < user_dc_balance {
        status_code = STATUS_OVERFLOW;
    }
    (status_code, deposit_amount, new_global_mint_amount, new_user_dc_balance)
}

/// Takes a withdrawal from the reserve and from the user's balance.
///
/// Returns the status, the withdrawn amount, the new reserve and the new
/// balance. The status is insufficient funds when the amount exceeds the
/// balance or the reserve; the values returned are then the differences
/// reduced to 64 bits, and the ledger discards them. After that test neither
/// difference can wrap; the function tests for it all the same.
pub fn withdraw(global_mint_amount: u64, user_dc_balance: u64, withdraw_amount: u64) -> (out: (
    u8,
    u64,
    u64,
    u64,
))
    ensures
        out.0 == withdraw_status(global_mint_amount, user_dc_balance, withdraw_amount),
        out.1 == withdraw_amount,
        out.2 == wrapped_difference(global_mint_amount, withdraw_amount),
        out.3 == wrapped_difference(user_dc_balance, withdraw_amount),
        out.0 == STATUS_SUCCESS ==> out.2 == global_mint_amount - withdraw_amount && out.3
            == user_dc_balance - withdraw_amount,
        out.0 == STATUS_SUCCESS || out.0 == STATUS_INSUFFICIENT_FUNDS,
{
    let mut status_code: u8 = STATUS_SUCCESS;
    if withdraw_amount > user_dc_balance {
        status_code = STATUS_INSUFFICIENT_FUNDS;
    }
    if withdraw_amount > global_mint_amount {
        status_code = STATUS_INSUFFICIENT_FUNDS;
    }
    let new_global_mint_amount: u64 = global_mint_amount.wrapping_sub(withdraw_amount);
    let new_user_dc_balance: u64 = user_dc_balance.wrapping_sub(withdraw_amount);

    if status_code == STATUS_SUCCESS {
        if new_global_mint_amount > global_mint_amount {
            status_code = STATUS_OVERFLOW;
        }
        if new_user_dc_balance > user_dc_balance {
            status_code = STATUS_OVERFLOW;
        }
    }
    (status_code, withdraw_amount, new_global_mint_amount, new_user_dc_balance)
}

/// Moves `transfer_amount` from the sender to the receiver and prices it.
///
/// `global_balance` is the size of the collateral pool, in the clear.
/// `draws` are 8-bit values from the secure random source, of which the
/// variance sampler reads at most ten, and `variance_bool` is one more random
/// bit: `true` lowers the charge by the variance, `false` raises it.
///
/// Returns the status, the sampled variance, the requested amount, then the
/// new balance of the sender, the new reserve and the new balance of the
/// receiver, as `transfer_outcome` states them.
pub fn transfer(
    global_balance: u64,
    global_dc_balance: u64,
    sender_balance: u64,
    receiver_balance: u64,
    transfer_amount: u64,
    max_variance: u8,
    draws: &[u128],
    variance_bool: bool,
) -> (out: (u8, u8, u64, u64, u64, u64))
    ensures
        out == transfer_outcome(
            global_balance,
            global_dc_balance,
            sender_balance,
            receiver_balance,
            transfer_amount,
            max_variance,
            sampled(draws@, max_variance),
            variance_bool,
        ),
        out.1 <= max_variance,
        out.2 == transfer_amount,
        out.0 == STATUS_SUCCESS ==> out.3 <= sender_balance && out.5 == receiver_balance
            + transfer_amount,
        out.0 != STATUS_SUCCESS ==> out.3 == sender_balance && out.4 == global_dc_balance && out.5
            == receiver_balance,
{
    let roll: u8 = match sample_variance(draws, max_variance) {
        Some(r) => r,
        None => {
            return (
                STATUS_RNG_FAILURE,
                0,
                transfer_amount,
                sender_balance,
                global_dc_balance,
                receiver_balance,
            );
        },
    };
    let charge: u64 = final_charge(
        global_balance,
        global_dc_balance,
        sender_balance,
        transfer_amount,
        max_variance,
        roll,
        variance_bool,
    );

    let mut status_code: u8 = STATUS_SUCCESS;
    if worst_case_charge(transfer_amount, max_variance) > sender_balance as u128 {
        status_code = STATUS_INSUFFICIENT_FUNDS;
    }
    let new_receiver_balance: Option<u64> = receiver_balance.checked_add(transfer_amount);
    if new_receiver_balance.is_none() {
        status_code = STATUS_OVERFLOW;
    }
    let new_global_dc_balance: Option<u64> = if charge >= transfer_amount {
        global_dc_balance.checked_sub(charge - transfer_amount)
    } else {
        global_dc_balance.checked_add(transfer_amount - charge)
    };
    if status_code == STATUS_SUCCESS && new_global_dc_balance.is_none() {
        status_code = STATUS_OVERFLOW;
    }
    match (new_receiver_balance, new_global_dc_balance) {
        (Some(receiver), Some(reserve)) => {
            if status_code == STATUS_SUCCESS {
                (status_code, roll, transfer_amount, sender_balance - charge, reserve, receiver)
            } else {
                (
                    status_code,
                    roll,
                    transfer_amount,
                    sender_balance,
                    global_dc_balance,
                    receiver_balance,
                )
            }
        },
        _ => (
            status_code,
            roll,
            transfer_amount,
            sender_balance,
            global_dc_balance,
            receiver_balance,
        ),
    }
}

} // verus!
