//! The ledger in the clear: what the ciphertexts stand for, and what every
//! history of operations preserves.
//!
//! The stored records hold ciphertexts, so the ledger program never sees a
//! balance. This module states, over the plaintext values that the circuits
//! work on, what the stored reserve and balances amount to after a history of
//! deposits, withdrawals and transfers whose new values the callbacks stored
//! on success and discarded otherwise. It is all specification and proof:
//! nothing here runs.

use vstd::prelude::*;
use crate::circuits::{
    deposit_status,
    reserve_burn,
    transfer_outcome,
    withdraw_status,
    wrapped_difference,
    wrapped_sum,
};
use crate::cluster::ComputationOutputs;
use crate::deposit::{deposit_resolved, DepositCallback, DepositOutput};
use crate::pricing::{lemma_quoted_charge_nonnegative, spec_final_charge};
use crate::state::{DCGlobalMint, DCUserTokenAccount, EncryptedScalar};
use crate::status::STATUS_SUCCESS;
use crate::transfer::{transfer_resolved, TransferCallback, TransferOutput};
use crate::withdraw::{withdraw_resolved, WithdrawCallback, WithdrawOutput};

verus! {

/// The reserve and the balances of all users, in the clear.
pub struct Ledger {
    pub reserve: u64,
    pub balances: Seq<u64>,
}

/// One operation on the ledger. Users are named by their place in
/// `Ledger::balances`. A transfer carries the size of the collateral pool and
/// what the random source gave: the sampled variance, if any, and the sign.
pub enum Operation {
    Deposit { user: int, amount: u64 },
    Withdraw { user: int, amount: u64 },
    Transfer {
        sender: int,
        receiver: int,
        collateral: u64,
        amount: u64,
        max_variance: u8,
        roll: Option<u8>,
        discount: bool,
    },
}

/// Sum of all balances.
pub open spec fn total(balances: Seq<u64>) -> int
    decreases balances.len(),
{
    if balances.len() == 0 {
        0
    } else {
        total(balances.drop_last()) + balances.last()
    }
}

/// Whether the operation names users of the ledger, and two different ones
/// for a transfer.
pub open spec fn applicable(ledger: Ledger, op: Operation) -> bool {
    match op {
        Operation::Deposit { user, .. } => 0 <= user < ledger.balances.len(),
        Operation::Withdraw { user, .. } => 0 <= user < ledger.balances.len(),
        Operation::Transfer { sender, receiver, .. } => {
            &&& 0 <= sender < ledger.balances.len()
            &&& 0 <= receiver < ledger.balances.len()
            &&& sender != receiver
        },
    }
}

/// The status that the circuit reports for the operation.
pub open spec fn status(ledger: Ledger, op: Operation) -> u8 {
    match op {
        Operation::Deposit { user, amount } => deposit_status(
            ledger.reserve,
            ledger.balances[user],
            amount,
        ),
        Operation::Withdraw { user, amount } => withdraw_status(
            ledger.reserve,
            ledger.balances[user],
            amount,
        ),
        Operation::Transfer { sender, receiver, collateral, amount, max_variance, roll, discount } => {
            transfer_outcome(
                collateral,
                ledger.reserve,
                ledger.balances[sender],
                ledger.balances[receiver],
                amount,
                max_variance,
                roll,
                discount,
            ).0
        },
    }
}

/// The ledger after the operation: as the circuit computed it if the status
/// is success, unchanged otherwise.
pub open spec fn apply(ledger: Ledger, op: Operation) -> Ledger {
    if status(ledger, op) != STATUS_SUCCESS {
        ledger
    } else {
        match op {
            Operation::Deposit { user, amount } => Ledger {
                reserve: (ledger.reserve + amount) as u64,
                balances: ledger.balances.update(user, (ledger.balances[user] + amount) as u64),
            },
            Operation::Withdraw { user, amount } => Ledger {
                reserve: (ledger.reserve - amount) as u64,
                balances: ledger.balances.update(user, (ledger.balances[user] - amount) as u64),
            },
            Operation::Transfer {
                sender,
                receiver,
                collateral,
                amount,
                max_variance,
                roll,
                discount,
            } => {
                let out = transfer_outcome(
                    collateral,
                    ledger.reserve,
                    ledger.balances[sender],
                    ledger.balances[receiver],
                    amount,
                    max_variance,
                    roll,
                    discount,
                );
                Ledger {
                    reserve: out.4,
                    balances: ledger.balances.update(sender, out.3).update(receiver, out.5),
                }
            },
        }
    }
}

/// What the operation asks to add to the balances in sum: the amount of a
/// deposit, the negated amount of a withdrawal, nothing for a transfer, and
/// nothing when the status is not success.
pub open spec fn requested_delta(ledger: Ledger, op: Operation) -> int {
    if status(ledger, op) != STATUS_SUCCESS {
        0
    } else {
        match op {
            Operation::Deposit { amount, .. } => amount as int,
            Operation::Withdraw { amount, .. } => -(amount as int),
            Operation::Transfer { .. } => 0,
        }
    }
}

/// What the operation burns: for a transfer that succeeds, the charge beyond
/// the credited amount (negative when the sender pays less than the receiver
/// gets); nothing otherwise.
pub open spec fn burned(ledger: Ledger, op: Operation) -> int {
    if status(ledger, op) != STATUS_SUCCESS {
        0
    } else {
        match op {
            Operation::Transfer {
                sender,
                collateral,
                amount,
                max_variance,
                roll: Some(r),
                discount,
                ..
            } => reserve_burn(
                spec_final_charge(
                    collateral,
                    ledger.reserve,
                    ledger.balances[sender],
                    amount,
                    max_variance,
                    r,
                    discount,
                ),
                amount,
            ),
            _ => 0,
        }
    }
}

/// The ledger after a history of operations, oldest first.
pub open spec fn apply_all(ledger: Ledger, history: Seq<Operation>) -> Ledger
    decreases history.len(),
{
    if history.len() == 0 {
        ledger
    } else {
        apply(apply_all(ledger, history.drop_last()), history.last())
    }
}

/// Whether each operation of the history is applicable to the ledger that the
/// operations before it left.
pub open spec fn applicable_all(ledger: Ledger, history: Seq<Operation>) -> bool
    decreases history.len(),
{
    if history.len() == 0 {
        true
    } else {
        applicable_all(ledger, history.drop_last()) && applicable(
            apply_all(ledger, history.drop_last()),
            history.last(),
        )
    }
}

/// Sum of what the operations of a history burned.
pub open spec fn burned_all(ledger: Ledger, history: Seq<Operation>) -> int
    decreases history.len(),
{
    if history.len() == 0 {
        0
    } else {
        burned_all(ledger, history.drop_last()) + burned(
            apply_all(ledger, history.drop_last()),
            history.last(),
        )
    }
}

/// Sum of what the operations of a history asked to add to the balances.
pub open spec fn requested_all(ledger: Ledger, history: Seq<Operation>) -> int
    decreases history.len(),
{
    if history.len() == 0 {
        0
    } else {
        requested_all(ledger, history.drop_last()) + requested_delta(
            apply_all(ledger, history.drop_last()),
            history.last(),
        )
    }
}

/// Replacing one balance changes the sum by the difference.
pub proof fn lemma_total_update(balances: Seq<u64>, i: int, value: u64)
    requires
        0 <= i < balances.len(),
    ensures
        total(balances.update(i, value)) == total(balances) - balances[i] + value,
    decreases balances.len(),
{
    let updated = balances.update(i, value);
    if i == balances.len() - 1 {
        assert(updated.drop_last() =~= balances.drop_last());
    } else {
        assert(updated.drop_last() =~= balances.drop_last().update(i, value));
        lemma_total_update(balances.drop_last(), i, value);
    }
}

/// One operation conserves value: the balances change in sum by what was
/// requested less what was burned, and so does the reserve. The reserve
/// absorbs exactly the gap between what a sender is charged and what the
/// receiver is credited with.
pub proof fn lemma_operation_conserves(ledger: Ledger, op: Operation)
    requires
        applicable(ledger, op),
    ensures
        apply(ledger, op).balances.len() == ledger.balances.len(),
        total(apply(ledger, op).balances) + burned(ledger, op) == total(ledger.balances)
            + requested_delta(ledger, op),
        apply(ledger, op).reserve + burned(ledger, op) == ledger.reserve + requested_delta(
            ledger,
            op,
        ),
{
    if status(ledger, op) == STATUS_SUCCESS {
        match op {
            Operation::Deposit { user, amount } => {
                lemma_total_update(
                    ledger.balances,
                    user,
                    (ledger.balances[user] + amount) as u64,
                );
            },
            Operation::Withdraw { user, amount } => {
                lemma_total_update(
                    ledger.balances,
                    user,
                    (ledger.balances[user] - amount) as u64,
                );
            },
            Operation::Transfer {
                sender,
                receiver,
                collateral,
                amount,
                max_variance,
                roll,
                discount,
            } => {
                let r: u8 = roll->Some_0;
                let out = transfer_outcome(
                    collateral,
                    ledger.reserve,
                    ledger.balances[sender],
                    ledger.balances[receiver],
                    amount,
                    max_variance,
                    roll,
                    discount,
                );
                lemma_quoted_charge_nonnegative(
                    collateral,
                    ledger.reserve,
                    amount,
                    max_variance,
                    r,
                    discount,
                );
                let debited = ledger.balances.update(sender, out.3);
                lemma_total_update(ledger.balances, sender, out.3);
                lemma_total_update(debited, receiver, out.5);
            },
        }
    }
}

/// A history of operations conserves value: after it, the sum of the
/// balances plus all that was burned is the sum before plus all that was
/// requested, and the same holds of the reserve. So the difference between
/// the reserve and the sum of the balances never changes, and a reserve that
/// equals the sum of the balances still does after any history.
pub proof fn lemma_history_conserves(ledger: Ledger, history: Seq<Operation>)
    requires
        applicable_all(ledger, history),
    ensures
        apply_all(ledger, history).balances.len() == ledger.balances.len(),
        total(apply_all(ledger, history).balances) + burned_all(ledger, history) == total(
            ledger.balances,
        ) + requested_all(ledger, history),
        apply_all(ledger, history).reserve + burned_all(ledger, history) == ledger.reserve
            + requested_all(ledger, history),
        apply_all(ledger, history).reserve - total(apply_all(ledger, history).balances)
            == ledger.reserve - total(ledger.balances),
    decreases history.len(),
{
    if history.len() > 0 {
        lemma_history_conserves(ledger, history.drop_last());
        lemma_operation_conserves(apply_all(ledger, history.drop_last()), history.last());
    }
}

/// The ledger that two stored records stand for, under a reading `open` of
/// ciphertexts: the reserve and the balance of the one user.
pub open spec fn opened(
    open: spec_fn(EncryptedScalar) -> u64,
    reserve: DCGlobalMint,
    user: DCUserTokenAccount,
) -> Ledger {
    Ledger {
        reserve: open(reserve.spec_encrypted_supply()),
        balances: seq![open(user.spec_encrypted_amount())],
    }
}

/// The ledger that three stored records stand for, under a reading `open` of
/// ciphertexts: the reserve, then the balances of sender and receiver.
pub open spec fn opened_transfer(
    open: spec_fn(EncryptedScalar) -> u64,
    records: TransferCallback,
) -> Ledger {
    Ledger {
        reserve: open(records.dc_global_mint_account.data.spec_encrypted_supply()),
        balances: seq![
            open(records.dc_user_token_account.data.spec_encrypted_amount()),
            open(records.receiver_dc_user_token_account.data.spec_encrypted_amount()),
        ],
    }
}

/// Queue, circuit and callback of a deposit fit together. If the cluster
/// ran the deposit circuit on what the stored records hold and sealed its
/// results, then the records after the callback hold what `apply` says: the
/// deposit is added to both if it succeeded, and nothing changed if not.
pub proof fn lemma_deposit_callback_applies_the_circuit(
    open: spec_fn(EncryptedScalar) -> u64,
    records: DepositCallback,
    amount: u64,
    output: DepositOutput,
)
    requires
        output.status_code == deposit_status(
            opened(
                open,
                records.dc_global_mint_account.data,
                records.dc_user_token_account.data,
            ).reserve,
            opened(
                open,
                records.dc_global_mint_account.data,
                records.dc_user_token_account.data,
            ).balances[0],
            amount,
        ),
        open(output.new_global_mint_amount) == wrapped_sum(
            open(records.dc_global_mint_account.data.spec_encrypted_supply()),
            amount,
        ),
        open(output.new_user_dc_balance) == wrapped_sum(
            open(records.dc_user_token_account.data.spec_encrypted_amount()),
            amount,
        ),
    ensures
        opened(
            open,
            deposit_resolved(
                records,
                ComputationOutputs::Success(output),
            ).dc_global_mint_account.data,
            deposit_resolved(records, ComputationOutputs::Success(output)).dc_user_token_account.data,
        ) == apply(
            opened(open, records.dc_global_mint_account.data, records.dc_user_token_account.data),
            Operation::Deposit { user: 0, amount },
        ),
{
    let before = opened(
        open,
        records.dc_global_mint_account.data,
        records.dc_user_token_account.data,
    );
    let after = deposit_resolved(records, ComputationOutputs::Success(output));
    let expected = apply(before, Operation::Deposit { user: 0, amount });
    assert(opened(open, after.dc_global_mint_account.data, after.dc_user_token_account.data).balances
        =~= expected.balances);
}

/// Queue, circuit and callback of a withdrawal fit together, as for a
/// deposit: after the callback the records hold what `apply` says.
pub proof fn lemma_withdraw_callback_applies_the_circuit(
    open: spec_fn(EncryptedScalar) -> u64,
    records: WithdrawCallback,
    amount: u64,
    output: WithdrawOutput,
)
    requires
        output.status_code == withdraw_status(
            open(records.dc_global_mint_account.data.spec_encrypted_supply()),
            open(records.dc_user_token_account.data.spec_encrypted_amount()),
            amount,
        ),
        open(output.new_global_mint_amount) == wrapped_difference(
            open(records.dc_global_mint_account.data.spec_encrypted_supply()),
            amount,
        ),
        open(output.new_user_dc_balance) == wrapped_difference(
            open(records.dc_user_token_account.data.spec_encrypted_amount()),
            amount,
        ),
    ensures
        opened(
            open,
            withdraw_resolved(
                records,
                ComputationOutputs::Success(output),
            ).dc_global_mint_account.data,
            withdraw_resolved(
                records,
                ComputationOutputs::Success(output),
            ).dc_user_token_account.data,
        ) == apply(
            opened(open, records.dc_global_mint_account.data, records.dc_user_token_account.data),
            Operation::Withdraw { user: 0, amount },
        ),
{
    let before = opened(
        open,
        records.dc_global_mint_account.data,
        records.dc_user_token_account.data,
    );
    let after = withdraw_resolved(records, ComputationOutputs::Success(output));
    let expected = apply(before, Operation::Withdraw { user: 0, amount });
    assert(opened(open, after.dc_global_mint_account.data, after.dc_user_token_account.data).balances
        =~= expected.balances);
}

/// Queue, circuit and callback of a transfer fit together. If the cluster
/// ran the transfer circuit on what the stored records hold, with the given
/// pool size, variance sample and sign, and sealed its results, then the
/// records after the callback hold what `apply` says.
pub proof fn lemma_transfer_callback_applies_the_circuit(
    open: spec_fn(EncryptedScalar) -> u64,
    records: TransferCallback,
    collateral: u64,
    amount: u64,
    max_variance: u8,
    roll: Option<u8>,
    discount: bool,
    output: TransferOutput,
)
    requires
        (
            output.status_code,
            output.variance,
            output.transfer_amount,
            open(output.new_sender_balance),
            open(output.new_global_mint_balance),
            open(output.new_receiver_balance),
        ) == transfer_outcome(
            collateral,
            opened_transfer(open, records).reserve,
            opened_transfer(open, records).balances[0],
            opened_transfer(open, records).balances[1],
            amount,
            max_variance,
            roll,
            discount,
        ),
    ensures
        opened_transfer(open, transfer_resolved(records, ComputationOutputs::Success(output)))
            == apply(
            opened_transfer(open, records),
            Operation::Transfer {
                sender: 0,
                receiver: 1,
                collateral,
                amount,
                max_variance,
                roll,
                discount,
            },
        ),
{
    let before = opened_transfer(open, records);
    let after = opened_transfer(
        open,
        transfer_resolved(records, ComputationOutputs::Success(output)),
    );
    let expected = apply(
        before,
        Operation::Transfer { sender: 0, receiver: 1, collateral, amount, max_variance, roll, discount },
    );
    assert(after.balances =~= expected.balances);
}

} // verus!
