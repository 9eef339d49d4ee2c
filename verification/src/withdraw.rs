//! Withdrawal of plaintext collateral against an encrypted balance.
//!
//! The collateral moves when the request is queued, before the cluster has
//! judged the withdrawal. The callback stores the new ciphertexts on success
//! and moves the collateral back otherwise. Both movements are signed for by
//! the reserve: a callback comes from the cluster and carries no signature of
//! the user, so the way back is open only if the user, on queueing, lets the
//! reserve take the amount back.

use vstd::prelude::*;
use crate::cluster::{
    balance_operand,
    compensation,
    init_comp_def,
    is_definition_of,
    is_queued,
    push_balance_operand,
    push_reserve_operand,
    queue_computation,
    read_only,
    reserve_operand,
    spec_compensation,
    writable,
    Argument,
    CallbackAccount,
    CallbackEffects,
    CollateralTransfer,
    CompDefAccount,
    ComputationOutputs,
    PendingComputation,
    Queued,
    Resolution,
};
use crate::error::RegistrationError;
use crate::state::{Account, DCGlobalMint, DCUserTokenAccount, EncryptedScalar, Pubkey};
use crate::status::STATUS_SUCCESS;

verus! {

/// Name of the withdrawal circuit.
pub const WITHDRAW_CIRCUIT: &'static str = "withdraw";

/// File of the compiled circuit.
pub const WITHDRAW_CIRCUIT_FILE: &'static str = "withdraw_testnet.arcis";

/// What the registration of the circuit works on.
#[derive(Clone, Debug, PartialEq, Eq)]
pub struct InitWithdrawCompDef {
    pub payer: Pubkey,
    pub comp_def_account: CompDefAccount,
}

/// What the queue step reads: the user, the reserve record, the user's
/// record and the collateral accounts.
#[derive(Clone, Copy, Debug, PartialEq, Eq)]
pub struct QueueWithdraw {
    pub payer: Pubkey,
    pub dc_global_mint_account: Account<DCGlobalMint>,
    pub dc_user_token_account: Account<DCUserTokenAccount>,
    /// The collateral account of the reserve.
    pub withdraw_ata: Pubkey,
    /// The collateral account of the user.
    pub to_ata: Pubkey,
    pub withdraw_mint: Pubkey,
    pub token_program: Pubkey,
    pub associated_token_program: Pubkey,
}

/// What the callback works on: the reserve record and the user's record.
#[derive(Clone, Copy, Debug, PartialEq, Eq)]
pub struct WithdrawCallback {
    pub dc_global_mint_account: Account<DCGlobalMint>,
    pub dc_user_token_account: Account<DCUserTokenAccount>,
}

/// What the withdrawal circuit returns.
#[derive(Clone, Copy, Debug, PartialEq, Eq)]
pub struct WithdrawOutput {
    pub status_code: u8,
    pub withdraw_amount: u64,
    pub new_global_mint_amount: EncryptedScalar,
    pub new_user_dc_balance: EncryptedScalar,
}

/// Published for every withdrawal that the cluster judged.
#[derive(Clone, Copy, Debug, PartialEq, Eq)]
pub struct WithdrawEvent {
    pub status_code: u8,
    pub withdraw_amount: u64,
    pub new_global_mint_amount: [u8; 32],
    pub new_user_dc_balance: [u8; 32],
}

/// Registers the circuit. A second registration is turned down with
/// `AlreadyRegistered` and changes nothing.
pub fn init_withdraw_comp_def(ctx: &mut InitWithdrawCompDef) -> (answer: Result<
    (),
    RegistrationError,
>)
    ensures
        final(ctx).payer == old(ctx).payer,
        old(ctx).comp_def_account is Uninitialized ==> answer is Ok && (final(ctx).comp_def_account
            matches CompDefAccount::Registered(definition) && is_definition_of(
            definition,
            WITHDRAW_CIRCUIT@,
            WITHDRAW_CIRCUIT_FILE@,
        )),
        old(ctx).comp_def_account is Registered ==> answer == Err::<(), RegistrationError>(
            RegistrationError::AlreadyRegistered,
        ) && *final(ctx) == *old(ctx),
{
    init_comp_def(&mut ctx.comp_def_account, WITHDRAW_CIRCUIT, WITHDRAW_CIRCUIT_FILE)
}

/// The collateral that a withdrawal moves when it is queued: the amount,
/// from the reserve's account to the user's, signed for by the reserve.
pub open spec fn withdraw_collateral(ctx: QueueWithdraw, withdraw_amount: u64) -> CollateralTransfer {
    CollateralTransfer {
        from: ctx.withdraw_ata,
        to: ctx.to_ata,
        authority: ctx.dc_global_mint_account.key,
        amount: withdraw_amount,
    }
}

/// The arguments of a withdrawal: the encrypted reserve and the encrypted
/// balance, both as they stand in the ledger, then the amount in the clear.
pub open spec fn withdraw_args(ctx: QueueWithdraw, withdraw_amount: u64) -> Seq<Argument> {
    reserve_operand(ctx.dc_global_mint_account) + balance_operand(ctx.dc_user_token_account)
        + seq![Argument::PlaintextU64(withdraw_amount)]
}

/// The records named to the callback of a withdrawal.
pub open spec fn withdraw_callback_accounts(ctx: QueueWithdraw) -> Seq<CallbackAccount> {
    seq![
        writable(ctx.dc_global_mint_account.key),
        writable(ctx.dc_user_token_account.key),
        read_only(ctx.payer),
        writable(ctx.to_ata),
        writable(ctx.withdraw_ata),
        read_only(ctx.withdraw_mint),
        read_only(ctx.token_program),
        read_only(ctx.associated_token_program),
    ]
}

/// Queues a withdrawal: names the collateral to move out of the reserve and
/// puts together the request for the cluster.
pub fn queue_withdraw(ctx: &QueueWithdraw, computation_offset: u64, withdraw_amount: u64) -> (queued:
    Queued)
    ensures
        is_queued(
            queued,
            WITHDRAW_CIRCUIT@,
            computation_offset,
            withdraw_args(*ctx, withdraw_amount),
            withdraw_callback_accounts(*ctx),
            Some(withdraw_collateral(*ctx, withdraw_amount)),
        ),
{
    let collateral = CollateralTransfer {
        from: ctx.withdraw_ata,
        to: ctx.to_ata,
        authority: ctx.dc_global_mint_account.key,
        amount: withdraw_amount,
    };

    let mut args: Vec<Argument> = Vec::new();
    push_reserve_operand(&mut args, &ctx.dc_global_mint_account);
    push_balance_operand(&mut args, &ctx.dc_user_token_account);
    args.push(Argument::PlaintextU64(withdraw_amount));
    assert(args@ =~= withdraw_args(*ctx, withdraw_amount));

    let mut callback_accounts: Vec<CallbackAccount> = Vec::new();
    callback_accounts.push(
        CallbackAccount { pubkey: ctx.dc_global_mint_account.key, is_writable: true },
    );
    callback_accounts.push(
        CallbackAccount { pubkey: ctx.dc_user_token_account.key, is_writable: true },
    );
    callback_accounts.push(CallbackAccount { pubkey: ctx.payer, is_writable: false });
    callback_accounts.push(CallbackAccount { pubkey: ctx.to_ata, is_writable: true });
    callback_accounts.push(CallbackAccount { pubkey: ctx.withdraw_ata, is_writable: true });
    callback_accounts.push(CallbackAccount { pubkey: ctx.withdraw_mint, is_writable: false });
    callback_accounts.push(CallbackAccount { pubkey: ctx.token_program, is_writable: false });
    callback_accounts.push(
        CallbackAccount { pubkey: ctx.associated_token_program, is_writable: false },
    );
    assert(callback_accounts@ =~= withdraw_callback_accounts(*ctx));

    queue_computation(WITHDRAW_CIRCUIT, computation_offset, args, callback_accounts, Some(collateral))
}

/// The event that reports the outputs of a withdrawal.
pub open spec fn withdraw_event(output: WithdrawOutput) -> WithdrawEvent {
    WithdrawEvent {
        status_code: output.status_code,
        withdraw_amount: output.withdraw_amount,
        new_global_mint_amount: output.new_global_mint_amount.ciphertext,
        new_user_dc_balance: output.new_user_dc_balance.ciphertext,
    }
}

/// The records after the callback of a withdrawal: with the new ciphertexts
/// and nonces if the circuit reported success, untouched otherwise.
pub open spec fn withdraw_resolved(before: WithdrawCallback, output: ComputationOutputs<WithdrawOutput>)
    -> WithdrawCallback {
    match output {
        ComputationOutputs::Success(o) => if o.status_code == STATUS_SUCCESS {
            WithdrawCallback {
                dc_global_mint_account: Account {
                    key: before.dc_global_mint_account.key,
                    data: before.dc_global_mint_account.data.with_supply(o.new_global_mint_amount),
                },
                dc_user_token_account: Account {
                    key: before.dc_user_token_account.key,
                    data: before.dc_user_token_account.data.with_amount(o.new_user_dc_balance),
                },
            }
        } else {
            before
        },
        ComputationOutputs::Failure => before,
    }
}

/// What the callback of a withdrawal hands back.
///
/// Success is committed without compensation. Any other status, and a
/// missing result, bring the collateral of the pending request back to the
/// reserve, signed for by the reserve. An event is published whenever the
/// circuit returned outputs.
pub open spec fn withdraw_effects(
    before: WithdrawCallback,
    pending: PendingComputation,
    output: ComputationOutputs<WithdrawOutput>,
) -> CallbackEffects<WithdrawEvent> {
    match output {
        ComputationOutputs::Success(o) => if o.status_code == STATUS_SUCCESS {
            CallbackEffects {
                resolution: Resolution::Committed,
                event: Some(withdraw_event(o)),
                compensation: None,
            }
        } else {
            CallbackEffects {
                resolution: Resolution::Rejected(o.status_code),
                event: Some(withdraw_event(o)),
                compensation: spec_compensation(pending, before.dc_global_mint_account.key),
            }
        },
        ComputationOutputs::Failure => CallbackEffects {
            resolution: Resolution::Aborted,
            event: None,
            compensation: spec_compensation(pending, before.dc_global_mint_account.key),
        },
    }
}

/// Takes the cluster's answer to a withdrawal. It cannot fail: every answer
/// maps to records and effects, as `withdraw_resolved` and `withdraw_effects`
/// state them.
pub fn withdraw_callback(
    ctx: &mut WithdrawCallback,
    pending: PendingComputation,
    output: ComputationOutputs<WithdrawOutput>,
) -> (effects: CallbackEffects<WithdrawEvent>)
    ensures
        *final(ctx) == withdraw_resolved(*old(ctx), output),
        effects == withdraw_effects(*old(ctx), pending, output),
{
    let o: WithdrawOutput = match output {
        ComputationOutputs::Success(o) => o,
        ComputationOutputs::Failure => {
            return CallbackEffects {
                resolution: Resolution::Aborted,
                event: None,
                compensation: compensation(&pending, ctx.dc_global_mint_account.key),
            };
        },
    };
    let event = WithdrawEvent {
        status_code: o.status_code,
        withdraw_amount: o.withdraw_amount,
        new_global_mint_amount: o.new_global_mint_amount.ciphertext,
        new_user_dc_balance: o.new_user_dc_balance.ciphertext,
    };
    if o.status_code != STATUS_SUCCESS {
        return CallbackEffects {
            resolution: Resolution::Rejected(o.status_code),
            event: Some(event),
            compensation: compensation(&pending, ctx.dc_global_mint_account.key),
        };
    }
    ctx.dc_global_mint_account.data.set_supply(o.new_global_mint_amount);
    ctx.dc_user_token_account.data.set_amount(o.new_user_dc_balance);
    CallbackEffects { resolution: Resolution::Committed, event: Some(event), compensation: None }
}

/// A withdrawal that does not succeed is undone: whatever the circuit
/// reported short of success, and also when the cluster delivered nothing,
/// the callback leaves both records as they were and sends the amount that
/// the queue step moved from the user's collateral account back to the
/// reserve's.
pub proof fn lemma_failed_withdraw_is_compensated(
    ctx: QueueWithdraw,
    withdraw_amount: u64,
    records: WithdrawCallback,
    pending: PendingComputation,
    output: ComputationOutputs<WithdrawOutput>,
)
    requires
        pending.collateral == Some(withdraw_collateral(ctx, withdraw_amount)),
        !(output matches ComputationOutputs::Success(o) && o.status_code == STATUS_SUCCESS),
    ensures
        withdraw_resolved(records, output) == records,
        withdraw_effects(records, pending, output).compensation == Some(
            (CollateralTransfer {
                from: ctx.to_ata,
                to: ctx.withdraw_ata,
                authority: records.dc_global_mint_account.key,
                amount: withdraw_amount,
            }),
        ),
        withdraw_effects(records, pending, output).resolution != Resolution::Committed,
{
}

/// Callbacks that arrive one after the other do not build on each other:
/// when the later one reports success, the records are what that callback
/// alone would have made of them. The last writer wins, so a request that was
/// queued on an older state of a record overwrites a newer one.
pub proof fn lemma_last_withdraw_callback_wins(
    records: WithdrawCallback,
    earlier: ComputationOutputs<WithdrawOutput>,
    later: ComputationOutputs<WithdrawOutput>,
)
    requires
        later matches ComputationOutputs::Success(o) && o.status_code == STATUS_SUCCESS,
    ensures
        withdraw_resolved(withdraw_resolved(records, earlier), later) == withdraw_resolved(
            records,
            later,
        ),
{
}

} // verus!
