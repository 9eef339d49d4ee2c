//! Transfer of an encrypted amount between two users.
//!
//! No collateral moves. The request carries the size of the collateral pool
//! in the clear, the three encrypted operands as they stand in the ledger,
//! and the requested amount and maximum variance.

use vstd::prelude::*;
use crate::cluster::{
    balance_operand,
    init_comp_def,
    is_definition_of,
    is_queued,
    push_balance_operand,
    push_reserve_operand,
    queue_computation,
    reserve_operand,
    writable,
    Argument,
    CallbackAccount,
    CallbackEffects,
    CompDefAccount,
    ComputationOutputs,
    PendingComputation,
    Queued,
    Resolution,
};
use crate::consts::MAX_TRANSFER_AMOUNT;
use crate::error::{ErrorCode, RegistrationError};
use crate::state::{
    Account,
    CollateralMint,
    DCGlobalMint,
    DCUserTokenAccount,
    EncryptedScalar,
    Pubkey,
};
use crate::status::STATUS_SUCCESS;

verus! {

/// Name of the transfer circuit.
pub const TRANSFER_CIRCUIT: &'static str = "transfer";

/// File of the compiled circuit.
pub const TRANSFER_CIRCUIT_FILE: &'static str = "transfer_testnet.arcis";

/// What the registration of the circuit works on.
#[derive(Clone, Debug, PartialEq, Eq)]
pub struct InitTransferCompDef {
    pub payer: Pubkey,
    pub comp_def_account: CompDefAccount,
}

/// What the queue step reads: the sender, the reserve record, the collateral
/// mint and the records of sender and receiver.
#[derive(Clone, Copy, Debug, PartialEq, Eq)]
pub struct QueueTransfer {
    pub payer: Pubkey,
    pub dc_global_mint_account: Account<DCGlobalMint>,
    pub deposit_mint: Account<CollateralMint>,
    pub dc_user_token_account: Account<DCUserTokenAccount>,
    pub receiver_dc_user_token_account: Account<DCUserTokenAccount>,
}

/// What the callback works on: the reserve record and the records of sender
/// and receiver.
#[derive(Clone, Copy, Debug, PartialEq, Eq)]
pub struct TransferCallback {
    pub dc_global_mint_account: Account<DCGlobalMint>,
    pub dc_user_token_account: Account<DCUserTokenAccount>,
    pub receiver_dc_user_token_account: Account<DCUserTokenAccount>,
}

/// What the transfer circuit returns.
#[derive(Clone, Copy, Debug, PartialEq, Eq)]
pub struct TransferOutput {
    pub status_code: u8,
    pub variance: u8,
    pub transfer_amount: u64,
    pub new_sender_balance: EncryptedScalar,
    pub new_global_mint_balance: EncryptedScalar,
    pub new_receiver_balance: EncryptedScalar,
}

/// Published for every transfer that the cluster judged.
#[derive(Clone, Copy, Debug, PartialEq, Eq)]
pub struct TransferEvent {
    pub status_code: u8,
    pub variance: u8,
    pub transfer_amount: u64,
    pub new_sender_balance: [u8; 32],
    pub new_global_mint_balance: [u8; 32],
    pub new_receiver_balance: [u8; 32],
}

/// Registers the circuit. A second registration is turned down with
/// `AlreadyRegistered` and changes nothing.
pub fn init_transfer_comp_def(ctx: &mut InitTransferCompDef) -> (answer: Result<
    (),
    RegistrationError,
>)
    ensures
        final(ctx).payer == old(ctx).payer,
        old(ctx).comp_def_account is Uninitialized ==> answer is Ok && (final(ctx).comp_def_account
            matches CompDefAccount::Registered(definition) && is_definition_of(
            definition,
            TRANSFER_CIRCUIT@,
            TRANSFER_CIRCUIT_FILE@,
        )),
        old(ctx).comp_def_account is Registered ==> answer == Err::<(), RegistrationError>(
            RegistrationError::AlreadyRegistered,
        ) && *final(ctx) == *old(ctx),
{
    init_comp_def(&mut ctx.comp_def_account, TRANSFER_CIRCUIT, TRANSFER_CIRCUIT_FILE)
}

/// The arguments of a transfer: the size of the collateral pool, the
/// encrypted reserve, the encrypted balances of sender and receiver, the
/// requested amount and the maximum variance.
pub open spec fn transfer_args(ctx: QueueTransfer, transfer_amount: u64, max_variance: u8) -> Seq<
    Argument,
> {
    seq![Argument::PlaintextU64(ctx.deposit_mint.data.supply)] + reserve_operand(
        ctx.dc_global_mint_account,
    ) + balance_operand(ctx.dc_user_token_account) + balance_operand(
        ctx.receiver_dc_user_token_account,
    ) + seq![Argument::PlaintextU64(transfer_amount), Argument::PlaintextU8(max_variance)]
}

/// The records named to the callback of a transfer.
pub open spec fn transfer_callback_accounts(ctx: QueueTransfer) -> Seq<CallbackAccount> {
    seq![
        writable(ctx.dc_global_mint_account.key),
        writable(ctx.dc_user_token_account.key),
        writable(ctx.receiver_dc_user_token_account.key),
    ]
}

/// Queues a transfer.
///
/// An amount above `MAX_TRANSFER_AMOUNT` is turned down with
/// `MaxTransferAmountExceeded`. Every other request is put together for the
/// cluster; no collateral moves.
pub fn queue_transfer(
    ctx: &QueueTransfer,
    computation_offset: u64,
    transfer_amount: u64,
    max_variance: u8,
) -> (answer: Result<Queued, ErrorCode>)
    ensures
        transfer_amount > MAX_TRANSFER_AMOUNT ==> answer == Err::<Queued, ErrorCode>(
            ErrorCode::MaxTransferAmountExceeded,
        ),
        transfer_amount <= MAX_TRANSFER_AMOUNT ==> (answer matches Ok(queued) && is_queued(
            queued,
            TRANSFER_CIRCUIT@,
            computation_offset,
            transfer_args(*ctx, transfer_amount, max_variance),
            transfer_callback_accounts(*ctx),
            None,
        )),
{
    if transfer_amount > MAX_TRANSFER_AMOUNT {
        return Err(ErrorCode::MaxTransferAmountExceeded);
    }
    let mut args: Vec<Argument> = Vec::new();
    args.push(Argument::PlaintextU64(ctx.deposit_mint.data.supply));
    push_reserve_operand(&mut args, &ctx.dc_global_mint_account);
    push_balance_operand(&mut args, &ctx.dc_user_token_account);
    push_balance_operand(&mut args, &ctx.receiver_dc_user_token_account);
    args.push(Argument::PlaintextU64(transfer_amount));
    args.push(Argument::PlaintextU8(max_variance));
    assert(args@ =~= transfer_args(*ctx, transfer_amount, max_variance));

    let mut callback_accounts: Vec<CallbackAccount> = Vec::new();
    callback_accounts.push(
        CallbackAccount { pubkey: ctx.dc_global_mint_account.key, is_writable: true },
    );
    callback_accounts.push(
        CallbackAccount { pubkey: ctx.dc_user_token_account.key, is_writable: true },
    );
    callback_accounts.push(
        CallbackAccount { pubkey: ctx.receiver_dc_user_token_account.key, is_writable: true },
    );
    assert(callback_accounts@ =~= transfer_callback_accounts(*ctx));

    Ok(queue_computation(TRANSFER_CIRCUIT, computation_offset, args, callback_accounts, None))
}

/// The event that reports the outputs of a transfer.
pub open spec fn transfer_event(output: TransferOutput) -> TransferEvent {
    TransferEvent {
        status_code: output.status_code,
        variance: output.variance,
        transfer_amount: output.transfer_amount,
        new_sender_balance: output.new_sender_balance.ciphertext,
        new_global_mint_balance: output.new_global_mint_balance.ciphertext,
        new_receiver_balance: output.new_receiver_balance.ciphertext,
    }
}

/// The records after the callback of a transfer: with the new ciphertexts and
/// nonces if the circuit reported success, untouched otherwise.
pub open spec fn transfer_resolved(
    before: TransferCallback,
    output: ComputationOutputs<TransferOutput>,
) -> TransferCallback {
    match output {
        ComputationOutputs::Success(o) => if o.status_code == STATUS_SUCCESS {
            TransferCallback {
                dc_global_mint_account: Account {
                    key: before.dc_global_mint_account.key,
                    data: before.dc_global_mint_account.data.with_supply(
                        o.new_global_mint_balance,
                    ),
                },
                dc_user_token_account: Account {
                    key: before.dc_user_token_account.key,
                    data: before.dc_user_token_account.data.with_amount(o.new_sender_balance),
                },
                receiver_dc_user_token_account: Account {
                    key: before.receiver_dc_user_token_account.key,
                    data: before.receiver_dc_user_token_account.data.with_amount(
                        o.new_receiver_balance,
                    ),
                },
            }
        } else {
            before
        },
        ComputationOutputs::Failure => before,
    }
}

/// What the callback of a transfer hands back: how it ended and, whenever the
/// circuit returned outputs, the event. There is never collateral to move.
pub open spec fn transfer_effects(output: ComputationOutputs<TransferOutput>) -> CallbackEffects<
    TransferEvent,
> {
    match output {
        ComputationOutputs::Success(o) => CallbackEffects {
            resolution: if o.status_code == STATUS_SUCCESS {
                Resolution::Committed
            } else {
                Resolution::Rejected(o.status_code)
            },
            event: Some(transfer_event(o)),
            compensation: None,
        },
        ComputationOutputs::Failure => CallbackEffects {
            resolution: Resolution::Aborted,
            event: None,
            compensation: None,
        },
    }
}

/// Takes the cluster's answer to a transfer. It cannot fail: every answer
/// maps to records and effects, as `transfer_resolved` and `transfer_effects`
/// state them. The pending record is used up.
pub fn transfer_callback(
    ctx: &mut TransferCallback,
    _pending: PendingComputation,
    output: ComputationOutputs<TransferOutput>,
) -> (effects: CallbackEffects<TransferEvent>)
    ensures
        *final(ctx) == transfer_resolved(*old(ctx), output),
        effects == transfer_effects(output),
{
    let o: TransferOutput = match output {
        ComputationOutputs::Success(o) => o,
        ComputationOutputs::Failure => {
            return CallbackEffects {
                resolution: Resolution::Aborted,
                event: None,
                compensation: None,
            };
        },
    };
    let event = TransferEvent {
        status_code: o.status_code,
        variance: o.variance,
        transfer_amount: o.transfer_amount,
        new_sender_balance: o.new_sender_balance.ciphertext,
        new_global_mint_balance: o.new_global_mint_balance.ciphertext,
        new_receiver_balance: o.new_receiver_balance.ciphertext,
    };
    if o.status_code != STATUS_SUCCESS {
        return CallbackEffects {
            resolution: Resolution::Rejected(o.status_code),
            event: Some(event),
            compensation: None,
        };
    }
    ctx.dc_global_mint_account.data.set_supply(o.new_global_mint_balance);
    ctx.dc_user_token_account.data.set_amount(o.new_sender_balance);
    ctx.receiver_dc_user_token_account.data.set_amount(o.new_receiver_balance);
    CallbackEffects { resolution: Resolution::Committed, event: Some(event), compensation: None }
}

/// Callbacks that arrive one after the other do not build on each other:
/// when the later one reports success, the records are what that callback
/// alone would have made of them. The last writer wins, so a request that was
/// queued on an older state of a record overwrites a newer one.
pub proof fn lemma_last_transfer_callback_wins(
    records: TransferCallback,
    earlier: ComputationOutputs<TransferOutput>,
    later: ComputationOutputs<TransferOutput>,
)
    requires
        later matches ComputationOutputs::Success(o) && o.status_code == STATUS_SUCCESS,
    ensures
        transfer_resolved(transfer_resolved(records, earlier), later) == transfer_resolved(
            records,
            later,
        ),
{
}

} // verus!
