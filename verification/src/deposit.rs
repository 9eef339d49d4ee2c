//! Deposit of plaintext collateral against an encrypted balance.
//!
//! The collateral moves when the request is queued, before the cluster has
//! judged the deposit. The callback stores the new ciphertexts on success and
//! moves the collateral back otherwise.

use vstd::prelude::*;
use crate::cluster::{
    balance_operand,
    compensation,
    init_comp_def,
    is_definition_of,
    is_queued,
    push_balance_operand,
    push_reserve_operand,
    queue_computation,
    read_only,
    reserve_operand,
    spec_compensation,
    writable,
    Argument,
    CallbackAccount,
    CallbackEffects,
    CollateralTransfer,
    CompDefAccount,
    ComputationOutputs,
    PendingComputation,
    Queued,
    Resolution,
};
use crate::error::RegistrationError;
use crate::state::{Account, DCGlobalMint, DCUserTokenAccount, EncryptedScalar, Pubkey};
use crate::status::STATUS_SUCCESS;

verus! {

/// Name of the deposit circuit.
pub const DEPOSIT_CIRCUIT: &'static str = "deposit";

/// File of the compiled circuit.
pub const DEPOSIT_CIRCUIT_FILE: &'static str = "deposit_testnet.arcis";

/// What the registration of the circuit works on.
#[derive(Clone, Debug, PartialEq, Eq)]
pub struct InitDepositCompDef {
    pub payer: Pubkey,
    pub comp_def_account: CompDefAccount,
}

/// What the queue step reads: the depositor, the reserve record, the
/// depositor's record and the collateral accounts.
#[derive(Clone, Copy, Debug, PartialEq, Eq)]
pub struct QueueDeposit {
    pub payer: Pubkey,
    pub dc_global_mint_account: Account<DCGlobalMint>,
    pub dc_user_token_account: Account<DCUserTokenAccount>,
    /// The collateral account of the reserve.
    pub deposit_ata: Pubkey,
    /// The collateral account of the depositor.
    pub from_ata: Pubkey,
    pub deposit_mint: Pubkey,
    pub token_program: Pubkey,
    pub associated_token_program: Pubkey,
}

/// What the callback works on: the reserve record and the depositor's record.
#[derive(Clone, Copy, Debug, PartialEq, Eq)]
pub struct DepositCallback {
    pub dc_global_mint_account: Account<DCGlobalMint>,
    pub dc_user_token_account: Account<DCUserTokenAccount>,
}

/// What the deposit circuit returns.
#[derive(Clone, Copy, Debug, PartialEq, Eq)]
pub struct DepositOutput {
    pub status_code: u8,
    pub deposit_amount: u64,
    pub new_global_mint_amount: EncryptedScalar,
    pub new_user_dc_balance: EncryptedScalar,
}

/// Published for every deposit that the cluster judged.
#[derive(Clone, Copy, Debug, PartialEq, Eq)]
pub struct DepositEvent {
    pub status_code: u8,
    pub deposit_amount: u64,
    pub new_global_mint_amount: [u8; 32],
    pub new_user_dc_balance: [u8; 32],
}

/// Registers the circuit. A second registration is turned down with
/// `AlreadyRegistered` and changes nothing.
pub fn init_deposit_comp_def(ctx: &mut InitDepositCompDef) -> (answer: Result<
    (),
    RegistrationError,
>)
    ensures
        final(ctx).payer == old(ctx).payer,
        old(ctx).comp_def_account is Uninitialized ==> answer is Ok && (final(ctx).comp_def_account
            matches CompDefAccount::Registered(definition) && is_definition_of(
            definition,
            DEPOSIT_CIRCUIT@,
            DEPOSIT_CIRCUIT_FILE@,
        )),
        old(ctx).comp_def_account is Registered ==> answer == Err::<(), RegistrationError>(
            RegistrationError::AlreadyRegistered,
        ) && *final(ctx) == *old(ctx),
{
    init_comp_def(&mut ctx.comp_def_account, DEPOSIT_CIRCUIT, DEPOSIT_CIRCUIT_FILE)
}

/// The collateral that a deposit moves when it is queued: the amount, from
/// the depositor's account to the reserve's, signed for by the depositor.
pub open spec fn deposit_collateral(ctx: QueueDeposit, deposit_amount: u64) -> CollateralTransfer {
    CollateralTransfer {
        from: ctx.from_ata,
        to: ctx.deposit_ata,
        authority: ctx.payer,
        amount: deposit_amount,
    }
}

/// The arguments of a deposit: the encrypted reserve and the encrypted
/// balance, both as they stand in the ledger, then the amount in the clear.
pub open spec fn deposit_args(ctx: QueueDeposit, deposit_amount: u64) -> Seq<Argument> {
    reserve_operand(ctx.dc_global_mint_account) + balance_operand(ctx.dc_user_token_account)
        + seq![Argument::PlaintextU64(deposit_amount)]
}

/// The records named to the callback of a deposit.
pub open spec fn deposit_callback_accounts(ctx: QueueDeposit) -> Seq<CallbackAccount> {
    seq![
        writable(ctx.dc_global_mint_account.key),
        writable(ctx.dc_user_token_account.key),
        read_only(ctx.payer),
        writable(ctx.from_ata),
        writable(ctx.deposit_ata),
        read_only(ctx.deposit_mint),
        read_only(ctx.token_program),
        read_only(ctx.associated_token_program),
    ]
}

/// Queues a deposit: names the collateral to move into the reserve and puts
/// together the request for the cluster.
pub fn queue_deposit(ctx: &QueueDeposit, computation_offset: u64, deposit_amount: u64) -> (queued:
    Queued)
    ensures
        is_queued(
            queued,
            DEPOSIT_CIRCUIT@,
            computation_offset,
            deposit_args(*ctx, deposit_amount),
            deposit_callback_accounts(*ctx),
            Some(deposit_collateral(*ctx, deposit_amount)),
        ),
{
    let collateral = CollateralTransfer {
        from: ctx.from_ata,
        to: ctx.deposit_ata,
        authority: ctx.payer,
        amount: deposit_amount,
    };

    let mut args: Vec<Argument> = Vec::new();
    push_reserve_operand(&mut args, &ctx.dc_global_mint_account);
    push_balance_operand(&mut args, &ctx.dc_user_token_account);
    args.push(Argument::PlaintextU64(deposit_amount));
    assert(args@ =~= deposit_args(*ctx, deposit_amount));

    let mut callback_accounts: Vec<CallbackAccount> = Vec::new();
    callback_accounts.push(
        CallbackAccount { pubkey: ctx.dc_global_mint_account.key, is_writable: true },
    );
    callback_accounts.push(
        CallbackAccount { pubkey: ctx.dc_user_token_account.key, is_writable: true },
    );
    callback_accounts.push(CallbackAccount { pubkey: ctx.payer, is_writable: false });
    callback_accounts.push(CallbackAccount { pubkey: ctx.from_ata, is_writable: true });
    callback_accounts.push(CallbackAccount { pubkey: ctx.deposit_ata, is_writable: true });
    callback_accounts.push(CallbackAccount { pubkey: ctx.deposit_mint, is_writable: false });
    callback_accounts.push(CallbackAccount { pubkey: ctx.token_program, is_writable: false });
    callback_accounts.push(
        CallbackAccount { pubkey: ctx.associated_token_program, is_writable: false },
    );
    assert(callback_accounts@ =~= deposit_callback_accounts(*ctx));

    queue_computation(DEPOSIT_CIRCUIT, computation_offset, args, callback_accounts, Some(collateral))
}

/// The event that reports the outputs of a deposit.
pub open spec fn deposit_event(output: DepositOutput) -> DepositEvent {
    DepositEvent {
        status_code: output.status_code,
        deposit_amount: output.deposit_amount,
        new_global_mint_amount: output.new_global_mint_amount.ciphertext,
        new_user_dc_balance: output.new_user_dc_balance.ciphertext,
    }
}

/// The records after the callback of a deposit: with the new ciphertexts and
/// nonces if the circuit reported success, untouched otherwise.
pub open spec fn deposit_resolved(before: DepositCallback, output: ComputationOutputs<DepositOutput>)
    -> DepositCallback {
    match output {
        ComputationOutputs::Success(o) => if o.status_code == STATUS_SUCCESS {
            DepositCallback {
                dc_global_mint_account: Account {
                    key: before.dc_global_mint_account.key,
                    data: before.dc_global_mint_account.data.with_supply(o.new_global_mint_amount),
                },
                dc_user_token_account: Account {
                    key: before.dc_user_token_account.key,
                    data: before.dc_user_token_account.data.with_amount(o.new_user_dc_balance),
                },
            }
        } else {
            before
        },
        ComputationOutputs::Failure => before,
    }
}

/// What the callback of a deposit hands back.
///
/// Success is committed without compensation. Any other status, and a
/// missing result, bring the collateral of the pending request back to the
/// depositor, signed for by the reserve. An event is published whenever the
/// circuit returned outputs.
pub open spec fn deposit_effects(
    before: DepositCallback,
    pending: PendingComputation,
    output: ComputationOutputs<DepositOutput>,
) -> CallbackEffects<DepositEvent> {
    match output {
        ComputationOutputs::Success(o) => if o.status_code == STATUS_SUCCESS {
            CallbackEffects {
                resolution: Resolution::Committed,
                event: Some(deposit_event(o)),
                compensation: None,
            }
        } else {
            CallbackEffects {
                resolution: Resolution::Rejected(o.status_code),
                event: Some(deposit_event(o)),
                compensation: spec_compensation(pending, before.dc_global_mint_account.key),
            }
        },
        ComputationOutputs::Failure => CallbackEffects {
            resolution: Resolution::Aborted,
            event: None,
            compensation: spec_compensation(pending, before.dc_global_mint_account.key),
        },
    }
}

/// Takes the cluster's answer to a deposit. It cannot fail: every answer maps
/// to records and effects, as `deposit_resolved` and `deposit_effects` state
/// them.
pub fn deposit_callback(
    ctx: &mut DepositCallback,
    pending: PendingComputation,
    output: ComputationOutputs<DepositOutput>,
) -> (effects: CallbackEffects<DepositEvent>)
    ensures
        *final(ctx) == deposit_resolved(*old(ctx), output),
        effects == deposit_effects(*old(ctx), pending, output),
{
    let o: DepositOutput = match output {
        ComputationOutputs::Success(o) => o,
        ComputationOutputs::Failure => {
            return CallbackEffects {
                resolution: Resolution::Aborted,
                event: None,
                compensation: compensation(&pending, ctx.dc_global_mint_account.key),
            };
        },
    };
    let event = DepositEvent {
        status_code: o.status_code,
        deposit_amount: o.deposit_amount,
        new_global_mint_amount: o.new_global_mint_amount.ciphertext,
        new_user_dc_balance: o.new_user_dc_balance.ciphertext,
    };
    if o.status_code != STATUS_SUCCESS {
        return CallbackEffects {
            resolution: Resolution::Rejected(o.status_code),
            event: Some(event),
            compensation: compensation(&pending, ctx.dc_global_mint_account.key),
        };
    }
    ctx.dc_global_mint_account.data.set_supply(o.new_global_mint_amount);
    ctx.dc_user_token_account.data.set_amount(o.new_user_dc_balance);
    CallbackEffects { resolution: Resolution::Committed, event: Some(event), compensation: None }
}

/// A deposit that does not succeed is undone: whatever the circuit reported
/// short of success, and also when the cluster delivered nothing, the
/// callback leaves both records as they were and sends the amount that the
/// queue step moved from the reserve's collateral account back to the
/// depositor's.
pub proof fn lemma_failed_deposit_is_compensated(
    ctx: QueueDeposit,
    deposit_amount: u64,
    records: DepositCallback,
    pending: PendingComputation,
    output: ComputationOutputs<DepositOutput>,
)
    requires
        pending.collateral == Some(deposit_collateral(ctx, deposit_amount)),
        !(output matches ComputationOutputs::Success(o) && o.status_code == STATUS_SUCCESS),
    ensures
        deposit_resolved(records, output) == records,
        deposit_effects(records, pending, output).compensation == Some(
            (CollateralTransfer {
                from: ctx.deposit_ata,
                to: ctx.from_ata,
                authority: records.dc_global_mint_account.key,
                amount: deposit_amount,
            }),
        ),
        deposit_effects(records, pending, output).resolution != Resolution::Committed,
{
}

/// Callbacks that arrive one after the other do not build on each other:
/// when the later one reports success, the records are what that callback
/// alone would have made of them. The last writer wins, so a request that was
/// queued on an older state of a record overwrites a newer one.
pub proof fn lemma_last_deposit_callback_wins(
    records: DepositCallback,
    earlier: ComputationOutputs<DepositOutput>,
    later: ComputationOutputs<DepositOutput>,
)
    requires
        later matches ComputationOutputs::Success(o) && o.status_code == STATUS_SUCCESS,
    ensures
        deposit_resolved(deposit_resolved(records, earlier), later) == deposit_resolved(
            records,
            later,
        ),
{
}

} // verus!
