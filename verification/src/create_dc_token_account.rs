//! Creation of a user's record with an encrypted balance of zero.

use vstd::prelude::*;
use crate::cluster::{
    init_comp_def,
    is_definition_of,
    is_queued,
    queue_computation,
    writable,
    Argument,
    CallbackAccount,
    CallbackEffects,
    CompDefAccount,
    ComputationOutputs,
    PendingComputation,
    Queued,
    Resolution,
};
use crate::error::{ErrorCode, RegistrationError};
use crate::state::{Account, DCUserTokenAccount, EncryptedScalar, Pubkey};

verus! {

/// Name of the circuit that encrypts a user's initial balance.
pub const INIT_USER_DC_BALANCE_CIRCUIT: &'static str = "init_user_dc_balance";

/// File of the compiled circuit.
pub const INIT_USER_DC_BALANCE_CIRCUIT_FILE: &'static str = "init_user_dc_balance_testnet.arcis";

/// What the registration of the circuit works on.
#[derive(Clone, Debug, PartialEq, Eq)]
pub struct InitCreateDCTokenAccountCompDef {
    pub payer: Pubkey,
    pub comp_def_account: CompDefAccount,
}

/// What the queue step works on: the payer, who becomes the owner, and the
/// place of the user's record, which is set up once.
#[derive(Clone, Copy, Debug, PartialEq, Eq)]
pub struct QueueInitUserDcBalance {
    pub payer: Pubkey,
    /// Whether an earlier call has set the record up.
    pub created: bool,
    pub dc_user_token_account: Account<DCUserTokenAccount>,
}

/// What the callback works on: the user's record.
#[derive(Clone, Copy, Debug, PartialEq, Eq)]
pub struct InitUserDcBalanceCallback {
    pub dc_user_token_account: Account<DCUserTokenAccount>,
}

/// Registers the circuit. A second registration is turned down with
/// `AlreadyRegistered` and changes nothing.
pub fn init_create_dc_token_account_comp_def(ctx: &mut InitCreateDCTokenAccountCompDef) -> (answer:
    Result<(), RegistrationError>)
    ensures
        final(ctx).payer == old(ctx).payer,
        old(ctx).comp_def_account is Uninitialized ==> answer is Ok && (final(ctx).comp_def_account
            matches CompDefAccount::Registered(definition) && is_definition_of(
            definition,
            INIT_USER_DC_BALANCE_CIRCUIT@,
            INIT_USER_DC_BALANCE_CIRCUIT_FILE@,
        )),
        old(ctx).comp_def_account is Registered ==> answer == Err::<(), RegistrationError>(
            RegistrationError::AlreadyRegistered,
        ) && *final(ctx) == *old(ctx),
{
    init_comp_def(
        &mut ctx.comp_def_account,
        INIT_USER_DC_BALANCE_CIRCUIT,
        INIT_USER_DC_BALANCE_CIRCUIT_FILE,
    )
}

/// Sets a user's record up and asks the cluster for an encryption of zero to
/// the owner's key under `nonce`. The callback may write the user's record.
///
/// A user's record is set up once. On a record that an earlier call has set
/// up the step answers `AlreadyCreated`, queues nothing and leaves everything
/// as it was. Otherwise it marks the record as created and stores the payer
/// as owner and the owner's public encryption key in it. The encrypted
/// balance and its nonce are left as the record holds them: the ledger makes
/// no ciphertext of its own, and the nonce travels in the request alone. The
/// record holds a balance once the callback has stored what the circuit
/// produced.
pub fn queue_create_dc_token_account(
    ctx: &mut QueueInitUserDcBalance,
    computation_offset: u64,
    owner_x25519: [u8; 32],
    nonce: u128,
) -> (answer: Result<Queued, ErrorCode>)
    ensures
        old(ctx).created ==> answer == Err::<Queued, ErrorCode>(ErrorCode::AlreadyCreated)
            && *final(ctx) == *old(ctx),
        !old(ctx).created ==> (answer matches Ok(queued) && is_queued(
            queued,
            INIT_USER_DC_BALANCE_CIRCUIT@,
            computation_offset,
            seq![Argument::ArcisPubkey(owner_x25519), Argument::PlaintextU128(nonce)],
            seq![writable(old(ctx).dc_user_token_account.key)],
            None,
        )),
        !old(ctx).created ==> final(ctx).created && final(ctx).payer == old(ctx).payer
            && final(ctx).dc_user_token_account.key == old(ctx).dc_user_token_account.key
            && final(ctx).dc_user_token_account.data
            == old(ctx).dc_user_token_account.data.with_owner(old(ctx).payer, owner_x25519),
{
    if ctx.created {
        return Err(ErrorCode::AlreadyCreated);
    }
    ctx.created = true;
    ctx.dc_user_token_account.data.owner = ctx.payer;
    ctx.dc_user_token_account.data.owner_x25519 = owner_x25519;

    let mut args: Vec<Argument> = Vec::new();
    args.push(Argument::ArcisPubkey(owner_x25519));
    args.push(Argument::PlaintextU128(nonce));
    let mut callback_accounts: Vec<CallbackAccount> = Vec::new();
    callback_accounts.push(
        CallbackAccount { pubkey: ctx.dc_user_token_account.key, is_writable: true },
    );
    assert(args@ =~= seq![Argument::ArcisPubkey(owner_x25519), Argument::PlaintextU128(nonce)]);
    assert(callback_accounts@ =~= seq![writable(ctx.dc_user_token_account.key)]);
    Ok(
        queue_computation(
            INIT_USER_DC_BALANCE_CIRCUIT,
            computation_offset,
            args,
            callback_accounts,
            None,
        ),
    )
}

/// The user's record after the callback: with the delivered balance and its
/// nonce, or untouched when nothing was delivered.
pub open spec fn init_user_dc_balance_resolved(
    before: InitUserDcBalanceCallback,
    output: ComputationOutputs<EncryptedScalar>,
) -> InitUserDcBalanceCallback {
    match output {
        ComputationOutputs::Success(amount) => InitUserDcBalanceCallback {
            dc_user_token_account: Account {
                key: before.dc_user_token_account.key,
                data: before.dc_user_token_account.data.with_amount(amount),
            },
        },
        ComputationOutputs::Failure => before,
    }
}

/// What the callback hands back: committed or aborted. There is no event and
/// never collateral to move.
pub open spec fn init_user_dc_balance_effects(output: ComputationOutputs<EncryptedScalar>)
    -> CallbackEffects<()> {
    CallbackEffects {
        resolution: match output {
            ComputationOutputs::Success(_) => Resolution::Committed,
            ComputationOutputs::Failure => Resolution::Aborted,
        },
        event: None,
        compensation: None,
    }
}

/// Takes the cluster's answer to the initialisation of a user's balance. It
/// cannot fail: every answer maps to a record and effects, as
/// `init_user_dc_balance_resolved` and `init_user_dc_balance_effects` state
/// them. The pending record is used up.
pub fn init_user_dc_balance_callback(
    ctx: &mut InitUserDcBalanceCallback,
    _pending: PendingComputation,
    output: ComputationOutputs<EncryptedScalar>,
) -> (effects: CallbackEffects<()>)
    ensures
        *final(ctx) == init_user_dc_balance_resolved(*old(ctx), output),
        effects == init_user_dc_balance_effects(output),
{
    match output {
        ComputationOutputs::Success(amount) => {
            ctx.dc_user_token_account.data.set_amount(amount);
            CallbackEffects { resolution: Resolution::Committed, event: None, compensation: None }
        },
        ComputationOutputs::Failure => CallbackEffects {
            resolution: Resolution::Aborted,
            event: None,
            compensation: None,
        },
    }
}

} // verus!
