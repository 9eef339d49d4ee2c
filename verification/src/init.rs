//! Bootstrap of the global reserve.

use vstd::prelude::*;
use crate::cluster::{
    init_comp_def,
    is_definition_of,
    is_queued,
    queue_computation,
    writable,
    Argument,
    CallbackAccount,
    CallbackEffects,
    CompDefAccount,
    ComputationOutputs,
    PendingComputation,
    Queued,
    Resolution,
};
use crate::error::{ErrorCode, RegistrationError};
use crate::state::{Account, DCGlobalMint, EncryptedScalar, Pubkey};

verus! {

/// Name of the circuit that encrypts the initial reserve.
pub const INIT_GLOBAL_DC_MINT_CIRCUIT: &'static str = "init_global_dc_mint";

/// File of the compiled circuit.
pub const INIT_GLOBAL_DC_MINT_CIRCUIT_FILE: &'static str = "init_global_dc_mint_testnet.arcis";

/// What the registration of the circuit works on.
#[derive(Clone, Debug, PartialEq, Eq)]
pub struct InitGlobalDCMintCompDef {
    pub payer: Pubkey,
    pub comp_def_account: CompDefAccount,
}

/// What the queue step works on: the payer and the place of the reserve
/// record, which is set up once.
#[derive(Clone, Copy, Debug, PartialEq, Eq)]
pub struct QueueInitGlobalDCMint {
    pub payer: Pubkey,
    /// Whether an earlier call has set the record up.
    pub created: bool,
    pub dc_global_mint_account: Account<DCGlobalMint>,
}

/// What the callback works on: the reserve record.
#[derive(Clone, Copy, Debug, PartialEq, Eq)]
pub struct InitGlobalDcMintCallback {
    pub dc_global_mint_account: Account<DCGlobalMint>,
}

/// Published when the reserve has been initialised.
#[derive(Clone, Copy, Debug, PartialEq, Eq)]
pub struct InitGlobalDcMintEvent {
    pub encrypted_data: [u8; 32],
}

/// Registers the circuit. A second registration is turned down with
/// `AlreadyRegistered` and changes nothing.
pub fn init_global_dc_mint_comp_def(ctx: &mut InitGlobalDCMintCompDef) -> (answer: Result<
    (),
    RegistrationError,
>)
    ensures
        final(ctx).payer == old(ctx).payer,
        old(ctx).comp_def_account is Uninitialized ==> answer is Ok && (final(ctx).comp_def_account matches CompDefAccount::Registered(definition) && is_definition_of(
            definition,
            INIT_GLOBAL_DC_MINT_CIRCUIT@,
            INIT_GLOBAL_DC_MINT_CIRCUIT_FILE@,
        )),
        old(ctx).comp_def_account is Registered ==> answer == Err::<(), RegistrationError>(
            RegistrationError::AlreadyRegistered,
        ) && *final(ctx) == *old(ctx),
{
    init_comp_def(
        &mut ctx.comp_def_account,
        INIT_GLOBAL_DC_MINT_CIRCUIT,
        INIT_GLOBAL_DC_MINT_CIRCUIT_FILE,
    )
}

/// Sets the reserve record up and asks the cluster for an encryption of zero
/// under `nonce`. The callback may write the reserve record.
///
/// The reserve is set up once. On a record that an earlier call has set up
/// the step answers `AlreadyCreated`, queues nothing and leaves everything as
/// it was. Otherwise it marks the record as created and stores the collateral
/// mint in it. The encrypted supply and its nonce are left as the record
/// holds them: the ledger makes no ciphertext of its own, and the nonce
/// travels in the request alone. The record holds a supply once the callback
/// has stored what the circuit produced.
pub fn queue_init_global_dc_mint(
    ctx: &mut QueueInitGlobalDCMint,
    computation_offset: u64,
    nonce: u128,
    deposit_mint: Pubkey,
) -> (answer: Result<Queued, ErrorCode>)
    ensures
        old(ctx).created ==> answer == Err::<Queued, ErrorCode>(ErrorCode::AlreadyCreated)
            && *final(ctx) == *old(ctx),
        !old(ctx).created ==> (answer matches Ok(queued) && is_queued(
            queued,
            INIT_GLOBAL_DC_MINT_CIRCUIT@,
            computation_offset,
            seq![Argument::PlaintextU128(nonce)],
            seq![writable(old(ctx).dc_global_mint_account.key)],
            None,
        )),
        !old(ctx).created ==> final(ctx).created && final(ctx).payer == old(ctx).payer
            && final(ctx).dc_global_mint_account.key == old(ctx).dc_global_mint_account.key
            && final(ctx).dc_global_mint_account.data
            == old(ctx).dc_global_mint_account.data.with_deposit_mint(deposit_mint),
{
    if ctx.created {
        return Err(ErrorCode::AlreadyCreated);
    }
    ctx.created = true;
    ctx.dc_global_mint_account.data.deposit_mint = deposit_mint;

    let mut args: Vec<Argument> = Vec::new();
    args.push(Argument::PlaintextU128(nonce));
    let mut callback_accounts: Vec<CallbackAccount> = Vec::new();
    callback_accounts.push(
        CallbackAccount { pubkey: ctx.dc_global_mint_account.key, is_writable: true },
    );
    assert(args@ =~= seq![Argument::PlaintextU128(nonce)]);
    assert(callback_accounts@ =~= seq![writable(ctx.dc_global_mint_account.key)]);
    Ok(
        queue_computation(
            INIT_GLOBAL_DC_MINT_CIRCUIT,
            computation_offset,
            args,
            callback_accounts,
            None,
        ),
    )
}

/// The reserve record after the callback: with the delivered supply and its
/// nonce, or untouched when nothing was delivered.
pub open spec fn init_global_dc_mint_resolved(
    before: InitGlobalDcMintCallback,
    output: ComputationOutputs<EncryptedScalar>,
) -> InitGlobalDcMintCallback {
    match output {
        ComputationOutputs::Success(supply) => InitGlobalDcMintCallback {
            dc_global_mint_account: Account {
                key: before.dc_global_mint_account.key,
                data: before.dc_global_mint_account.data.with_supply(supply),
            },
        },
        ComputationOutputs::Failure => before,
    }
}

/// What the callback hands back: committed with the event that shows the new
/// ciphertext, or aborted without an event. There is never collateral to
/// move.
pub open spec fn init_global_dc_mint_effects(output: ComputationOutputs<EncryptedScalar>)
    -> CallbackEffects<InitGlobalDcMintEvent> {
    match output {
        ComputationOutputs::Success(supply) => CallbackEffects {
            resolution: Resolution::Committed,
            event: Some(InitGlobalDcMintEvent { encrypted_data: supply.ciphertext }),
            compensation: None,
        },
        ComputationOutputs::Failure => CallbackEffects {
            resolution: Resolution::Aborted,
            event: None,
            compensation: None,
        },
    }
}

/// Takes the cluster's answer to the initialisation of the reserve. It cannot
/// fail: every answer maps to a record and effects, as
/// `init_global_dc_mint_resolved` and `init_global_dc_mint_effects` state
/// them. The pending record is used up.
pub fn init_global_dc_mint_callback(
    ctx: &mut InitGlobalDcMintCallback,
    _pending: PendingComputation,
    output: ComputationOutputs<EncryptedScalar>,
) -> (effects: CallbackEffects<InitGlobalDcMintEvent>)
    ensures
        *final(ctx) == init_global_dc_mint_resolved(*old(ctx), output),
        effects == init_global_dc_mint_effects(output),
{
    match output {
        ComputationOutputs::Success(supply) => {
            ctx.dc_global_mint_account.data.set_supply(supply);
            CallbackEffects {
                resolution: Resolution::Committed,
                event: Some(InitGlobalDcMintEvent { encrypted_data: supply.ciphertext }),
                compensation: None,
            }
        },
        ComputationOutputs::Failure => CallbackEffects {
            resolution: Resolution::Aborted,
            event: None,
            compensation: None,
        },
    }
}

} // verus!
