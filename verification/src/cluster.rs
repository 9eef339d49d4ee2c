//! What passes between the ledger and the confidential cluster: circuit
//! definitions, computation requests and their answers, and the transfers of
//! plaintext collateral that accompany them.

use vstd::prelude::*;
use vstd::string::StringExecFns;
use crate::consts::{CIRCUITS_URL, FIELD_LEN, GLOBAL_MINT_SUPPLY_OFFSET, USER_AMOUNT_OFFSET};
use crate::error::{ErrorCode, RegistrationError};
use crate::state::{zeroed, Account, DCGlobalMint, DCUserTokenAccount, Pubkey};

verus! {

/// One argument of a computation request, in the order the circuit takes them.
#[derive(Clone, Copy, Debug, PartialEq, Eq)]
pub enum Argument {
    PlaintextU8(u8),
    PlaintextU64(u64),
    PlaintextU128(u128),
    /// A participant's public encryption key.
    ArcisPubkey([u8; 32]),
    /// Bytes that the cluster reads from a stored record: the record's
    /// address, the offset of the first byte and the number of bytes.
    Account(Pubkey, u32, u32),
}

/// A record that the callback of a computation may read or write.
#[derive(Clone, Copy, Debug, PartialEq, Eq)]
pub struct CallbackAccount {
    pub pubkey: Pubkey,
    pub is_writable: bool,
}

/// What the cluster delivers for a queued computation.
#[derive(Clone, Copy, Debug, PartialEq, Eq)]
pub enum ComputationOutputs<O> {
    /// The circuit ran to its end; its outputs follow.
    Success(O),
    /// The computation was aborted or rejected before it produced outputs.
    Failure,
}

/// A movement of plaintext collateral between two holding accounts.
#[derive(Clone, Copy, Debug, PartialEq, Eq)]
pub struct CollateralTransfer {
    pub from: Pubkey,
    pub to: Pubkey,
    pub authority: Pubkey,
    pub amount: u64,
}

impl CollateralTransfer {
    /// The movement that undoes this one: the same amount back to where it
    /// came from, signed for by `authority`.
    pub open spec fn spec_reversed(self, authority: Pubkey) -> CollateralTransfer {
        CollateralTransfer { from: self.to, to: self.from, authority, amount: self.amount }
    }

    /// Whether the movement goes from the account `from` to the account `to`.
    pub fn runs_between(&self, from: &Pubkey, to: &Pubkey) -> (runs: bool)
        ensures
            runs == (self.from == *from && self.to == *to),
    {
        self.from.same_as(from) && self.to.same_as(to)
    }

    /// The movement that undoes this one: the same amount back to where it
    /// came from, signed for by `authority`.
    pub fn reversed(&self, authority: Pubkey) -> (back: CollateralTransfer)
        ensures
            back == self.spec_reversed(authority),
    {
        CollateralTransfer { from: self.to, to: self.from, authority, amount: self.amount }
    }
}

/// A computation request as it is handed to the cluster.
#[derive(Clone, Debug, PartialEq, Eq)]
pub struct QueuedComputation {
    /// Which circuit runs.
    pub comp_def_offset: u32,
    /// The caller's identifier for this request.
    pub computation_offset: u64,
    pub args: Vec<Argument>,
    /// The records that the callback may touch.
    pub callback_accounts: Vec<CallbackAccount>,
}

/// Links a queued request to the callback that will deliver its result. It is
/// made when the request is queued and used up by the callback.
#[derive(Debug, PartialEq, Eq)]
pub struct PendingComputation {
    pub computation_offset: u64,
    pub comp_def_offset: u32,
    /// Collateral that was moved when the request was queued.
    pub collateral: Option<CollateralTransfer>,
}

/// What a queue step hands back: the request for the cluster and the record
/// to keep for the callback. The collateral named in the record is to be
/// moved before the request is sent.
#[derive(Debug, PartialEq, Eq)]
pub struct Queued {
    pub request: QueuedComputation,
    pub pending: PendingComputation,
}

/// How a callback ended.
#[derive(Clone, Copy, Debug, PartialEq, Eq, Structural)]
pub enum Resolution {
    /// The circuit reported success and its outputs were stored.
    Committed,
    /// The circuit reported the given status; nothing was stored.
    Rejected(u8),
    /// The cluster delivered no result; nothing was stored.
    Aborted,
}

impl Resolution {
    /// The error to report for this resolution, if it is one. A status that a
    /// circuit reports is no error of the callback.
    pub open spec fn spec_error(self) -> Option<ErrorCode> {
        match self {
            Resolution::Aborted => Some(ErrorCode::AbortedComputation),
            _ => None,
        }
    }

    /// The error to report for this resolution, if it is one. A status that a
    /// circuit reports is no error of the callback.
    pub fn error(&self) -> (error: Option<ErrorCode>)
        ensures
            error == self.spec_error(),
    {
        match self {
            Resolution::Aborted => Some(ErrorCode::AbortedComputation),
            _ => None,
        }
    }
}

/// What a callback hands back beside the records it changed: how it ended,
/// the event to publish and the collateral to move back.
#[derive(Clone, Copy, Debug, PartialEq, Eq)]
pub struct CallbackEffects<E> {
    pub resolution: Resolution,
    pub event: Option<E>,
    pub compensation: Option<CollateralTransfer>,
}

impl<E> CallbackEffects<E> {
    /// The error that the step which ran the callback answers with, if any.
    ///
    /// An answer with an error undoes what the step did, the movement of
    /// collateral included. So a computation without a result is answered
    /// with `AbortedComputation` only where nothing is to be moved back;
    /// where collateral goes back, the step answers without an error and the
    /// resolution alone tells of the abort.
    pub open spec fn spec_answer(&self) -> Option<ErrorCode> {
        if self.compensation is None {
            self.resolution.spec_error()
        } else {
            None
        }
    }

    /// The error that the step which ran the callback answers with, if any,
    /// as `spec_answer` states it.
    pub fn answer(&self) -> (error: Option<ErrorCode>)
        ensures
            error == self.spec_answer(),
    {
        if self.compensation.is_none() {
            self.resolution.error()
        } else {
            None
        }
    }
}

/// The movement that undoes the collateral movement of a pending request, if
/// there was one.
pub open spec fn spec_compensation(pending: PendingComputation, authority: Pubkey) -> Option<
    CollateralTransfer,
> {
    match pending.collateral {
        Some(moved) => Some(moved.spec_reversed(authority)),
        None => None,
    }
}

/// The movement that undoes the collateral movement of a pending request, if
/// there was one.
pub fn compensation(pending: &PendingComputation, authority: Pubkey) -> (back: Option<
    CollateralTransfer,
>)
    ensures
        back == spec_compensation(*pending, authority),
{
    match &pending.collateral {
        Some(moved) => Some(moved.reversed(authority)),
        None => None,
    }
}

/// The arguments that hand the encrypted reserve to a circuit: the nonce of
/// the stored supply and the place of its ciphertext in the stored record.
pub open spec fn reserve_operand(global: Account<DCGlobalMint>) -> Seq<Argument> {
    seq![
        Argument::PlaintextU128(global.data.supply_nonce),
        Argument::Account(global.key, GLOBAL_MINT_SUPPLY_OFFSET, FIELD_LEN),
    ]
}

/// The arguments that hand a user's encrypted balance to a circuit: the
/// owner's public encryption key, the nonce of the stored balance and the
/// place of its ciphertext in the stored record.
pub open spec fn balance_operand(user: Account<DCUserTokenAccount>) -> Seq<Argument> {
    seq![
        Argument::ArcisPubkey(user.data.owner_x25519),
        Argument::PlaintextU128(user.data.amount_nonce),
        Argument::Account(user.key, USER_AMOUNT_OFFSET, FIELD_LEN),
    ]
}

/// Appends the encrypted reserve, read from its record, to an argument list.
pub fn push_reserve_operand(args: &mut Vec<Argument>, global: &Account<DCGlobalMint>)
    ensures
        final(args)@ == old(args)@ + reserve_operand(*global),
{
    args.push(Argument::PlaintextU128(global.data.supply_nonce));
    args.push(Argument::Account(global.key, GLOBAL_MINT_SUPPLY_OFFSET, FIELD_LEN));
    assert(args@ =~= old(args)@ + reserve_operand(*global));
}

/// Appends a user's encrypted balance, read from its record, to an argument
/// list.
pub fn push_balance_operand(args: &mut Vec<Argument>, user: &Account<DCUserTokenAccount>)
    ensures
        final(args)@ == old(args)@ + balance_operand(*user),
{
    args.push(Argument::ArcisPubkey(user.data.owner_x25519));
    args.push(Argument::PlaintextU128(user.data.amount_nonce));
    args.push(Argument::Account(user.key, USER_AMOUNT_OFFSET, FIELD_LEN));
    assert(args@ =~= old(args)@ + balance_operand(*user));
}

/// A record that a callback may write.
pub open spec fn writable(pubkey: Pubkey) -> CallbackAccount {
    CallbackAccount { pubkey, is_writable: true }
}

/// A record that a callback may only read.
pub open spec fn read_only(pubkey: Pubkey) -> CallbackAccount {
    CallbackAccount { pubkey, is_writable: false }
}

/// Whether `queued` is the request for the circuit `name` under the caller's
/// identifier, with the given arguments and callback records, together with
/// the pending record that names the collateral moved for it.
pub open spec fn is_queued(
    queued: Queued,
    name: Seq<char>,
    computation_offset: u64,
    args: Seq<Argument>,
    callback_accounts: Seq<CallbackAccount>,
    collateral: Option<CollateralTransfer>,
) -> bool {
    &&& queued.request.comp_def_offset == circuit_offset(name)
    &&& queued.request.computation_offset == computation_offset
    &&& queued.request.args@ == args
    &&& queued.request.callback_accounts@ == callback_accounts
    &&& queued.pending.computation_offset == computation_offset
    &&& queued.pending.comp_def_offset == circuit_offset(name)
    &&& queued.pending.collateral == collateral
}

/// Puts together the request for the circuit `name` and its pending record.
pub fn queue_computation(
    name: &str,
    computation_offset: u64,
    args: Vec<Argument>,
    callback_accounts: Vec<CallbackAccount>,
    collateral: Option<CollateralTransfer>,
) -> (queued: Queued)
    ensures
        is_queued(queued, name@, computation_offset, args@, callback_accounts@, collateral),
{
    let offset: u32 = comp_def_offset(name);
    Queued {
        request: QueuedComputation {
            comp_def_offset: offset,
            computation_offset,
            args,
            callback_accounts,
        },
        pending: PendingComputation { computation_offset, comp_def_offset: offset, collateral },
    }
}

/// A circuit definition as it is registered with the cluster.
#[derive(Clone, Debug, PartialEq, Eq)]
pub struct ComputationDefinition {
    /// The offset derived from the circuit's name.
    pub offset: u32,
    /// Where the compiled circuit is fetched from.
    pub source: String,
    /// Hash of the compiled circuit.
    pub hash: [u8; 32],
    pub finalize_during_callback: bool,
    pub cu_amount: u64,
    pub finalize_authority: Option<Pubkey>,
}

/// The account that holds a circuit definition.
#[derive(Clone, Debug, PartialEq, Eq)]
pub enum CompDefAccount {
    Uninitialized,
    Registered(ComputationDefinition),
}

/// The offset under which the cluster files the circuit of the given name.
pub uninterp spec fn circuit_offset(name: Seq<char>) -> u32;

/// Calls `arcium_anchor::comp_def_offset`, which hashes the circuit's name
/// with SHA-256 and reads the first four bytes of the digest as a
/// little-endian number. The contract only names that number.
#[verifier::external_body]
pub(crate) fn comp_def_offset(name: &str) -> (offset: u32)
    ensures
        offset == circuit_offset(name@),
{
    arcium_anchor::comp_def_offset(name)
}

/// Whether `definition` is the definition of the circuit `name` whose
/// compiled form is the file `file` under `CIRCUITS_URL`: finalised during
/// the callback, with no compute budget, no authority and a hash of zeros.
pub open spec fn is_definition_of(
    definition: ComputationDefinition,
    name: Seq<char>,
    file: Seq<char>,
) -> bool {
    &&& definition.offset == circuit_offset(name)
    &&& definition.source@ == CIRCUITS_URL@ + file
    &&& zeroed(definition.hash)
    &&& definition.finalize_during_callback
    &&& definition.cu_amount == 0
    &&& definition.finalize_authority is None
}

/// The definition of the circuit `name`, served as `file`.
pub fn circuit_definition(name: &str, file: &str) -> (definition: ComputationDefinition)
    ensures
        is_definition_of(definition, name@, file@),
{
    let definition = ComputationDefinition {
        offset: comp_def_offset(name),
        source: String::from_str(CIRCUITS_URL).concat(file),
        hash: [0u8;32],
        finalize_during_callback: true,
        cu_amount: 0,
        finalize_authority: None,
    };
    definition
}

/// The account after an attempt to register `definition` in it, and the
/// answer to the attempt. An account that holds a definition keeps it.
pub open spec fn spec_register(account: CompDefAccount, definition: ComputationDefinition) -> (
    CompDefAccount,
    Result<(), RegistrationError>,
) {
    match account {
        CompDefAccount::Uninitialized => (CompDefAccount::Registered(definition), Ok(())),
        CompDefAccount::Registered(_) => (account, Err(RegistrationError::AlreadyRegistered)),
    }
}

impl CompDefAccount {
    /// Whether the account holds a definition.
    pub fn is_registered(&self) -> (registered: bool)
        ensures
            registered == (*self is Registered),
    {
        match self {
            CompDefAccount::Uninitialized => false,
            CompDefAccount::Registered(_) => true,
        }
    }

    /// Registers `definition` in an account that holds none, and turns the
    /// attempt down on an account that holds one, which stays as it is.
    pub fn register(&mut self, definition: ComputationDefinition) -> (answer: Result<
        (),
        RegistrationError,
    >)
        ensures
            (*final(self), answer) == spec_register(*old(self), definition),
    {
        if self.is_registered() {
            Err(RegistrationError::AlreadyRegistered)
        } else {
            *self = CompDefAccount::Registered(definition);
            Ok(())
        }
    }
}

/// Registers the circuit `name`, served as `file`, in `account`.
///
/// On an account that holds no definition this stores the definition of the
/// circuit. On an account that holds one it changes nothing and answers
/// `AlreadyRegistered`.
pub fn init_comp_def(account: &mut CompDefAccount, name: &str, file: &str) -> (answer: Result<
    (),
    RegistrationError,
>)
    ensures
        *old(account) is Uninitialized ==> answer is Ok && (*final(account) matches CompDefAccount::Registered(
            definition,
        ) && is_definition_of(definition, name@, file@)),
        *old(account) is Registered ==> answer == Err::<(), RegistrationError>(
            RegistrationError::AlreadyRegistered,
        ) && *final(account) == *old(account),
{
    if account.is_registered() {
        Err(RegistrationError::AlreadyRegistered)
    } else {
        account.register(circuit_definition(name, file))
    }
}

/// Registering twice is safe: whatever the second attempt brings, it is
/// turned down and the account stays as the first attempt left it.
pub proof fn lemma_registration_is_idempotent(
    account: CompDefAccount,
    first: ComputationDefinition,
    second: ComputationDefinition,
)
    ensures
        spec_register(spec_register(account, first).0, second).0 == spec_register(account, first).0,
        spec_register(spec_register(account, first).0, second).1 == Err::<(), RegistrationError>(
            RegistrationError::AlreadyRegistered,
        ),
        spec_register(account, first).0 is Registered,
{
}

} // verus!
