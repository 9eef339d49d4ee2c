//! Fixed values of the ledger program.

use vstd::prelude::*;

verus! {

/// Where the compiled circuits are served from.
pub const CIRCUITS_URL: &'static str = "http://host.docker.internal:3131/";

/// Decimal places of a balance.
pub const DC_DECIMALS: u8 = 6;

/// Seed of the address of the global reserve record.
pub const DC_GLOBAL_MINT_SEED: &'static str = "dc_global_mint";

/// Seed of the address of a user's record, followed by the owner's key.
pub const DC_USER_TOKEN_ACCOUNT_SEED: &'static str = "dc_user_token_account";

/// The most that one transfer may ask to move.
pub const MAX_TRANSFER_AMOUNT: u64 = 1_000_000_000;

/// Bytes that precede the fields of a stored record.
pub const ACCOUNT_DISCRIMINATOR_LEN: u32 = 8;

/// Bytes of a key, of a public encryption key and of a ciphertext.
pub const FIELD_LEN: u32 = 32;

/// Where the encrypted supply starts in the stored reserve record: after the
/// discriminator and the collateral mint.
pub const GLOBAL_MINT_SUPPLY_OFFSET: u32 = 8 + 32;

/// Where the encrypted balance starts in a stored user record: after the
/// discriminator, the owner and the owner's public encryption key.
pub const USER_AMOUNT_OFFSET: u32 = 8 + 32 + 32;

} // verus!
