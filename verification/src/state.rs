//! The records that the ledger stores.

use vstd::prelude::*;

verus! {

/// Identity of an account, a program or a participant.
#[derive(Clone, Copy, Debug, PartialEq, Eq)]
pub struct Pubkey {
    pub bytes: [u8; 32],
}

impl Pubkey {
    /// Whether two identities are the same, byte for byte.
    pub fn same_as(&self, other: &Pubkey) -> (same: bool)
        ensures
            same == (*self == *other),
    {
        let mut i: usize = 0;
        while i < 32
            invariant
                i <= 32,
                forall|j: int| 0 <= j < i ==> self.bytes[j] == other.bytes[j],
            decreases 32 - i,
        {
            if self.bytes[i] != other.bytes[i] {
                return false;
            }
            i = i + 1;
        }
        assert(self.bytes =~= other.bytes);
        true
    }
}

/// A stored record together with the address it is stored at.
#[derive(Clone, Copy, Debug, PartialEq, Eq)]
pub struct Account<T> {
    pub key: Pubkey,
    pub data: T,
}

/// The global reserve: the mint of the deposit collateral and the encrypted
/// supply, which only the cluster can decrypt.
#[derive(Clone, Copy, Debug, PartialEq, Eq)]
pub struct DCGlobalMint {
    pub deposit_mint: Pubkey,
    pub supply: [u8; 32],
    pub supply_nonce: u128,
}

/// The record of one participant: the owner, the owner's public encryption
/// key and the encrypted balance, which the owner and the cluster can decrypt.
#[derive(Clone, Copy, Debug, PartialEq, Eq)]
pub struct DCUserTokenAccount {
    pub owner: Pubkey,
    pub owner_x25519: [u8; 32],
    pub amount: [u8; 32],
    pub amount_nonce: u128,
}

/// What the ledger reads of the collateral mint: the size of the pool.
#[derive(Clone, Copy, Debug, PartialEq, Eq)]
pub struct CollateralMint {
    pub supply: u64,
}

/// A ciphertext with the nonce it was encrypted under.
#[derive(Clone, Copy, Debug, PartialEq, Eq)]
pub struct EncryptedScalar {
    pub ciphertext: [u8; 32],
    pub nonce: u128,
}

/// Whether every byte is zero.
pub open spec fn zeroed(bytes: [u8; 32]) -> bool {
    forall|i: int| 0 <= i < 32 ==> bytes[i] == 0u8
}

impl DCGlobalMint {
    /// The record with its collateral mint replaced; the encrypted supply and
    /// its nonce stay.
    pub open spec fn with_deposit_mint(self, deposit_mint: Pubkey) -> DCGlobalMint {
        DCGlobalMint { deposit_mint, supply: self.supply, supply_nonce: self.supply_nonce }
    }

    /// The record with its supply replaced.
    pub open spec fn with_supply(self, supply: EncryptedScalar) -> DCGlobalMint {
        DCGlobalMint {
            deposit_mint: self.deposit_mint,
            supply: supply.ciphertext,
            supply_nonce: supply.nonce,
        }
    }

    /// The encrypted supply as it stands in the record.
    pub open spec fn spec_encrypted_supply(self) -> EncryptedScalar {
        EncryptedScalar { ciphertext: self.supply, nonce: self.supply_nonce }
    }

    /// The encrypted supply as it stands in the record.
    pub fn encrypted_supply(&self) -> (supply: EncryptedScalar)
        ensures
            supply == self.spec_encrypted_supply(),
    {
        EncryptedScalar { ciphertext: self.supply, nonce: self.supply_nonce }
    }

    /// Stores a new encrypted supply; the collateral mint stays.
    pub fn set_supply(&mut self, supply: EncryptedScalar)
        ensures
            *final(self) == old(self).with_supply(supply),
    {
        self.supply = supply.ciphertext;
        self.supply_nonce = supply.nonce;
    }
}

impl DCUserTokenAccount {
    /// The record with its owner and the owner's public encryption key
    /// replaced; the encrypted balance and its nonce stay.
    pub open spec fn with_owner(self, owner: Pubkey, owner_x25519: [u8; 32]) -> DCUserTokenAccount {
        DCUserTokenAccount {
            owner,
            owner_x25519,
            amount: self.amount,
            amount_nonce: self.amount_nonce,
        }
    }

    /// The record with its balance replaced.
    pub open spec fn with_amount(self, amount: EncryptedScalar) -> DCUserTokenAccount {
        DCUserTokenAccount {
            owner: self.owner,
            owner_x25519: self.owner_x25519,
            amount: amount.ciphertext,
            amount_nonce: amount.nonce,
        }
    }

    /// The encrypted balance as it stands in the record.
    pub open spec fn spec_encrypted_amount(self) -> EncryptedScalar {
        EncryptedScalar { ciphertext: self.amount, nonce: self.amount_nonce }
    }

    /// The encrypted balance as it stands in the record.
    pub fn encrypted_amount(&self) -> (amount: EncryptedScalar)
        ensures
            amount == self.spec_encrypted_amount(),
    {
        EncryptedScalar { ciphertext: self.amount, nonce: self.amount_nonce }
    }

    /// Stores a new encrypted balance; owner and encryption key stay.
    pub fn set_amount(&mut self, amount: EncryptedScalar)
        ensures
            *final(self) == old(self).with_amount(amount),
    {
        self.amount = amount.ciphertext;
        self.amount_nonce = amount.nonce;
    }
}

} // verus!
