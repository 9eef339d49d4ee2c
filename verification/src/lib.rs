//! A confidential balance ledger.
//!
//! User balances and a global reserve are held as ciphertexts. Deposits,
//! withdrawals and transfers are evaluated by a confidential computation
//! cluster on the plaintext values, and the public ledger applies or discards
//! the re-encrypted results in a later callback.
//!
//! The crate has two halves. `circuits`, `sampler` and `pricing` are the
//! balance transitions that run inside the confidential context, on plain
//! integers; `ledger` states what they preserve. The remaining modules are
//! the ledger program: the records, the requests handed to the cluster and
//! the interpretation of its answers.
//!
//! Each operation has three steps. A circuit definition is registered once.
//! A queue step reads the ciphertexts of its operands from the stored
//! records, names the plaintext collateral to move and puts the request
//! together. A callback step takes the cluster's answer: it stores the new
//! ciphertexts if the circuit reported success, and otherwise leaves the
//! records alone and names the collateral to move back. A callback never
//! fails; what it decides is handed back as data.
//!
//! Nothing here marks a record as busy while a request for it is queued. A
//! callback overwrites whatever the record holds when it arrives.

pub mod status;

pub mod sampler;
pub mod pricing;
pub mod circuits;
pub mod consts;
pub mod error;
pub mod state;
pub mod cluster;
pub mod init;
pub mod create_dc_token_account;
pub mod deposit;
pub mod withdraw;
pub mod transfer;
pub mod ledger;
