//! Errors that the ledger reports to a caller.

use vstd::prelude::*;

verus! {

/// Why a request was turned down.
#[derive(Clone, Copy, Debug, PartialEq, Eq, Structural)]
pub enum ErrorCode {
    /// The cluster delivered no result for a queued computation.
    AbortedComputation,
    /// The execution environment names no cluster.
    ClusterNotSet,
    /// A deposit was not acceptable.
    DepositInvalid,
    /// A transfer asked for more than `MAX_TRANSFER_AMOUNT`.
    MaxTransferAmountExceeded,
    /// A record that is created once was to be created again.
    AlreadyCreated,
}

impl ErrorCode {
    /// The text shown for this error.
    pub open spec fn spec_message(self) -> Seq<char> {
        match self {
            ErrorCode::AbortedComputation => "The computation was aborted"@,
            ErrorCode::ClusterNotSet => "Cluster not set"@,
            ErrorCode::DepositInvalid => "Deposit Invalid"@,
            ErrorCode::MaxTransferAmountExceeded => "Max Transfer Amount Exceeded"@,
            ErrorCode::AlreadyCreated => "The record was already created"@,
        }
    }

    /// The text shown for this error.
    pub fn message(&self) -> (text: &'static str)
        ensures
            text@ == self.spec_message(),
    {
        match self {
            ErrorCode::AbortedComputation => "The computation was aborted",
            ErrorCode::ClusterNotSet => "Cluster not set",
            ErrorCode::DepositInvalid => "Deposit Invalid",
            ErrorCode::MaxTransferAmountExceeded => "Max Transfer Amount Exceeded",
            ErrorCode::AlreadyCreated => "The record was already created",
        }
    }
}

/// Why a circuit definition could not be registered.
#[derive(Clone, Copy, Debug, PartialEq, Eq, Structural)]
pub enum RegistrationError {
    /// The definition account already holds a definition.
    AlreadyRegistered,
}

} // verus!
