//! Status codes that every circuit returns in the clear.

use vstd::prelude::*;

verus! {

/// The operation was applied.
pub const STATUS_SUCCESS: u8 = 0;

/// A sum or difference left the range of a 64-bit balance.
pub const STATUS_OVERFLOW: u8 = 1;

/// The account or the reserve does not hold the requested amount.
pub const STATUS_INSUFFICIENT_FUNDS: u8 = 2;

/// The variance sampler rejected every draw of its retry budget.
pub const STATUS_RNG_FAILURE: u8 = 3;

/// Outcome of a circuit, as the ledger reads it from a status code.
#[derive(Clone, Copy, Debug, PartialEq, Eq, Structural)]
pub enum BusinessStatus {
    Success,
    Overflow,
    InsufficientFunds,
    RngFailure,
}

/// The meaning of a status code, if it has one.
pub open spec fn status_of(code: u8) -> Option<BusinessStatus> {
    if code == STATUS_SUCCESS {
        Some(BusinessStatus::Success)
    } else if code == STATUS_OVERFLOW {
        Some(BusinessStatus::Overflow)
    } else if code == STATUS_INSUFFICIENT_FUNDS {
        Some(BusinessStatus::InsufficientFunds)
    } else if code == STATUS_RNG_FAILURE {
        Some(BusinessStatus::RngFailure)
    } else {
        None
    }
}

impl BusinessStatus {
    /// The code that stands for this status.
    pub open spec fn spec_code(self) -> u8 {
        match self {
            BusinessStatus::Success => STATUS_SUCCESS,
            BusinessStatus::Overflow => STATUS_OVERFLOW,
            BusinessStatus::InsufficientFunds => STATUS_INSUFFICIENT_FUNDS,
            BusinessStatus::RngFailure => STATUS_RNG_FAILURE,
        }
    }

    /// The code that stands for this status.
    pub fn code(self) -> (code: u8)
        ensures
            code == self.spec_code(),
            status_of(code) == Some(self),
    {
        match self {
            BusinessStatus::Success => STATUS_SUCCESS,
            BusinessStatus::Overflow => STATUS_OVERFLOW,
            BusinessStatus::InsufficientFunds => STATUS_INSUFFICIENT_FUNDS,
            BusinessStatus::RngFailure => STATUS_RNG_FAILURE,
        }
    }

    /// Reads a status code. Codes above 3 have no meaning.
    pub fn from_code(code: u8) -> (status: Option<BusinessStatus>)
        ensures
            status == status_of(code),
    {
        if code == STATUS_SUCCESS {
            Some(BusinessStatus::Success)
        } else if code == STATUS_OVERFLOW {
            Some(BusinessStatus::Overflow)
        } else if code == STATUS_INSUFFICIENT_FUNDS {
            Some(BusinessStatus::InsufficientFunds)
        } else if code == STATUS_RNG_FAILURE {
            Some(BusinessStatus::RngFailure)
        } else {
            None
        }
    }
}

} // verus!
