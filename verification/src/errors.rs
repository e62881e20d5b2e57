//! The closed set of failures that a ledger operation can report.

use vstd::prelude::*;

verus! {

/// Why a ledger operation was refused.
///
/// Each kind has a fixed numeric code (see [`ContractError::code`]). Deployed
/// callers match on these codes, so a kind is never renumbered or removed;
/// a new kind takes the next unused code.
#[derive(Copy, Clone, Debug, PartialEq, Eq, Structural)]
pub enum ContractError {
    /// `initialize` was called on a ledger whose admin is already set.
    AlreadyInitialized,
    /// An operation that needs the admin was called before `initialize`.
    NotInitialized,
    /// `record_payment` named an invoice that already has a record.
    PaymentAlreadyRecorded,
    /// `get_payment` named an invoice that has no record.
    PaymentNotFound,
    /// The amount was zero or negative.
    InvalidAmount,
    /// The invoice identifier was empty.
    InvalidInvoiceId,
    /// The asset code was empty, or an issued asset came without an issuer.
    InvalidAsset,
}

/// Why a call that needs authorization did not go through.
///
/// A missing authorization is refused by the host and is none of the
/// ledger's own failures, so it has no numeric code.
#[derive(Copy, Clone, Debug, PartialEq, Eq, Structural)]
pub enum CallError {
    /// The call did not carry the authorization of the identity that has to
    /// stand behind it.
    Unauthorized,
    /// The ledger refused the call.
    Contract(ContractError),
}

impl ContractError {
    /// The numeric code of each kind.
    pub open spec fn spec_code(self) -> u32 {
        match self {
            ContractError::AlreadyInitialized => 1,
            ContractError::NotInitialized => 2,
            ContractError::PaymentAlreadyRecorded => 3,
            ContractError::PaymentNotFound => 4,
            ContractError::InvalidAmount => 5,
            ContractError::InvalidInvoiceId => 6,
            ContractError::InvalidAsset => 7,
        }
    }

    /// The kind that a numeric code stands for, if any.
    pub open spec fn spec_from_code(code: u32) -> Option<ContractError> {
        if code == 1 {
            Some(ContractError::AlreadyInitialized)
        } else if code == 2 {
            Some(ContractError::NotInitialized)
        } else if code == 3 {
            Some(ContractError::PaymentAlreadyRecorded)
        } else if code == 4 {
            Some(ContractError::PaymentNotFound)
        } else if code == 5 {
            Some(ContractError::InvalidAmount)
        } else if code == 6 {
            Some(ContractError::InvalidInvoiceId)
        } else if code == 7 {
            Some(ContractError::InvalidAsset)
        } else {
            None
        }
    }

    /// The stable numeric code of this kind.
    #[verifier::when_used_as_spec(spec_code)]
    pub fn code(self) -> (c: u32)
        ensures
            c == self.spec_code(),
            1 <= c <= 7,
    {
        match self {
            ContractError::AlreadyInitialized => 1,
            ContractError::NotInitialized => 2,
            ContractError::PaymentAlreadyRecorded => 3,
            ContractError::PaymentNotFound => 4,
            ContractError::InvalidAmount => 5,
            ContractError::InvalidInvoiceId => 6,
            ContractError::InvalidAsset => 7,
        }
    }

    /// Reads a numeric code back into its kind; `None` for a code that no
    /// kind uses.
    pub fn from_code(code: u32) -> (kind: Option<ContractError>)
        ensures
            kind == Self::spec_from_code(code),
            kind is Some <==> 1 <= code <= 7,
            kind matches Some(k) ==> k.spec_code() == code,
    {
        if code == 1 {
            Some(ContractError::AlreadyInitialized)
        } else if code == 2 {
            Some(ContractError::NotInitialized)
        } else if code == 3 {
            Some(ContractError::PaymentAlreadyRecorded)
        } else if code == 4 {
            Some(ContractError::PaymentNotFound)
        } else if code == 5 {
            Some(ContractError::InvalidAmount)
        } else if code == 6 {
            Some(ContractError::InvalidInvoiceId)
        } else if code == 7 {
            Some(ContractError::InvalidAsset)
        } else {
            None
        }
    }

    /// Every kind is found again from its code, so no two kinds share one.
    pub proof fn law_code_identifies_kind(kind: ContractError)
        ensures
            Self::spec_from_code(kind.spec_code()) == Some(kind),
    {
    }
}

} // verus!
