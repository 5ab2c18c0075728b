use vstd::prelude::*;

verus! {

/// The error taxonomy of the payment-request ledger.
///
/// Every precondition violation is reported as one of these variants; the
/// engine never retries internally and never silently recovers.
#[derive(Clone, Copy, PartialEq, Eq, Structural, Debug)]
pub enum PayFluxError {
    /// A record for the same request identifier already exists.
    AlreadyExists,
    /// No record exists at the given address.
    NotFound,
    /// The record's status does not allow the requested transition.
    InvalidPaymentStatus,
    /// A caller-supplied field exceeds its byte-length bound.
    InvalidInput,
    /// No valid derivation salt exists for the request identifier.
    DerivationExhausted,
    /// The storage collaborator reported a fault.
    StorageFailure,
}

/// The description that `message` returns for each variant.
pub open spec fn message_spec(e: PayFluxError) -> Seq<char> {
    match e {
        PayFluxError::AlreadyExists => "a payment request with this identifier already exists"@,
        PayFluxError::NotFound => "no payment request exists at this address"@,
        PayFluxError::InvalidPaymentStatus => "invalid payment status for this operation"@,
        PayFluxError::InvalidInput => "a field exceeds its maximum byte length"@,
        PayFluxError::DerivationExhausted => "no viable derivation salt for this identifier"@,
        PayFluxError::StorageFailure => "the storage collaborator reported a fault"@,
    }
}

impl PayFluxError {
    /// A short description of the error, for reporting to callers.
    pub fn message(&self) -> (r: &'static str)
        ensures
            r@ == message_spec(*self),
    {
        match self {
            PayFluxError::AlreadyExists => "a payment request with this identifier already exists",
            PayFluxError::NotFound => "no payment request exists at this address",
            PayFluxError::InvalidPaymentStatus => "invalid payment status for this operation",
            PayFluxError::InvalidInput => "a field exceeds its maximum byte length",
            PayFluxError::DerivationExhausted => "no viable derivation salt for this identifier",
            PayFluxError::StorageFailure => "the storage collaborator reported a fault",
        }
    }
}

} // verus!
