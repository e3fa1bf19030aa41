//! The failures a registrar request can end in, and the RPC status each maps to.
use vstd::prelude::*;

verus! {

/// Why a registrar request failed.
#[derive(Debug, Clone, Copy, PartialEq, Eq, Structural)]
pub enum ServiceError {
    /// The AOR carries no identity token: a client error, not retried.
    InvalidInput,
    /// The credential verifier rejected the identity or could not be reached.
    Unauthorized,
    /// A write or delete in the storage backend failed: a server error.
    StoreUnavailable,
}

/// The RPC status codes that registrar failures are reported with.
#[derive(Debug, Clone, Copy, PartialEq, Eq, Structural)]
pub enum RpcCode {
    InvalidArgument,
    Unauthenticated,
    Internal,
}

/// The status code that reports `e`.
pub open spec fn code_of(e: ServiceError) -> RpcCode {
    match e {
        ServiceError::InvalidInput => RpcCode::InvalidArgument,
        ServiceError::Unauthorized => RpcCode::Unauthenticated,
        ServiceError::StoreUnavailable => RpcCode::Internal,
    }
}

impl ServiceError {
    /// The RPC status code that reports this failure.
    pub fn status_code(&self) -> (r: RpcCode)
        ensures
            r == code_of(*self),
    {
        match self {
            ServiceError::InvalidInput => RpcCode::InvalidArgument,
            ServiceError::Unauthorized => RpcCode::Unauthenticated,
            ServiceError::StoreUnavailable => RpcCode::Internal,
        }
    }

    /// The message sent to the caller with the status code. It carries no detail: an
    /// unauthorized caller learns nothing of which identities exist, and a store failure
    /// is reported as an opaque internal error.
    pub fn message(&self) -> (r: &'static str)
        ensures
            *self == ServiceError::InvalidInput ==> r@ == "address-of-record carries no identity"@,
            *self == ServiceError::Unauthorized ==> r@ == "unauthenticated"@,
            *self == ServiceError::StoreUnavailable ==> r@ == "internal error"@,
    {
        match self {
            ServiceError::InvalidInput => "address-of-record carries no identity",
            ServiceError::Unauthorized => "unauthenticated",
            ServiceError::StoreUnavailable => "internal error",
        }
    }
}

} // verus!
