//! Utilities for producing and verifying AWS Nitro Enclave attestation
//! documents, with a mock driver and a throwaway certificate-chain generator
//! that let the same code run outside real enclave hardware.

use vstd::prelude::*;

pub mod api;
pub mod cert;
pub mod cose;
pub mod dev;
pub mod keygen;
pub mod nsm;
pub mod pcr;
pub mod sign;
pub mod time;
pub mod verify;

verus! {

/// Short message attached to an error when the failure originates from this
/// library's own checks rather than from an underlying library.
#[derive(Clone, Copy, Debug)]
pub struct ErrorContext(pub &'static str);

impl ErrorContext {
    /// The context message.
    pub fn message(&self) -> (r: &'static str)
        ensures
            r@ == self.0@,
    {
        self.0
    }
}

/// An error of this library: a high-level kind, with a short context message
/// saying which check failed.
#[derive(Clone, Copy, Debug)]
pub struct Error<T> {
    kind: T,
    context: ErrorContext,
}

impl<T> Error<T> {
    /// The kind of this error.
    pub closed spec fn spec_kind(&self) -> T {
        self.kind
    }

    /// The context message of this error.
    pub closed spec fn spec_context(&self) -> Seq<char> {
        self.context.0@
    }

    pub(crate) fn new(kind: T, context: ErrorContext) -> (r: Self)
        ensures
            r.spec_kind() == kind,
            r.spec_context() == context.0@,
    {
        Error { kind, context }
    }

    /// The kind of this error.
    pub fn kind(&self) -> (r: &T)
        ensures
            *r == self.spec_kind(),
    {
        &self.kind
    }

    /// The context message of this error.
    pub fn context(&self) -> (r: &'static str)
        ensures
            r@ == self.spec_context(),
    {
        self.context.0
    }
}

} // verus!
