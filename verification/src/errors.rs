//! Error kinds shared by the session layer and the vault.

use vstd::prelude::*;

verus! {

/// Every failure the session layer or the vault can report.
///
/// The kinds split into two families: transient faults that a caller may
/// retry later, and deterministic outcomes of the request's content versus
/// store state, which will never succeed unmodified.
#[derive(Clone, Copy, PartialEq, Eq, Structural, Debug)]
pub enum Error {
    /// No bootstrap contact yielded a usable connection.
    BootstrapFailed,
    /// A connection or request attempt exceeded its configured time bound.
    Timeout,
    /// A caller-supplied key bundle was structurally malformed.
    InvalidKeyMaterial,
    /// A transfer could not gather a response quorum before its retries ran out.
    AggregationFailed,
    /// No entry is stored under the requested address.
    NoSuchData,
    /// The requester's public key does not match the stored owner key.
    AccessDenied,
    /// An unpublished block's embedded owner differs from the claimed owner.
    InvalidOwners,
    /// The operation is not defined for the addressed entry's state.
    InvalidOperation,
}

impl Error {
    /// True for faults of the network or of timing, which a caller may retry;
    /// false for deterministic rejections, which never succeed unmodified.
    pub fn is_transient(&self) -> (r: bool)
        ensures
            r == self.spec_is_transient(),
    {
        match self {
            Error::BootstrapFailed => true,
            Error::Timeout => true,
            Error::AggregationFailed => true,
            Error::InvalidKeyMaterial => false,
            Error::NoSuchData => false,
            Error::AccessDenied => false,
            Error::InvalidOwners => false,
            Error::InvalidOperation => false,
        }
    }

    /// Which error kinds count as transient.
    pub open spec fn spec_is_transient(&self) -> bool {
        match self {
            Error::BootstrapFailed => true,
            Error::Timeout => true,
            Error::AggregationFailed => true,
            _ => false,
        }
    }
}

} // verus!
