//! The errors that the checks report.
use vstd::prelude::*;

verus! {

/// Why a delegated operation is refused.
#[derive(Clone, Copy, Debug, PartialEq, Eq, Structural)]
pub enum ContractError {
    /// A parameter lies outside its domain.
    InvalidParams,
    /// The ledger has moved past the deadline that the signature commits to.
    SignatureDeadlineExpired,
    /// No stream is stored under the given id.
    StreamNotFound,
    /// The nonce that the signature commits to is not the recipient's current one.
    InvalidSignature,
}

} // verus!
