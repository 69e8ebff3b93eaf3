use vstd::prelude::*;

verus! {

/// The distinct rejection kinds of the protocol. Every refused precondition
/// maps to exactly one of these, so a client can tell a transient condition
/// (`Paused`) from one that will never become valid (`Unauthorized`,
/// `InvalidSignature`).
#[derive(Clone, Copy, PartialEq, Eq, Structural, Debug)]
pub enum ErrorCode {
    /// The operation was rejected because the configuration is paused.
    Paused,
    /// The offered payment is below the minimum threshold.
    InsufficientPayment,
    /// The request record is not in the state the operation requires.
    InvalidStatus,
    /// The caller does not hold the required role (admin, relayer, requester).
    Unauthorized,
    /// The attestation was not a valid relayer signature over the canonical
    /// message.
    InvalidSignature,
}

} // verus!
