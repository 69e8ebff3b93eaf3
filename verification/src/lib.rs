//! Custody-and-attestation protocol core: a requester escrows a payment to ask
//! that a piece of data be stored off-chain; the trusted relayer later submits
//! a signed attestation that confirms the storage, or marks the request failed
//! and refunds the escrow; a confirmed requester may revoke access.

pub mod attestation;
pub mod bytes;
pub mod errors;
pub mod events;
pub mod laws;
pub mod lifecycle;
pub mod model;
