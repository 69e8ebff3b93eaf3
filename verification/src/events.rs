use vstd::prelude::*;

use crate::model::RequestId;

verus! {

/// Notification that a new storage request was created: its identifier and
/// all stored fields.
#[derive(Clone, Copy, Debug)]
pub struct StorageRequested {
    pub request_id: RequestId,
    pub user: [u8; 32],
    pub data_hash: [u8; 32],
    pub payment: u64,
    pub timestamp: i64,
}

/// Notification that a request was confirmed, with the attestation fields
/// the relayer bound to it.
#[derive(Clone, Copy, Debug)]
pub struct StorageConfirmed {
    pub request_id: RequestId,
    pub blob_id: [u8; 32],
    pub sui_tx_hash: [u8; 32],
    pub proof_hash: [u8; 32],
}

/// Notification that a request was marked failed and its escrow refunded.
#[derive(Clone, Copy, Debug)]
pub struct RequestFailed {
    pub request_id: RequestId,
}

/// Notification that a requester withdrew the access grant of a confirmed
/// request.
#[derive(Clone, Copy, Debug)]
pub struct AccessRevoked {
    pub request_id: RequestId,
}

} // verus!
