use vstd::prelude::*;

verus! {

/// Minimum escrow payment, in base units, accepted by `initiate_storage`.
pub const MIN_PAYMENT: u64 = 1_000_000;

/// Global configuration record: administrator and trusted relayer identities,
/// the pause flag, and the monotonic request counter.
pub struct State {
    pub admin: [u8; 32],
    pub relayer: [u8; 32],
    pub paused: bool,
    pub count: u64,
}

/// The escrow vault: a balance-holding account with no business logic beyond
/// receiving and releasing value. Its balance is the sum of all currently
/// escrowed payments.
pub struct Vault {
    pub balance: u64,
}

/// Lifecycle states of a request. Transitions are one-directional:
/// `Pending` moves to `Confirmed` or `Failed`, `Confirmed` moves to
/// `Revoked`; `Failed` and `Revoked` are terminal.
#[derive(Clone, Copy, PartialEq, Eq, Structural, Debug)]
pub enum Status {
    Pending,
    Confirmed,
    Failed,
    Revoked,
}

/// Deterministic request identifier, derived from the requester identity and
/// the pre-increment request counter. Two identifiers are equal exactly when
/// both components are equal, so identifiers never collide without external
/// coordination.
#[derive(Clone, Copy, Debug)]
pub struct RequestId {
    pub requester: [u8; 32],
    pub seq: u64,
}

/// One storage request: requester identity, data commitment, lifecycle
/// status, escrowed payment, creation time, and the attestation fields,
/// which stay zero until the request is confirmed.
#[derive(Clone, Copy, Debug)]
pub struct Request {
    pub id: RequestId,
    pub user: [u8; 32],
    pub data_hash: [u8; 32],
    pub blob_id: [u8; 32],
    pub sui_tx_hash: [u8; 32],
    pub proof_hash: [u8; 32],
    pub status: Status,
    pub payment: u64,
    pub timestamp: i64,
}

/// Holds exactly when all 32 bytes of `a` are zero.
pub open spec fn is_zero32(a: [u8; 32]) -> bool {
    forall|i: int| 0 <= i < 32 ==> a@[i] == 0u8
}

/// The identifier a request gets when `requester` initiates it while the
/// request counter reads `seq`.
pub open spec fn spec_derive_id(requester: [u8; 32], seq: u64) -> RequestId {
    RequestId { requester, seq }
}

/// Derives the unique identifier of the request that `requester` creates
/// while the request counter reads `seq`. Pure: the same inputs always give
/// the same identifier.
pub fn derive_id(requester: &[u8; 32], seq: u64) -> (r: RequestId)
    ensures
        r == spec_derive_id(*requester, seq),
{
    RequestId { requester: *requester, seq }
}

/// Identifier derivation is injective: equal identifiers come only from the
/// same requester and the same sequence number, so distinct (requester,
/// sequence) pairs never collide.
pub proof fn lemma_derive_id_injective(r1: [u8; 32], s1: u64, r2: [u8; 32], s2: u64)
    ensures
        spec_derive_id(r1, s1) == spec_derive_id(r2, s2) ==> r1 == r2 && s1 == s2,
{
}

} // verus!
