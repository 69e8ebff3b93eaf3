use vstd::prelude::*;

use crate::bytes::{push_bytes32, push_u64_le, u64_le_bytes};
use crate::model::RequestId;

verus! {

/// The Keccak-256 digest of a byte sequence, a function of those bytes alone.
pub uninterp spec fn keccak_of(data: Seq<u8>) -> Seq<u8>;

/// Whether a detached Ed25519 signature over a message verifies under a
/// public key, a function of the three byte strings alone.
pub uninterp spec fn ed25519_ok(public_key: Seq<u8>, message: Seq<u8>, signature: Seq<u8>) -> bool;

/// Relies on anchor_lang::solana_program::keccak::hash: the 32-byte
/// Keccak-256 digest of the input bytes.
#[verifier::external_body]
fn keccak256(data: &Vec<u8>) -> (r: [u8; 32])
    ensures
        r@ == keccak_of(data@),
{
    anchor_lang::solana_program::keccak::hash(data.as_slice()).0
}

/// Relies on ed25519_dalek::VerifyingKey::{from_bytes, verify} and
/// ed25519_dalek::Signature::from_bytes: returns whether `signature` is a
/// valid Ed25519 signature over `message` under `public_key` (false also when
/// the key bytes are not a valid Ed25519 public key).
#[verifier::external_body]
fn ed25519_verify(public_key: &[u8; 32], message: &[u8; 32], signature: &[u8; 64]) -> (r: bool)
    ensures
        r == ed25519_ok(public_key@, message@, signature@),
{
    match ed25519_dalek::VerifyingKey::from_bytes(public_key) {
        Ok(key) => {
            let sig = ed25519_dalek::Signature::from_bytes(signature);
            ed25519_dalek::Verifier::verify(&key, message.as_slice(), &sig).is_ok()
        },
        Err(_) => false,
    }
}

/// The fixed-width byte encoding of a request identifier: the 32 requester
/// bytes followed by the sequence number in little-endian, 40 bytes in all.
pub open spec fn id_bytes(id: RequestId) -> Seq<u8> {
    id.requester@ + u64_le_bytes(id.seq)
}

/// The bytes the canonical attestation message is computed over: the request
/// identifier as fixed-width bytes, then the storage locator, the external
/// transaction reference, and the proof commitment, in that exact order with
/// no delimiters.
pub open spec fn attestation_preimage(
    id: RequestId,
    blob_id: Seq<u8>,
    sui_tx_hash: Seq<u8>,
    proof_hash: Seq<u8>,
) -> Seq<u8> {
    id_bytes(id) + blob_id + sui_tx_hash + proof_hash
}

/// The canonical attestation message: the Keccak-256 digest of the
/// attestation preimage.
pub open spec fn spec_canonical_message(
    id: RequestId,
    blob_id: Seq<u8>,
    sui_tx_hash: Seq<u8>,
    proof_hash: Seq<u8>,
) -> Seq<u8> {
    keccak_of(attestation_preimage(id, blob_id, sui_tx_hash, proof_hash))
}

/// Holds exactly when `signature` is a valid signature by `relayer` over the
/// canonical attestation message for this identifier and attestation fields.
pub open spec fn attestation_valid(
    relayer: [u8; 32],
    id: RequestId,
    blob_id: Seq<u8>,
    sui_tx_hash: Seq<u8>,
    proof_hash: Seq<u8>,
    signature: Seq<u8>,
) -> bool {
    ed25519_ok(relayer@, spec_canonical_message(id, blob_id, sui_tx_hash, proof_hash), signature)
}

/// Computes the canonical attestation message for a request identifier and
/// the three attestation fields.
pub fn canonical_message(
    id: &RequestId,
    blob_id: &[u8; 32],
    sui_tx_hash: &[u8; 32],
    proof_hash: &[u8; 32],
) -> (r: [u8; 32])
    ensures
        r@ == spec_canonical_message(*id, blob_id@, sui_tx_hash@, proof_hash@),
{
    let mut buf: Vec<u8> = Vec::new();
    push_bytes32(&mut buf, &id.requester);
    push_u64_le(&mut buf, id.seq);
    push_bytes32(&mut buf, blob_id);
    push_bytes32(&mut buf, sui_tx_hash);
    push_bytes32(&mut buf, proof_hash);
    proof {
        assert(buf@ =~= attestation_preimage(*id, blob_id@, sui_tx_hash@, proof_hash@));
    }
    keccak256(&buf)
}

/// The little-endian encoding of a `u64` is injective: equal byte sequences
/// come only from equal numbers.
proof fn lemma_u64_le_bytes_injective(x: u64, y: u64)
    requires
        u64_le_bytes(x) == u64_le_bytes(y),
    ensures
        x == y,
{
    assert(u64_le_bytes(x)[0] == u64_le_bytes(y)[0]);
    assert(u64_le_bytes(x)[1] == u64_le_bytes(y)[1]);
    assert(u64_le_bytes(x)[2] == u64_le_bytes(y)[2]);
    assert(u64_le_bytes(x)[3] == u64_le_bytes(y)[3]);
    assert(u64_le_bytes(x)[4] == u64_le_bytes(y)[4]);
    assert(u64_le_bytes(x)[5] == u64_le_bytes(y)[5]);
    assert(u64_le_bytes(x)[6] == u64_le_bytes(y)[6]);
    assert(u64_le_bytes(x)[7] == u64_le_bytes(y)[7]);
    assert(((x & 0xff) as u8 == (y & 0xff) as u8 && ((x >> 8) & 0xff) as u8 == ((y >> 8)
        & 0xff) as u8 && ((x >> 16) & 0xff) as u8 == ((y >> 16) & 0xff) as u8 && ((x >> 24)
        & 0xff) as u8 == ((y >> 24) & 0xff) as u8 && ((x >> 32) & 0xff) as u8 == ((y >> 32)
        & 0xff) as u8 && ((x >> 40) & 0xff) as u8 == ((y >> 40) & 0xff) as u8 && ((x >> 48)
        & 0xff) as u8 == ((y >> 48) & 0xff) as u8 && ((x >> 56) & 0xff) as u8 == ((y >> 56)
        & 0xff) as u8) ==> x == y) by (bit_vector);
}

/// The canonical attestation preimage is unambiguous: it binds the request
/// identifier and the three attestation fields with fixed widths, a fixed
/// order and no delimiters, so two preimages are equal only when every bound
/// component is equal.
pub proof fn lemma_attestation_preimage_unambiguous(
    id1: RequestId,
    blob1: Seq<u8>,
    tx1: Seq<u8>,
    proof1: Seq<u8>,
    id2: RequestId,
    blob2: Seq<u8>,
    tx2: Seq<u8>,
    proof2: Seq<u8>,
)
    requires
        blob1.len() == 32,
        tx1.len() == 32,
        proof1.len() == 32,
        blob2.len() == 32,
        tx2.len() == 32,
        proof2.len() == 32,
        attestation_preimage(id1, blob1, tx1, proof1) == attestation_preimage(
            id2,
            blob2,
            tx2,
            proof2,
        ),
    ensures
        id1.requester@ == id2.requester@,
        id1.seq == id2.seq,
        blob1 == blob2,
        tx1 == tx2,
        proof1 == proof2,
{
    let s1 = attestation_preimage(id1, blob1, tx1, proof1);
    let s2 = attestation_preimage(id2, blob2, tx2, proof2);
    assert(id_bytes(id1).len() == 40 && id_bytes(id2).len() == 40);
    assert forall|k: int| 0 <= k < 32 implies id1.requester@[k] == id2.requester@[k] by {
        assert(s1[k] == id1.requester@[k]);
        assert(s2[k] == id2.requester@[k]);
        assert(s1[k] == s2[k]);
    }
    assert(id1.requester@ =~= id2.requester@);
    assert forall|k: int|
        0 <= k < 8 implies u64_le_bytes(id1.seq)[k] == u64_le_bytes(id2.seq)[k] by {
        assert(s1[32 + k] == u64_le_bytes(id1.seq)[k]);
        assert(s2[32 + k] == u64_le_bytes(id2.seq)[k]);
        assert(s1[32 + k] == s2[32 + k]);
    }
    assert(u64_le_bytes(id1.seq) =~= u64_le_bytes(id2.seq));
    lemma_u64_le_bytes_injective(id1.seq, id2.seq);
    assert forall|k: int| 0 <= k < 32 implies blob1[k] == blob2[k] by {
        assert(s1[40 + k] == blob1[k]);
        assert(s2[40 + k] == blob2[k]);
    }
    assert(blob1 =~= blob2);
    assert forall|k: int| 0 <= k < 32 implies tx1[k] == tx2[k] by {
        assert(s1[72 + k] == tx1[k]);
        assert(s2[72 + k] == tx2[k]);
    }
    assert(tx1 =~= tx2);
    assert forall|k: int| 0 <= k < 32 implies proof1[k] == proof2[k] by {
        assert(s1[104 + k] == proof1[k]);
        assert(s2[104 + k] == proof2[k]);
    }
    assert(proof1 =~= proof2);
}

/// Decides whether `signature` is a valid attestation by `relayer` binding
/// the three attestation fields to the request identified by `id`: it
/// recomputes the canonical message locally and checks the signature against
/// it, so a signature over any other message is rejected.
pub fn verify_attestation(
    relayer: &[u8; 32],
    id: &RequestId,
    blob_id: &[u8; 32],
    sui_tx_hash: &[u8; 32],
    proof_hash: &[u8; 32],
    signature: &[u8; 64],
) -> (r: bool)
    ensures
        r == attestation_valid(*relayer, *id, blob_id@, sui_tx_hash@, proof_hash@, signature@),
{
    let message = canonical_message(id, blob_id, sui_tx_hash, proof_hash);
    ed25519_verify(relayer, &message, signature)
}

} // verus!
