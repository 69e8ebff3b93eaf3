use vstd::prelude::*;

use crate::lifecycle::{escrow_total, DataHaven};
use crate::model::{Request, Status};

verus! {

/// Appending a request adds its payment to the escrow total unless it is
/// already `Failed`.
proof fn lemma_escrow_total_push(s: Seq<Request>, r: Request)
    ensures
        escrow_total(s.push(r)) == escrow_total(s) + if r.status == Status::Failed {
            0int
        } else {
            r.payment as int
        },
{
    assert(s.push(r).drop_last() =~= s);
}

/// Replacing record `i` by one with the same payment shifts the escrow total
/// by exactly the difference the two statuses make.
proof fn lemma_escrow_total_update(s: Seq<Request>, i: int, r: Request)
    requires
        0 <= i < s.len(),
        r.payment == s[i].payment,
    ensures
        escrow_total(s.update(i, r)) == escrow_total(s) - (if s[i].status == Status::Failed {
            0int
        } else {
            s[i].payment as int
        }) + (if r.status == Status::Failed {
            0int
        } else {
            r.payment as int
        }),
    decreases s.len(),
{
    if i == s.len() - 1 {
        assert(s.update(i, r).drop_last() =~= s.drop_last());
    } else {
        assert(s.update(i, r).drop_last() =~= s.drop_last().update(i, r));
        lemma_escrow_total_update(s.drop_last(), i, r);
    }
}

/// In a well-formed store every two distinct records carry distinct
/// identifiers: an identifier a successful `initiate_storage` issues was
/// never previously issued and is never reissued.
pub proof fn lemma_issued_ids_distinct(d: DataHaven, i: int, j: int)
    requires
        d.wf(),
        0 <= i < d.requests@.len(),
        0 <= j < d.requests@.len(),
        i != j,
    ensures
        d.requests@[i].id != d.requests@[j].id,
{
}

/// A request is confirmed exactly once: after a successful confirmation of
/// record `i`, no further confirmation of `i` is accepted, whatever caller,
/// attestation fields or signature are offered. By the contract of
/// `verify_receipt`, a relayer's second call on the record is then rejected
/// with `InvalidStatus`, and no call on it returns `Ok`.
pub proof fn lemma_confirm_exactly_once(
    pre: DataHaven,
    post: DataHaven,
    i: int,
    blob_id: [u8; 32],
    sui_tx_hash: [u8; 32],
    proof_hash: [u8; 32],
    caller2: [u8; 32],
    blob_id2: [u8; 32],
    sui_tx_hash2: [u8; 32],
    proof_hash2: [u8; 32],
    signature2: [u8; 64],
)
    requires
        0 <= i < pre.requests@.len(),
        post.confirmed_from(pre, i, blob_id, sui_tx_hash, proof_hash),
    ensures
        post.requests@[i].status == Status::Confirmed,
        !post.confirm_accepted(caller2, i, blob_id2, sui_tx_hash2, proof_hash2, signature2),
{
}

/// A request's escrow is refunded exactly once: after a successful
/// `mark_failed` of record `i`, the record is terminal, so no further
/// `mark_failed` of `i` is accepted (no second refund) and no confirmation
/// of `i` is accepted, whatever caller, fields or signature are offered.
pub proof fn lemma_fail_exactly_once(
    pre: DataHaven,
    post: DataHaven,
    i: int,
    caller2: [u8; 32],
    user2: [u8; 32],
    blob_id2: [u8; 32],
    sui_tx_hash2: [u8; 32],
    proof_hash2: [u8; 32],
    signature2: [u8; 64],
)
    requires
        0 <= i < pre.requests@.len(),
        post.failed_from(pre, i),
    ensures
        post.requests@[i].status == Status::Failed,
        post.vault.balance == pre.vault.balance - pre.requests@[i].payment,
        !post.mark_accepted(caller2, user2, i),
        !post.confirm_accepted(caller2, i, blob_id2, sui_tx_hash2, proof_hash2, signature2),
{
}

/// Lifecycle transitions are one-directional: a record that has left
/// `Pending` is never confirmed or marked failed again, a record that is not
/// `Confirmed` is never revoked, and a revoked record accepts no operation
/// at all.
pub proof fn lemma_transitions_one_directional(
    d: DataHaven,
    i: int,
    caller: [u8; 32],
    user: [u8; 32],
    blob_id: [u8; 32],
    sui_tx_hash: [u8; 32],
    proof_hash: [u8; 32],
    signature: [u8; 64],
)
    requires
        0 <= i < d.requests@.len(),
    ensures
        d.requests@[i].status != Status::Pending ==> !d.confirm_accepted(
            caller,
            i,
            blob_id,
            sui_tx_hash,
            proof_hash,
            signature,
        ) && !d.mark_accepted(caller, user, i),
        d.requests@[i].status != Status::Confirmed ==> !d.revoke_accepted(caller, i),
        d.requests@[i].status == Status::Revoked ==> !d.confirm_accepted(
            caller,
            i,
            blob_id,
            sui_tx_hash,
            proof_hash,
            signature,
        ) && !d.mark_accepted(caller, user, i) && !d.revoke_accepted(caller, i),
{
}

/// A successful `initiate_storage` keeps the vault backed: when the vault
/// held exactly the unrefunded payments before, it does so again after the
/// new payment is escrowed.
pub proof fn lemma_escrow_intact_initiate(
    pre: DataHaven,
    post: DataHaven,
    user: [u8; 32],
    data_hash: [u8; 32],
    payment_amount: u64,
    now: i64,
)
    requires
        pre.escrow_intact(),
        post.initiated_from(pre, user, data_hash, payment_amount, now),
    ensures
        post.escrow_intact(),
{
    lemma_escrow_total_push(pre.requests@, post.requests@.last());
}

/// A successful confirmation keeps the vault backed: no funds move and the
/// record's payment stays escrowed.
pub proof fn lemma_escrow_intact_confirm(
    pre: DataHaven,
    post: DataHaven,
    i: int,
    blob_id: [u8; 32],
    sui_tx_hash: [u8; 32],
    proof_hash: [u8; 32],
)
    requires
        pre.escrow_intact(),
        0 <= i < pre.requests@.len(),
        pre.requests@[i].status != Status::Failed,
        post.confirmed_from(pre, i, blob_id, sui_tx_hash, proof_hash),
    ensures
        post.escrow_intact(),
{
    lemma_escrow_total_update(pre.requests@, i, post.requests@[i]);
}

/// A successful `mark_failed` keeps the vault backed: the refund debits the
/// vault by exactly the payment that stops being escrowed.
pub proof fn lemma_escrow_intact_fail(pre: DataHaven, post: DataHaven, i: int)
    requires
        pre.escrow_intact(),
        0 <= i < pre.requests@.len(),
        pre.requests@[i].status != Status::Failed,
        post.failed_from(pre, i),
    ensures
        post.escrow_intact(),
{
    lemma_escrow_total_update(pre.requests@, i, post.requests@[i]);
}

/// A successful `revoke_access` keeps the vault backed: no funds move and
/// the record's payment stays escrowed.
pub proof fn lemma_escrow_intact_revoke(pre: DataHaven, post: DataHaven, i: int)
    requires
        pre.escrow_intact(),
        0 <= i < pre.requests@.len(),
        pre.requests@[i].status != Status::Failed,
        post.revoked_from(pre, i),
    ensures
        post.escrow_intact(),
{
    lemma_escrow_total_update(pre.requests@, i, post.requests@[i]);
}

/// Revoking keeps every balance: after a successful `revoke_access` of
/// record `i`, the vault balance, the configuration and every other record
/// are exactly as before, and the record itself changed only its status.
pub proof fn lemma_revoke_moves_no_funds(pre: DataHaven, post: DataHaven, i: int)
    requires
        0 <= i < pre.requests@.len(),
        post.revoked_from(pre, i),
    ensures
        post.vault == pre.vault,
        post.state == pre.state,
        post.requests@[i].payment == pre.requests@[i].payment,
        forall|j: int|
            0 <= j < pre.requests@.len() && j != i ==> post.requests@[j] == pre.requests@[j],
{
}

} // verus!
