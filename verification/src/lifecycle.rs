use vstd::prelude::*;

use crate::attestation::attestation_valid;
use crate::attestation::verify_attestation;
use crate::bytes::bytes32_eq;
use crate::errors::ErrorCode;
use crate::events::{AccessRevoked, RequestFailed, StorageConfirmed, StorageRequested};
use crate::model::{is_zero32, spec_derive_id, Request, State, Status, Vault, MIN_PAYMENT};
use crate::model::derive_id;
use crate::model::RequestId;

verus! {

/// The whole protocol state: the global configuration record, the shared
/// escrow vault, and the request record store. One record per request; a
/// record is never deleted, it is retained as an audit trail.
pub struct DataHaven {
    pub state: State,
    pub vault: Vault,
    pub requests: Vec<Request>,
}

impl DataHaven {
    /// Well-formedness: the request counter equals the number of records
    /// issued so far, and record `i` carries the identifier derived from its
    /// requester and sequence number `i`. Distinct records therefore always
    /// carry distinct identifiers.
    pub open spec fn wf(self) -> bool {
        &&& self.state.count == self.requests@.len()
        &&& forall|i: int|
            0 <= i < self.requests@.len() ==> (#[trigger] self.requests@[i]).id
                == spec_derive_id(self.requests@[i].user, i as u64)
    }

    /// The condition under which `initiate_storage` succeeds: not paused and
    /// the payment reaches the minimum threshold.
    pub open spec fn initiate_accepted(self, payment_amount: u64) -> bool {
        !self.state.paused && payment_amount >= MIN_PAYMENT
    }

    /// The condition under which `verify_receipt` succeeds on record `i`:
    /// the caller is the trusted relayer, the record is `Pending`, and the
    /// signature is a valid relayer attestation binding the three fields to
    /// the record's identifier.
    pub open spec fn confirm_accepted(
        self,
        caller: [u8; 32],
        i: int,
        blob_id: [u8; 32],
        sui_tx_hash: [u8; 32],
        proof_hash: [u8; 32],
        signature: [u8; 64],
    ) -> bool {
        &&& caller@ == self.state.relayer@
        &&& self.requests@[i].status == Status::Pending
        &&& attestation_valid(
            self.state.relayer,
            self.requests@[i].id,
            blob_id@,
            sui_tx_hash@,
            proof_hash@,
            signature@,
        )
    }

    /// The condition under which `mark_failed` succeeds on record `i`: the
    /// record is `Pending`, the caller is the trusted relayer, and the
    /// balance offered for the refund belongs to the record's requester.
    pub open spec fn mark_accepted(self, caller: [u8; 32], user: [u8; 32], i: int) -> bool {
        &&& self.requests@[i].status == Status::Pending
        &&& caller@ == self.state.relayer@
        &&& user@ == self.requests@[i].user@
    }

    /// The condition under which `revoke_access` succeeds on record `i`: the
    /// caller is the record's requester and the record is `Confirmed`.
    pub open spec fn revoke_accepted(self, caller: [u8; 32], i: int) -> bool {
        &&& caller@ == self.requests@[i].user@
        &&& self.requests@[i].status == Status::Confirmed
    }

    /// Relates the state after a successful `initiate_storage` by `user` to
    /// the state before it: one new `Pending` record is appended, carrying
    /// the identifier derived from `user` and the pre-increment counter, the
    /// data commitment, the payment and the creation time, with all
    /// attestation fields zero; the vault is credited by exactly the payment
    /// and the counter is incremented.
    pub open spec fn initiated_from(
        self,
        pre: DataHaven,
        user: [u8; 32],
        data_hash: [u8; 32],
        payment_amount: u64,
        now: i64,
    ) -> bool {
        let req = self.requests@.last();
        &&& self.requests@ == pre.requests@.push(req)
        &&& req.id == spec_derive_id(user, pre.state.count)
        &&& req.user == user
        &&& req.data_hash == data_hash
        &&& is_zero32(req.blob_id)
        &&& is_zero32(req.sui_tx_hash)
        &&& is_zero32(req.proof_hash)
        &&& req.status == Status::Pending
        &&& req.payment == payment_amount
        &&& req.timestamp == now
        &&& self.vault.balance == pre.vault.balance + payment_amount
        &&& self.state.count == pre.state.count + 1
        &&& self.state.admin == pre.state.admin
        &&& self.state.relayer == pre.state.relayer
        &&& self.state.paused == pre.state.paused
    }

    /// Relates the state after a successful confirmation of record `i` to
    /// the state before it: the record stores the three attestation fields
    /// and becomes `Confirmed`; everything else, the vault included, is
    /// unchanged.
    pub open spec fn confirmed_from(
        self,
        pre: DataHaven,
        i: int,
        blob_id: [u8; 32],
        sui_tx_hash: [u8; 32],
        proof_hash: [u8; 32],
    ) -> bool {
        &&& self.requests@ == pre.requests@.update(
            i,
            Request {
                blob_id,
                sui_tx_hash,
                proof_hash,
                status: Status::Confirmed,
                ..pre.requests@[i]
            },
        )
        &&& self.state == pre.state
        &&& self.vault == pre.vault
    }

    /// Relates the state after a successful `mark_failed` of record `i` to
    /// the state before it: the record becomes `Failed` and the vault is
    /// debited by exactly the record's payment; everything else is
    /// unchanged.
    pub open spec fn failed_from(self, pre: DataHaven, i: int) -> bool {
        &&& self.requests@ == pre.requests@.update(
            i,
            Request { status: Status::Failed, ..pre.requests@[i] },
        )
        &&& self.vault.balance == pre.vault.balance - pre.requests@[i].payment
        &&& self.state == pre.state
    }

    /// Relates the state after a successful `revoke_access` of record `i` to
    /// the state before it: the record becomes `Revoked`; everything else,
    /// the vault included, is unchanged.
    pub open spec fn revoked_from(self, pre: DataHaven, i: int) -> bool {
        &&& self.requests@ == pre.requests@.update(
            i,
            Request { status: Status::Revoked, ..pre.requests@[i] },
        )
        &&& self.state == pre.state
        &&& self.vault == pre.vault
    }

    /// The escrow-backing invariant: the vault holds exactly the payments of
    /// the requests whose escrow was not refunded. It is established at
    /// deployment and preserved by every lifecycle operation (see the
    /// preservation laws); the administrative `withdraw` is the release path
    /// and sits outside it.
    pub open spec fn escrow_intact(self) -> bool {
        self.vault.balance == escrow_total(self.requests@)
    }
}

/// The sum of the payments of all requests whose escrow is still held: every
/// request except the `Failed` ones, whose payment was refunded.
pub open spec fn escrow_total(s: Seq<Request>) -> int
    decreases s.len(),
{
    if s.len() == 0 {
        0
    } else {
        escrow_total(s.drop_last()) + if s.last().status == Status::Failed {
            0int
        } else {
            s.last().payment as int
        }
    }
}

/// Atomic, all-or-nothing value transfer between two balances with checked
/// arithmetic: it succeeds exactly when the debit does not underflow and the
/// credit does not overflow, and on failure neither balance changes.
pub fn transfer(from: &mut u64, to: &mut u64, amount: u64) -> (r: bool)
    ensures
        r == (*old(from) >= amount && *old(to) + amount <= u64::MAX),
        r ==> *final(from) == *old(from) - amount && *final(to) == *old(to) + amount,
        !r ==> *final(from) == *old(from) && *final(to) == *old(to),
{
    if *from >= amount && amount <= u64::MAX - *to {
        *from = *from - amount;
        *to = *to + amount;
        true
    } else {
        false
    }
}

/// Creates the protocol state at deployment: `admin` becomes both the
/// administrator and the trusted relayer, the pause flag is clear, the
/// request counter is zero, the vault is empty and no request exists.
pub fn initialize(admin: [u8; 32]) -> (r: DataHaven)
    ensures
        r.state.admin == admin,
        r.state.relayer == admin,
        !r.state.paused,
        r.state.count == 0,
        r.vault.balance == 0,
        r.requests@.len() == 0,
        r.wf(),
        r.escrow_intact(),
{
    DataHaven {
        state: State { admin, relayer: admin, paused: false, count: 0 },
        vault: Vault { balance: 0 },
        requests: Vec::new(),
    }
}

impl DataHaven {
    /// Looks a request record up by its identifier.
    pub fn find_request(&self, id: &RequestId) -> (r: Option<usize>)
        ensures
            match r {
                Some(i) => i < self.requests@.len() && self.requests@[i as int].id == *id,
                None => forall|i: int|
                    0 <= i < self.requests@.len() ==> (#[trigger] self.requests@[i]).id != *id,
            },
    {
        let n = self.requests.len();
        let mut i: usize = 0;
        while i < n
            invariant
                n == self.requests@.len(),
                i <= n,
                forall|j: int| 0 <= j < i ==> (#[trigger] self.requests@[j]).id != *id,
            decreases n - i,
        {
            let rid = self.requests[i].id;
            if rid.seq == id.seq && bytes32_eq(&rid.requester, &id.requester) {
                proof {
                    assert(rid.requester =~= id.requester);
                }
                return Some(i);
            }
            i = i + 1;
        }
        None
    }

    /// Creates a new storage request. Rejected with `Paused` while the
    /// configuration is paused and with `InsufficientPayment` when the offered
    /// payment is below `MIN_PAYMENT`, in that order, with no effect. On
    /// success it atomically moves `payment_amount` from the requester's
    /// balance into the vault, appends a `Pending` record carrying the data
    /// commitment, the payment and the creation time under a never previously
    /// issued identifier, increments the request counter, and returns the
    /// `StorageRequested` notification.
    pub fn initiate_storage(
        &mut self,
        user: &[u8; 32],
        user_balance: &mut u64,
        data_hash: [u8; 32],
        payment_amount: u64,
        now: i64,
    ) -> (r: Result<StorageRequested, ErrorCode>)
        requires
            old(self).wf(),
            old(self).initiate_accepted(payment_amount) ==> *old(user_balance) >= payment_amount
                && old(self).vault.balance + payment_amount <= u64::MAX,
        ensures
            final(self).wf(),
            r == Err::<StorageRequested, ErrorCode>(ErrorCode::Paused) <==> old(self).state.paused,
            r == Err::<StorageRequested, ErrorCode>(ErrorCode::InsufficientPayment) <==> (!old(self).state.paused && payment_amount < MIN_PAYMENT),
            r is Ok <==> old(self).initiate_accepted(payment_amount),
            r is Err ==> *final(self) == *old(self) && *final(user_balance) == *old(user_balance),
            r is Ok ==> ({
                let req = final(self).requests@.last();
                &&& final(self).initiated_from(*old(self), *user, data_hash, payment_amount, now)
                &&& *final(user_balance) == *old(user_balance) - payment_amount
                &&& (forall|i: int|
                    0 <= i < old(self).requests@.len() ==> (#[trigger] old(self).requests@[i]).id != req.id)
                &&& r == Ok::<StorageRequested, ErrorCode>(
                    StorageRequested {
                        request_id: req.id,
                        user: *user,
                        data_hash,
                        payment: payment_amount,
                        timestamp: now,
                    },
                )
            }),
    {
        if self.state.paused {
            return Err(ErrorCode::Paused);
        }
        if payment_amount < MIN_PAYMENT {
            return Err(ErrorCode::InsufficientPayment);
        }
        let moved = transfer(user_balance, &mut self.vault.balance, payment_amount);
        assert(moved);
        let id = derive_id(user, self.state.count);
        let req = Request {
            id,
            user: *user,
            data_hash,
            blob_id: [0u8; 32],
            sui_tx_hash: [0u8; 32],
            proof_hash: [0u8; 32],
            status: Status::Pending,
            payment: payment_amount,
            timestamp: now,
        };
        self.requests.push(req);
        let n = self.requests.len();
        assert(self.state.count + 1 == n);
        self.state.count = self.state.count + 1;
        Ok(
            StorageRequested {
                request_id: id,
                user: *user,
                data_hash,
                payment: payment_amount,
                timestamp: now,
            },
        )
    }

    /// Confirms a pending request against a relayer attestation. Rejected
    /// with `Unauthorized` unless the caller is the trusted relayer, then
    /// with `InvalidStatus` unless the record is `Pending`, then with
    /// `InvalidSignature` unless `signature` is a valid relayer signature
    /// over the canonical message binding the three attestation fields to
    /// this record's identifier; a rejection has no effect. On success it
    /// stores the three attestation fields, sets the status to `Confirmed`,
    /// and returns the `StorageConfirmed` notification. No funds move.
    pub fn verify_receipt(
        &mut self,
        caller: &[u8; 32],
        req_index: usize,
        blob_id: [u8; 32],
        sui_tx_hash: [u8; 32],
        proof_hash: [u8; 32],
        signature: &[u8; 64],
    ) -> (r: Result<StorageConfirmed, ErrorCode>)
        requires
            old(self).wf(),
            req_index < old(self).requests@.len(),
        ensures
            final(self).wf(),
            ({
                let req0 = old(self).requests@[req_index as int];
                let authorized = caller@ == old(self).state.relayer@;
                let pending = req0.status == Status::Pending;
                let accepted = old(self).confirm_accepted(
                    *caller,
                    req_index as int,
                    blob_id,
                    sui_tx_hash,
                    proof_hash,
                    *signature,
                );
                &&& (r == Err::<StorageConfirmed, ErrorCode>(ErrorCode::Unauthorized)
                    <==> !authorized)
                &&& (r == Err::<StorageConfirmed, ErrorCode>(ErrorCode::InvalidStatus)
                    <==> authorized && !pending)
                &&& (r == Err::<StorageConfirmed, ErrorCode>(ErrorCode::InvalidSignature)
                    <==> authorized && pending && !accepted)
                &&& (r is Ok <==> accepted)
                &&& (r is Err ==> *final(self) == *old(self))
                &&& (r is Ok ==> final(self).confirmed_from(
                    *old(self),
                    req_index as int,
                    blob_id,
                    sui_tx_hash,
                    proof_hash,
                ) && r == Ok::<StorageConfirmed, ErrorCode>(
                    StorageConfirmed { request_id: req0.id, blob_id, sui_tx_hash, proof_hash },
                ))
            }),
    {
        if !bytes32_eq(caller, &self.state.relayer) {
            return Err(ErrorCode::Unauthorized);
        }
        let status = self.requests[req_index].status;
        if status != Status::Pending {
            return Err(ErrorCode::InvalidStatus);
        }
        let id = self.requests[req_index].id;
        if !verify_attestation(
            &self.state.relayer,
            &id,
            &blob_id,
            &sui_tx_hash,
            &proof_hash,
            signature,
        ) {
            return Err(ErrorCode::InvalidSignature);
        }
        let mut req = self.requests[req_index];
        req.blob_id = blob_id;
        req.sui_tx_hash = sui_tx_hash;
        req.proof_hash = proof_hash;
        req.status = Status::Confirmed;
        self.requests[req_index] = req;
        Ok(StorageConfirmed { request_id: req.id, blob_id, sui_tx_hash, proof_hash })
    }

    /// Marks a pending request failed and refunds its escrow. Rejected with
    /// `InvalidStatus` unless the record is `Pending`, then with
    /// `Unauthorized` unless the caller is the trusted relayer and the
    /// balance offered for the refund belongs to the record's requester; a
    /// rejection has no effect. On success it sets the status to `Failed`,
    /// atomically moves the record's payment from the vault back to the
    /// requester's balance, and returns the `RequestFailed` notification.
    pub fn mark_failed(
        &mut self,
        caller: &[u8; 32],
        user: &[u8; 32],
        user_balance: &mut u64,
        req_index: usize,
    ) -> (r: Result<RequestFailed, ErrorCode>)
        requires
            old(self).wf(),
            req_index < old(self).requests@.len(),
            ({
                let req0 = old(self).requests@[req_index as int];
                req0.status == Status::Pending && caller@ == old(self).state.relayer@ && user@
                    == req0.user@ ==> old(self).vault.balance >= req0.payment && *old(user_balance)
                    + req0.payment <= u64::MAX
            }),
        ensures
            final(self).wf(),
            ({
                let req0 = old(self).requests@[req_index as int];
                let pending = req0.status == Status::Pending;
                let authorized = caller@ == old(self).state.relayer@ && user@ == req0.user@;
                &&& (r == Err::<RequestFailed, ErrorCode>(ErrorCode::InvalidStatus) <==> !pending)
                &&& (r == Err::<RequestFailed, ErrorCode>(ErrorCode::Unauthorized)
                    <==> pending && !authorized)
                &&& (r is Ok <==> old(self).mark_accepted(*caller, *user, req_index as int))
                &&& (r is Err ==> *final(self) == *old(self) && *final(user_balance) == *old(user_balance))
                &&& (r is Ok ==> final(self).failed_from(*old(self), req_index as int)
                    && *final(user_balance) == *old(user_balance) + req0.payment
                    && r == Ok::<RequestFailed, ErrorCode>(RequestFailed { request_id: req0.id }))
            }),
    {
        let status = self.requests[req_index].status;
        if status != Status::Pending {
            return Err(ErrorCode::InvalidStatus);
        }
        if !bytes32_eq(caller, &self.state.relayer) {
            return Err(ErrorCode::Unauthorized);
        }
        let requester = self.requests[req_index].user;
        if !bytes32_eq(user, &requester) {
            return Err(ErrorCode::Unauthorized);
        }
        let payment = self.requests[req_index].payment;
        let moved = transfer(&mut self.vault.balance, user_balance, payment);
        assert(moved);
        let mut req = self.requests[req_index];
        req.status = Status::Failed;
        self.requests[req_index] = req;
        Ok(RequestFailed { request_id: req.id })
    }

    /// Withdraws a confirmed request's access grant. Rejected with
    /// `Unauthorized` unless the caller is the record's requester, then with
    /// `InvalidStatus` unless the record is `Confirmed`; a rejection has no
    /// effect. On success it sets the status to `Revoked` and returns the
    /// `AccessRevoked` notification. No funds move.
    pub fn revoke_access(&mut self, caller: &[u8; 32], req_index: usize) -> (r: Result<
        AccessRevoked,
        ErrorCode,
    >)
        requires
            old(self).wf(),
            req_index < old(self).requests@.len(),
        ensures
            final(self).wf(),
            ({
                let req0 = old(self).requests@[req_index as int];
                let authorized = caller@ == req0.user@;
                let confirmed = req0.status == Status::Confirmed;
                &&& (r == Err::<AccessRevoked, ErrorCode>(ErrorCode::Unauthorized)
                    <==> !authorized)
                &&& (r == Err::<AccessRevoked, ErrorCode>(ErrorCode::InvalidStatus)
                    <==> authorized && !confirmed)
                &&& (r is Ok <==> old(self).revoke_accepted(*caller, req_index as int))
                &&& (r is Err ==> *final(self) == *old(self))
                &&& (r is Ok ==> final(self).revoked_from(*old(self), req_index as int)
                    && r == Ok::<AccessRevoked, ErrorCode>(AccessRevoked { request_id: req0.id }))
            }),
    {
        let requester = self.requests[req_index].user;
        if !bytes32_eq(caller, &requester) {
            return Err(ErrorCode::Unauthorized);
        }
        let status = self.requests[req_index].status;
        if status != Status::Confirmed {
            return Err(ErrorCode::InvalidStatus);
        }
        let mut req = self.requests[req_index];
        req.status = Status::Revoked;
        self.requests[req_index] = req;
        Ok(AccessRevoked { request_id: req.id })
    }

    /// Sets the pause flag. Rejected with `Unauthorized` unless the caller is
    /// the administrator. Idempotent: pausing an already paused configuration
    /// is not an error.
    pub fn pause(&mut self, caller: &[u8; 32]) -> (r: Result<(), ErrorCode>)
        ensures
            r is Ok <==> caller@ == old(self).state.admin@,
            r is Err ==> r == Err::<(), ErrorCode>(ErrorCode::Unauthorized) && *final(self) == *old(self),
            r is Ok ==> final(self).state.paused && final(self).state.admin == old(self).state.admin && final(self).state.relayer == old(self).state.relayer && final(self).state.count == old(self).state.count && final(self).vault == old(self).vault && final(self).requests@ == old(self).requests@,
            final(self).wf() == old(self).wf(),
    {
        if !bytes32_eq(caller, &self.state.admin) {
            return Err(ErrorCode::Unauthorized);
        }
        self.state.paused = true;
        Ok(())
    }

    /// Clears the pause flag. Rejected with `Unauthorized` unless the caller
    /// is the administrator. Idempotent: unpausing an already running
    /// configuration is not an error.
    pub fn unpause(&mut self, caller: &[u8; 32]) -> (r: Result<(), ErrorCode>)
        ensures
            r is Ok <==> caller@ == old(self).state.admin@,
            r is Err ==> r == Err::<(), ErrorCode>(ErrorCode::Unauthorized) && *final(self) == *old(self),
            r is Ok ==> !final(self).state.paused && final(self).state.admin == old(self).state.admin && final(self).state.relayer == old(self).state.relayer && final(self).state.count == old(self).state.count && final(self).vault == old(self).vault && final(self).requests@ == old(self).requests@,
            final(self).wf() == old(self).wf(),
    {
        if !bytes32_eq(caller, &self.state.admin) {
            return Err(ErrorCode::Unauthorized);
        }
        self.state.paused = false;
        Ok(())
    }

    /// Moves `amount` from the vault to the administrator's balance.
    /// Rejected with `Unauthorized` unless the caller is the administrator,
    /// with no effect.
    pub fn withdraw(&mut self, caller: &[u8; 32], admin_balance: &mut u64, amount: u64) -> (r:
        Result<(), ErrorCode>)
        requires
            old(self).wf(),
            caller@ == old(self).state.admin@ ==> amount <= old(self).vault.balance && *old(admin_balance) + amount <= u64::MAX,
        ensures
            final(self).wf(),
            r is Ok <==> caller@ == old(self).state.admin@,
            r is Err ==> r == Err::<(), ErrorCode>(ErrorCode::Unauthorized) && *final(self) == *old(self) && *final(admin_balance) == *old(admin_balance),
            r is Ok ==> final(self).vault.balance == old(self).vault.balance - amount && *final(admin_balance) == *old(admin_balance) + amount && final(self).state == old(self).state && final(self).requests@ == old(self).requests@,
    {
        if !bytes32_eq(caller, &self.state.admin) {
            return Err(ErrorCode::Unauthorized);
        }
        let moved = transfer(&mut self.vault.balance, admin_balance, amount);
        assert(moved);
        Ok(())
    }
}

} // verus!
