use datahaven_solana::attestation::canonical_message;
use datahaven_solana::errors::ErrorCode;
use datahaven_solana::lifecycle::{initialize, transfer, DataHaven};
use datahaven_solana::model::{derive_id, Status, MIN_PAYMENT};

use ed25519_dalek::Signer;

const USER: [u8; 32] = [2u8; 32];
const DATA: [u8; 32] = [3u8; 32];
const BLOB: [u8; 32] = [4u8; 32];
const SUI_TX: [u8; 32] = [5u8; 32];
const PROOF: [u8; 32] = [6u8; 32];

fn relayer_key() -> ed25519_dalek::SigningKey {
    ed25519_dalek::SigningKey::from_bytes(&[7u8; 32])
}

/// A fresh deployment whose admin and relayer are the test relayer key.
fn deploy() -> ([u8; 32], DataHaven) {
    let relayer = relayer_key().verifying_key().to_bytes();
    let hub = initialize(relayer);
    (relayer, hub)
}

/// Deploys and creates one pending request paying `payment`.
fn deploy_with_request(payment: u64) -> ([u8; 32], DataHaven, u64) {
    let (relayer, mut hub) = deploy();
    let mut balance: u64 = 10_000_000;
    let r = hub.initiate_storage(&USER, &mut balance, DATA, payment, 77);
    assert!(r.is_ok());
    (relayer, hub, balance)
}

/// Signs the canonical attestation message of request 0 with the relayer key.
fn sign_request0(hub: &DataHaven, blob: &[u8; 32], sui_tx: &[u8; 32], proof: &[u8; 32]) -> [u8; 64] {
    let id = hub.requests[0].id;
    let message = canonical_message(&id, blob, sui_tx, proof);
    relayer_key().sign(&message).to_bytes()
}

#[test]
fn initialize_sets_configuration() {
    let (relayer, hub) = deploy();
    assert_eq!(hub.state.admin, relayer);
    assert_eq!(hub.state.relayer, relayer);
    assert!(!hub.state.paused);
    assert_eq!(hub.state.count, 0);
    assert_eq!(hub.vault.balance, 0);
    assert_eq!(hub.requests.len(), 0);
}

#[test]
fn initiate_moves_payment_into_vault() {
    let (_, mut hub) = deploy();
    let mut balance: u64 = 5_000_000;
    let r = hub.initiate_storage(&USER, &mut balance, DATA, 1_000_000, 42);
    let event = r.unwrap();
    assert_eq!(hub.vault.balance, 1_000_000);
    assert_eq!(balance, 4_000_000);
    assert_eq!(hub.state.count, 1);
    assert_eq!(hub.requests.len(), 1);
    let req = &hub.requests[0];
    assert_eq!(req.status, Status::Pending);
    assert_eq!(req.user, USER);
    assert_eq!(req.data_hash, DATA);
    assert_eq!(req.payment, 1_000_000);
    assert_eq!(req.timestamp, 42);
    assert_eq!(req.blob_id, [0u8; 32]);
    assert_eq!(req.sui_tx_hash, [0u8; 32]);
    assert_eq!(req.proof_hash, [0u8; 32]);
    assert_eq!(event.request_id.requester, USER);
    assert_eq!(event.request_id.seq, 0);
    assert_eq!(event.payment, 1_000_000);
    assert_eq!(event.timestamp, 42);
}

#[test]
fn initiate_issues_fresh_ids() {
    let (_, mut hub) = deploy();
    let mut balance: u64 = 10_000_000;
    let first = hub.initiate_storage(&USER, &mut balance, DATA, 1_000_000, 1).unwrap();
    let second = hub.initiate_storage(&USER, &mut balance, DATA, 2_000_000, 2).unwrap();
    assert_eq!(first.request_id.seq, 0);
    assert_eq!(second.request_id.seq, 1);
    assert_ne!(
        (first.request_id.requester, first.request_id.seq),
        (second.request_id.requester, second.request_id.seq),
    );
    assert_eq!(hub.vault.balance, 3_000_000);
    assert_eq!(balance, 7_000_000);
}

#[test]
fn initiate_below_minimum_is_rejected_without_effect() {
    let (_, mut hub) = deploy();
    let mut balance: u64 = 5_000_000;
    let r = hub.initiate_storage(&USER, &mut balance, DATA, MIN_PAYMENT - 1, 42);
    assert_eq!(r.unwrap_err(), ErrorCode::InsufficientPayment);
    assert_eq!(hub.vault.balance, 0);
    assert_eq!(balance, 5_000_000);
    assert_eq!(hub.state.count, 0);
    assert_eq!(hub.requests.len(), 0);
}

#[test]
fn initiate_at_exact_minimum_succeeds() {
    let (_, mut hub) = deploy();
    let mut balance: u64 = MIN_PAYMENT;
    let r = hub.initiate_storage(&USER, &mut balance, DATA, MIN_PAYMENT, 0);
    assert!(r.is_ok());
    assert_eq!(hub.vault.balance, MIN_PAYMENT);
    assert_eq!(balance, 0);
}

#[test]
fn initiate_while_paused_is_rejected() {
    let (relayer, mut hub) = deploy();
    hub.pause(&relayer).unwrap();
    let mut balance: u64 = 5_000_000;
    let r = hub.initiate_storage(&USER, &mut balance, DATA, 2_000_000, 42);
    assert_eq!(r.unwrap_err(), ErrorCode::Paused);
    assert_eq!(hub.vault.balance, 0);
    assert_eq!(balance, 5_000_000);
    hub.unpause(&relayer).unwrap();
    assert!(hub.initiate_storage(&USER, &mut balance, DATA, 2_000_000, 42).is_ok());
}

#[test]
fn pause_requires_admin_and_is_idempotent() {
    let (relayer, mut hub) = deploy();
    assert_eq!(hub.pause(&USER).unwrap_err(), ErrorCode::Unauthorized);
    assert!(!hub.state.paused);
    hub.pause(&relayer).unwrap();
    assert!(hub.state.paused);
    hub.pause(&relayer).unwrap();
    assert!(hub.state.paused);
    assert_eq!(hub.unpause(&USER).unwrap_err(), ErrorCode::Unauthorized);
    hub.unpause(&relayer).unwrap();
    assert!(!hub.state.paused);
    hub.unpause(&relayer).unwrap();
    assert!(!hub.state.paused);
}

#[test]
fn verify_receipt_with_valid_attestation_confirms() {
    let (relayer, mut hub, _) = deploy_with_request(1_000_000);
    let signature = sign_request0(&hub, &BLOB, &SUI_TX, &PROOF);
    let event = hub.verify_receipt(&relayer, 0, BLOB, SUI_TX, PROOF, &signature).unwrap();
    let req = &hub.requests[0];
    assert_eq!(req.status, Status::Confirmed);
    assert_eq!(req.blob_id, BLOB);
    assert_eq!(req.sui_tx_hash, SUI_TX);
    assert_eq!(req.proof_hash, PROOF);
    assert_eq!(hub.vault.balance, 1_000_000);
    assert_eq!(event.blob_id, BLOB);
    assert_eq!(event.request_id.seq, 0);
}

#[test]
fn verify_receipt_confirms_exactly_once() {
    let (relayer, mut hub, _) = deploy_with_request(1_000_000);
    let signature = sign_request0(&hub, &BLOB, &SUI_TX, &PROOF);
    assert!(hub.verify_receipt(&relayer, 0, BLOB, SUI_TX, PROOF, &signature).is_ok());
    let again = hub.verify_receipt(&relayer, 0, BLOB, SUI_TX, PROOF, &signature);
    assert_eq!(again.unwrap_err(), ErrorCode::InvalidStatus);
    assert_eq!(hub.requests[0].status, Status::Confirmed);
}

#[test]
fn verify_receipt_rejects_signature_over_tampered_message() {
    let (relayer, mut hub, _) = deploy_with_request(1_000_000);
    let id = hub.requests[0].id;
    let mut message = canonical_message(&id, &BLOB, &SUI_TX, &PROOF);
    // Sign a message differing from the canonical one in a single byte.
    message[13] ^= 0x01;
    let signature = relayer_key().sign(&message).to_bytes();
    let r = hub.verify_receipt(&relayer, 0, BLOB, SUI_TX, PROOF, &signature);
    assert_eq!(r.unwrap_err(), ErrorCode::InvalidSignature);
    assert_eq!(hub.requests[0].status, Status::Pending);
    assert_eq!(hub.requests[0].blob_id, [0u8; 32]);
}

#[test]
fn verify_receipt_rejects_attestation_for_other_fields() {
    let (relayer, mut hub, _) = deploy_with_request(1_000_000);
    // A signature binding a different proof commitment must not confirm.
    let signature = sign_request0(&hub, &BLOB, &SUI_TX, &[9u8; 32]);
    let r = hub.verify_receipt(&relayer, 0, BLOB, SUI_TX, PROOF, &signature);
    assert_eq!(r.unwrap_err(), ErrorCode::InvalidSignature);
    assert_eq!(hub.requests[0].status, Status::Pending);
}

#[test]
fn verify_receipt_rejects_wrong_signer() {
    let (relayer, mut hub, _) = deploy_with_request(1_000_000);
    let id = hub.requests[0].id;
    let message = canonical_message(&id, &BLOB, &SUI_TX, &PROOF);
    let intruder = ed25519_dalek::SigningKey::from_bytes(&[8u8; 32]);
    let signature = intruder.sign(&message).to_bytes();
    let r = hub.verify_receipt(&relayer, 0, BLOB, SUI_TX, PROOF, &signature);
    assert_eq!(r.unwrap_err(), ErrorCode::InvalidSignature);
    assert_eq!(hub.requests[0].status, Status::Pending);
}

#[test]
fn verify_receipt_rejects_caller_other_than_relayer() {
    let (_, mut hub, _) = deploy_with_request(1_000_000);
    let signature = sign_request0(&hub, &BLOB, &SUI_TX, &PROOF);
    let r = hub.verify_receipt(&USER, 0, BLOB, SUI_TX, PROOF, &signature);
    assert_eq!(r.unwrap_err(), ErrorCode::Unauthorized);
    assert_eq!(hub.requests[0].status, Status::Pending);
}

#[test]
fn mark_failed_refunds_escrow_exactly_once() {
    let (relayer, mut hub, balance_after) = deploy_with_request(1_000_000);
    let mut balance = balance_after;
    let event = hub.mark_failed(&relayer, &USER, &mut balance, 0).unwrap();
    assert_eq!(event.request_id.seq, 0);
    assert_eq!(hub.requests[0].status, Status::Failed);
    assert_eq!(hub.vault.balance, 0);
    assert_eq!(balance, 10_000_000);
    let again = hub.mark_failed(&relayer, &USER, &mut balance, 0);
    assert_eq!(again.unwrap_err(), ErrorCode::InvalidStatus);
    assert_eq!(hub.vault.balance, 0);
    assert_eq!(balance, 10_000_000);
}

#[test]
fn mark_failed_rejects_caller_other_than_relayer() {
    let (_, mut hub, balance_after) = deploy_with_request(1_000_000);
    let mut balance = balance_after;
    let r = hub.mark_failed(&USER, &USER, &mut balance, 0);
    assert_eq!(r.unwrap_err(), ErrorCode::Unauthorized);
    assert_eq!(hub.requests[0].status, Status::Pending);
    assert_eq!(hub.vault.balance, 1_000_000);
    assert_eq!(balance, balance_after);
}

#[test]
fn mark_failed_rejects_refund_to_other_account() {
    let (relayer, mut hub, balance_after) = deploy_with_request(1_000_000);
    let mut other_balance: u64 = 0;
    let other = [11u8; 32];
    let r = hub.mark_failed(&relayer, &other, &mut other_balance, 0);
    assert_eq!(r.unwrap_err(), ErrorCode::Unauthorized);
    assert_eq!(hub.requests[0].status, Status::Pending);
    assert_eq!(hub.vault.balance, 1_000_000);
    assert_eq!(other_balance, 0);
    let _ = balance_after;
}

#[test]
fn revoke_access_requires_requester_and_confirmed() {
    let (relayer, mut hub, _) = deploy_with_request(1_000_000);
    // Pending: the requester is rejected with InvalidStatus.
    let r = hub.revoke_access(&USER, 0);
    assert_eq!(r.unwrap_err(), ErrorCode::InvalidStatus);
    assert_eq!(hub.requests[0].status, Status::Pending);
    let signature = sign_request0(&hub, &BLOB, &SUI_TX, &PROOF);
    hub.verify_receipt(&relayer, 0, BLOB, SUI_TX, PROOF, &signature).unwrap();
    // Confirmed: anyone but the requester is rejected with Unauthorized.
    let r = hub.revoke_access(&relayer, 0);
    assert_eq!(r.unwrap_err(), ErrorCode::Unauthorized);
    assert_eq!(hub.requests[0].status, Status::Confirmed);
    assert_eq!(hub.vault.balance, 1_000_000);
    // The requester on a confirmed record succeeds, moving no funds.
    let event = hub.revoke_access(&USER, 0).unwrap();
    assert_eq!(event.request_id.seq, 0);
    assert_eq!(hub.requests[0].status, Status::Revoked);
    assert_eq!(hub.vault.balance, 1_000_000);
}

#[test]
fn full_lifecycle_scenario() {
    let (relayer, mut hub) = deploy();
    let mut balance: u64 = 1_000_000;
    hub.initiate_storage(&USER, &mut balance, DATA, 1_000_000, 9).unwrap();
    assert_eq!(hub.vault.balance, 1_000_000);
    assert_eq!(balance, 0);
    assert_eq!(hub.requests[0].status, Status::Pending);
    let signature = sign_request0(&hub, &BLOB, &SUI_TX, &PROOF);
    hub.verify_receipt(&relayer, 0, BLOB, SUI_TX, PROOF, &signature).unwrap();
    assert_eq!(hub.requests[0].status, Status::Confirmed);
    assert_eq!(hub.vault.balance, 1_000_000);
    hub.revoke_access(&USER, 0).unwrap();
    assert_eq!(hub.requests[0].status, Status::Revoked);
    let r = hub.verify_receipt(&relayer, 0, BLOB, SUI_TX, PROOF, &signature);
    assert_eq!(r.unwrap_err(), ErrorCode::InvalidStatus);
    let r = hub.mark_failed(&relayer, &USER, &mut balance, 0);
    assert_eq!(r.unwrap_err(), ErrorCode::InvalidStatus);
    assert_eq!(hub.vault.balance, 1_000_000);
    assert_eq!(balance, 0);
}

#[test]
fn withdraw_moves_vault_funds_to_admin_only() {
    let (relayer, mut hub, _) = deploy_with_request(2_000_000);
    let mut admin_balance: u64 = 5;
    let r = hub.withdraw(&USER, &mut admin_balance, 1);
    assert_eq!(r.unwrap_err(), ErrorCode::Unauthorized);
    assert_eq!(hub.vault.balance, 2_000_000);
    assert_eq!(admin_balance, 5);
    hub.withdraw(&relayer, &mut admin_balance, 500_000).unwrap();
    assert_eq!(hub.vault.balance, 1_500_000);
    assert_eq!(admin_balance, 500_005);
}

#[test]
fn find_request_locates_records_by_id() {
    let (_, mut hub) = deploy();
    let mut balance: u64 = 10_000_000;
    let first = hub.initiate_storage(&USER, &mut balance, DATA, 1_000_000, 1).unwrap();
    let second = hub.initiate_storage(&USER, &mut balance, DATA, 2_000_000, 2).unwrap();
    assert_eq!(hub.find_request(&first.request_id), Some(0));
    assert_eq!(hub.find_request(&second.request_id), Some(1));
    let unknown = derive_id(&[42u8; 32], 0);
    assert_eq!(hub.find_request(&unknown), None);
    let not_yet = derive_id(&USER, 2);
    assert_eq!(hub.find_request(&not_yet), None);
}

#[test]
fn derive_id_is_deterministic_and_collision_free() {
    let a = derive_id(&USER, 0);
    let b = derive_id(&USER, 0);
    assert_eq!((a.requester, a.seq), (b.requester, b.seq));
    let c = derive_id(&USER, 1);
    assert_ne!((a.requester, a.seq), (c.requester, c.seq));
    let d = derive_id(&[42u8; 32], 0);
    assert_ne!((a.requester, a.seq), (d.requester, d.seq));
}

#[test]
fn canonical_message_binds_every_field() {
    let id = derive_id(&USER, 0);
    let base = canonical_message(&id, &BLOB, &SUI_TX, &PROOF);
    assert_eq!(base, canonical_message(&id, &BLOB, &SUI_TX, &PROOF));
    let other_id = derive_id(&USER, 1);
    assert_ne!(base, canonical_message(&other_id, &BLOB, &SUI_TX, &PROOF));
    assert_ne!(base, canonical_message(&id, &[9u8; 32], &SUI_TX, &PROOF));
    assert_ne!(base, canonical_message(&id, &BLOB, &[9u8; 32], &PROOF));
    assert_ne!(base, canonical_message(&id, &BLOB, &SUI_TX, &[9u8; 32]));
}

#[test]
fn canonical_message_matches_keccak_of_preimage() {
    let id = derive_id(&USER, 3);
    let mut preimage: Vec<u8> = Vec::new();
    preimage.extend_from_slice(&USER);
    preimage.extend_from_slice(&3u64.to_le_bytes());
    preimage.extend_from_slice(&BLOB);
    preimage.extend_from_slice(&SUI_TX);
    preimage.extend_from_slice(&PROOF);
    let expected = anchor_lang::solana_program::keccak::hash(&preimage).0;
    assert_eq!(canonical_message(&id, &BLOB, &SUI_TX, &PROOF), expected);
}

#[test]
fn transfer_is_atomic_and_checked() {
    let mut from: u64 = 10;
    let mut to: u64 = 5;
    assert!(transfer(&mut from, &mut to, 4));
    assert_eq!((from, to), (6, 9));
    // Underflow on the debit side: rejected, nothing moves.
    assert!(!transfer(&mut from, &mut to, 7));
    assert_eq!((from, to), (6, 9));
    // Overflow on the credit side: rejected, nothing moves.
    let mut rich: u64 = u64::MAX;
    assert!(!transfer(&mut from, &mut rich, 1));
    assert_eq!(from, 6);
    assert_eq!(rich, u64::MAX);
}
