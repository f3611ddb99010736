use certid_verifier::attestation::attestation_tag;
use certid_verifier::attestation::encode_attestation;
use certid_verifier::identity::Address;
use certid_verifier::identity::DeviceId;
use certid_verifier::ledger::CertIDVerifier;
use certid_verifier::ledger::ContractError;
use certid_verifier::registry::ManufacturerRecord;

const MFR_ID: u32 = 7;

fn relayer() -> Address {
    Address { a0: 0, a1: 0, a2: 0x52 }
}

fn owner_one() -> Address {
    Address { a0: 0, a1: 0, a2: 0x01 }
}

fn test_key() -> Vec<u8> {
    let mut key = Vec::new();
    for i in 0..32 {
        key.push(0xA0 ^ (i as u8));
    }
    key
}

fn test_measurement() -> Vec<u8> {
    let mut m = Vec::new();
    for i in 0..32 {
        m.push(0x30 ^ (i as u8));
    }
    m
}

fn test_registry() -> Vec<ManufacturerRecord> {
    let mut regs = Vec::new();
    regs.push(ManufacturerRecord { id: MFR_ID, key: test_key(), measurement: test_measurement() });
    regs
}

fn deployed() -> CertIDVerifier {
    CertIDVerifier::new(relayer(), test_registry())
}

fn device_zero() -> DeviceId {
    DeviceId::from_bytes(&[0u8; 32])
}

/// A payload for `device` at `nonce` whose signature is the correct tag.
fn valid_payload(device: DeviceId, nonce: u64) -> Vec<u8> {
    let measurement = test_measurement();
    let tag = attestation_tag(&test_key(), device, nonce, &measurement);
    encode_attestation(MFR_ID, nonce, &measurement, &tag)
}

#[test]
fn test_register_and_verify() {
    let mut contract = deployed();

    let device_id = device_zero();
    let owner = owner_one();

    // Register device
    contract.register_device(relayer(), device_id, owner).unwrap();

    // Set trust score to 92
    contract.update_trust_score(relayer(), device_id, 92).unwrap();

    // Verify attestation should succeed
    let result = contract.verify_tee_attestation(device_id, valid_payload(device_id, 1)).unwrap();
    assert!(result);

    // Check counter incremented
    assert_eq!(contract.get_total_verifications(), 1);

    // The device's committed nonce is now the payload's nonce
    assert_eq!(contract.get_device_nonce(device_id), 1);
}

#[test]
fn test_unregistered_device_fails() {
    let mut contract = deployed();

    let device_id = DeviceId::from_bytes(&[0u8; 32]);

    // Verify without registration/score should fail
    let result = contract.verify_tee_attestation(device_id, Vec::new()).unwrap();
    assert!(!result);

    // Counter should not increment
    assert_eq!(contract.get_total_verifications(), 0);
}

#[test]
fn test_score_above_range_rejected() {
    let mut contract = deployed();
    let d = device_zero();
    contract.register_device(relayer(), d, owner_one()).unwrap();
    contract.update_trust_score(relayer(), d, 100).unwrap();
    let r = contract.update_trust_score(relayer(), d, 101);
    assert_eq!(r, Err(ContractError::InvalidScore));
    // the prior score is unchanged
    assert_eq!(contract.get_device_trust(d), 100);
}

#[test]
fn test_counter_counts_successes() {
    let mut contract = deployed();
    let d = device_zero();
    contract.register_device(relayer(), d, owner_one()).unwrap();
    contract.update_trust_score(relayer(), d, 55).unwrap();

    let mut expected: u64 = 0;
    // success at nonce 1
    assert!(contract.verify_tee_attestation(d, valid_payload(d, 1)).unwrap());
    expected += 1;
    // replay of nonce 1 fails, no increment
    assert!(!contract.verify_tee_attestation(d, valid_payload(d, 1)).unwrap());
    // success at nonce 5
    assert!(contract.verify_tee_attestation(d, valid_payload(d, 5)).unwrap());
    expected += 1;
    // stale nonce 3 fails
    assert!(!contract.verify_tee_attestation(d, valid_payload(d, 3)).unwrap());
    // registration and score updates do not move the counter
    contract.register_device(relayer(), d, owner_one()).unwrap();
    contract.update_trust_score(relayer(), d, 60).unwrap();
    assert_eq!(contract.get_total_verifications(), expected);
}

#[test]
fn test_replay_rejected() {
    let mut contract = deployed();
    let d = device_zero();
    contract.register_device(relayer(), d, owner_one()).unwrap();
    contract.update_trust_score(relayer(), d, 50).unwrap();

    let payload = valid_payload(d, 4);
    assert!(contract.verify_tee_attestation(d, payload.clone()).unwrap());
    assert_eq!(contract.get_total_verifications(), 1);

    // resubmitting the identical payload must fail and not count
    assert!(!contract.verify_tee_attestation(d, payload).unwrap());
    assert_eq!(contract.get_total_verifications(), 1);
    assert_eq!(contract.get_device_nonce(d), 4);
}

#[test]
fn test_register_idempotent() {
    let mut once = deployed();
    let mut twice = deployed();
    let d = device_zero();
    once.register_device(relayer(), d, owner_one()).unwrap();
    twice.register_device(relayer(), d, owner_one()).unwrap();
    twice.register_device(relayer(), d, owner_one()).unwrap();
    assert_eq!(once.get_device_owner(d), twice.get_device_owner(d));
    assert_eq!(once.get_device_trust(d), twice.get_device_trust(d));
    assert_eq!(once.get_device_nonce(d), twice.get_device_nonce(d));
    assert_eq!(once.get_total_verifications(), twice.get_total_verifications());
}

#[test]
fn test_unauthorized_update_rejected() {
    let mut contract = deployed();
    let d = device_zero();
    contract.register_device(relayer(), d, owner_one()).unwrap();
    contract.update_trust_score(relayer(), d, 40).unwrap();

    let stranger = Address { a0: 9, a1: 9, a2: 9 };
    let r = contract.update_trust_score(stranger, d, 99);
    assert_eq!(r, Err(ContractError::Unauthorized));
    // the ledger is unchanged
    assert_eq!(contract.get_device_trust(d), 40);

    let r2 = contract.register_device(stranger, d, stranger);
    assert_eq!(r2, Err(ContractError::Unauthorized));
    assert_eq!(contract.get_device_owner(d), owner_one());
}

#[test]
fn test_unknown_device_trust_is_zero() {
    let contract = deployed();
    let d2 = DeviceId::from_bytes(&[2u8; 32]);
    assert_eq!(contract.get_device_trust(d2), 0);
    assert_eq!(contract.get_device_owner(d2), Address::zero());
}

#[test]
fn test_zero_score_device_fails() {
    let mut contract = deployed();
    let d = device_zero();
    // registered but never scored: score is zero, verification fails
    contract.register_device(relayer(), d, owner_one()).unwrap();
    let r = contract.verify_tee_attestation(d, valid_payload(d, 1)).unwrap();
    assert!(!r);
    assert_eq!(contract.get_total_verifications(), 0);
}

#[test]
fn test_stale_nonce_rejected() {
    let mut contract = deployed();
    let d = device_zero();
    contract.register_device(relayer(), d, owner_one()).unwrap();
    contract.update_trust_score(relayer(), d, 75).unwrap();
    assert!(contract.verify_tee_attestation(d, valid_payload(d, 6)).unwrap());

    // a fresh, correctly signed payload at the already-committed nonce
    let r = contract.verify_tee_attestation(d, valid_payload(d, 6)).unwrap();
    assert!(!r);
    assert_eq!(contract.get_device_nonce(d), 6);
    assert_eq!(contract.get_total_verifications(), 1);
}

#[test]
fn test_malformed_payload_aborts() {
    let mut contract = deployed();
    let d = device_zero();
    contract.register_device(relayer(), d, owner_one()).unwrap();
    contract.update_trust_score(relayer(), d, 10).unwrap();
    let r = contract.verify_tee_attestation(d, vec![1u8, 2, 3]);
    assert_eq!(r, Err(ContractError::MalformedAttestation));
    assert_eq!(contract.get_total_verifications(), 0);
    // an over-long payload aborts too
    let r2 = contract.verify_tee_attestation(d, vec![0u8; 77]);
    assert_eq!(r2, Err(ContractError::MalformedAttestation));
}

#[test]
fn test_bad_signature_rejected() {
    let mut contract = deployed();
    let d = device_zero();
    contract.register_device(relayer(), d, owner_one()).unwrap();
    contract.update_trust_score(relayer(), d, 80).unwrap();
    let mut payload = valid_payload(d, 1);
    payload[44] ^= 0xFF;
    let r = contract.verify_tee_attestation(d, payload).unwrap();
    assert!(!r);
    assert_eq!(contract.get_total_verifications(), 0);
    assert_eq!(contract.get_device_nonce(d), 0);
}

#[test]
fn test_unknown_manufacturer_rejected() {
    let mut contract = deployed();
    let d = device_zero();
    contract.register_device(relayer(), d, owner_one()).unwrap();
    contract.update_trust_score(relayer(), d, 80).unwrap();
    let measurement = test_measurement();
    let tag = attestation_tag(&test_key(), d, 1, &measurement);
    let payload = encode_attestation(MFR_ID + 1, 1, &measurement, &tag);
    let r = contract.verify_tee_attestation(d, payload).unwrap();
    assert!(!r);
    assert_eq!(contract.get_total_verifications(), 0);
}

#[test]
fn test_measurement_mismatch_rejected() {
    let mut contract = deployed();
    let d = device_zero();
    contract.register_device(relayer(), d, owner_one()).unwrap();
    contract.update_trust_score(relayer(), d, 80).unwrap();
    let mut measurement = test_measurement();
    measurement[0] ^= 0x01;
    let tag = attestation_tag(&test_key(), d, 1, &measurement);
    let payload = encode_attestation(MFR_ID, 1, &measurement, &tag);
    let r = contract.verify_tee_attestation(d, payload).unwrap();
    assert!(!r);
    assert_eq!(contract.get_total_verifications(), 0);
}

#[test]
fn test_zero_owner_rejected() {
    let mut contract = deployed();
    let d = device_zero();
    let r = contract.register_device(relayer(), d, Address::zero());
    assert_eq!(r, Err(ContractError::InvalidOwner));
    assert_eq!(contract.get_device_owner(d), Address::zero());
}

#[test]
fn test_reown_device() {
    let mut contract = deployed();
    let d = device_zero();
    contract.register_device(relayer(), d, owner_one()).unwrap();
    let other = Address { a0: 3, a1: 4, a2: 5 };
    contract.register_device(relayer(), d, other).unwrap();
    assert_eq!(contract.get_device_owner(d), other);
}

#[test]
fn test_last_verified_mark() {
    let mut contract = deployed();
    let d = device_zero();
    contract.register_device(relayer(), d, owner_one()).unwrap();
    contract.update_trust_score(relayer(), d, 20).unwrap();
    assert_eq!(contract.get_last_verified_at(d), 0);
    assert!(contract.verify_tee_attestation(d, valid_payload(d, 1)).unwrap());
    assert_eq!(contract.get_last_verified_at(d), 1);
    assert!(contract.verify_tee_attestation(d, valid_payload(d, 2)).unwrap());
    assert_eq!(contract.get_last_verified_at(d), 2);
}
