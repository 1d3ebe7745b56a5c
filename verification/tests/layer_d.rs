use benten_engine::digest_set::DigestSet;
use benten_engine::layer_d::device_auth::{DeviceAuthBackend, DeviceAuthError, HeadlessDeviceAuth};
use benten_engine::layer_d::device_link::{
    check_recovered_inner, dispatch_device_link_codepoint, fingerprint_recipient,
    open_provisioning_payload, parse_inner_be, provisioning_signing_bytes, DeviceLinkError,
    ProvisioningInnerPayload, ProvisioningPayload, WrappedKeyWire,
};
use benten_engine::layer_d::drop_timestamp::{round_down_to_bucket, DropToRecipient};
use benten_engine::layer_d::grant_acceptance::{accept_grant, GrantAcceptanceContext, GrantRejection};
use benten_engine::layer_d::secret_store::{
    open_dak_wrap_store, FileVaultStore, KeyringCoreStore, SecretStore, SecretStoreError,
};

fn inner() -> ProvisioningInnerPayload {
    ProvisioningInnerPayload {
        k_principal: [1u8; 32],
        user_did_signing_key: [2u8; 32],
        user_did_pubkey: [3u8; 32],
        atrium_memberships: vec![[4u8; 32], [5u8; 32]],
        provisioning_session_id: [6u8; 32],
        granted_at_bucket: 7200,
    }
}

#[test]
fn inner_payload_round_trips_through_its_encoding() {
    let p = inner();
    let bytes = p.to_canonical_be();
    assert_eq!(bytes.len(), 32 * 3 + 4 + 64 + 32 + 8);
    let back = parse_inner_be(&bytes).expect("decodes");
    assert_eq!(back.k_principal, p.k_principal);
    assert_eq!(back.atrium_memberships, p.atrium_memberships);
    assert_eq!(back.granted_at_bucket, 7200);
    assert!(parse_inner_be(&bytes[..bytes.len() - 1]).is_none());
}

#[test]
fn recovered_inner_must_match_offer_session() {
    let bytes = inner().to_canonical_be();
    assert!(check_recovered_inner(&bytes, &[6u8; 32]).is_ok());
    assert_eq!(
        check_recovered_inner(&bytes, &[9u8; 32]).err(),
        Some(DeviceLinkError::SessionIdMismatch)
    );
    assert_eq!(
        check_recovered_inner(&[0u8; 5], &[6u8; 32]).err(),
        Some(DeviceLinkError::HpkeUnwrapFailed)
    );
}

#[test]
fn fingerprint_is_blake3_not_the_input() {
    let f = fingerprint_recipient(b"recipient-public-bytes");
    assert_eq!(f, *blake3::hash(b"recipient-public-bytes").as_bytes());
    assert_ne!(&f[..22], b"recipient-public-bytes");
}

#[test]
fn device_link_band_dispatch() {
    assert!(dispatch_device_link_codepoint(0x6310).is_ok());
    assert_eq!(dispatch_device_link_codepoint(0x6320), Err(0x6320));
}

#[test]
fn drop_wire_and_bucket() {
    let d = DropToRecipient {
        version: 2,
        recipient_key_generation: 5,
        hpke_ciphertext: vec![0xAB, 0xCD],
    };
    assert_eq!(
        d.to_wire_be(),
        vec![2, 0, 0, 0, 5, 0, 0, 0, 2, 0xAB, 0xCD]
    );
    assert_eq!(
        DropToRecipient::wire_field_names(),
        ["version", "recipient_key_generation", "hpke_ciphertext"]
    );
    assert_eq!(round_down_to_bucket(7199), 3600);
    assert_eq!(round_down_to_bucket(7200), 7200);
    assert_eq!(round_down_to_bucket(0), 0);
}

fn ctx<'a>(
    jti: [u8; 32],
    cache: &'a mut DigestSet,
    revoked: &'a DigestSet,
    resolvable: &'a DigestSet,
    now: u64,
) -> GrantAcceptanceContext<'a> {
    GrantAcceptanceContext {
        jti,
        nonce_cache: cache,
        revoked_device_keys: revoked,
        issuer_device_key: [8u8; 32],
        requested_audience: b"did:key:zAud".to_vec(),
        grant_audience: b"did:key:zAud".to_vec(),
        valid_until: 1000,
        now_secs: now,
        displayed_summary_hash: [1u8; 32],
        bound_summary_hash: [1u8; 32],
        audit_node_cid: Some([2u8; 32]),
        resolvable_audit_cids: resolvable,
    }
}

#[test]
fn admitted_grant_is_replayed_on_second_presentation() {
    let mut cache = DigestSet::new();
    let revoked = DigestSet::new();
    let mut resolvable = DigestSet::new();
    resolvable.insert([2u8; 32]);
    assert_eq!(accept_grant(ctx([9u8; 32], &mut cache, &revoked, &resolvable, 10)), Ok(()));
    assert!(cache.contains(&[9u8; 32]));
    assert_eq!(
        accept_grant(ctx([9u8; 32], &mut cache, &revoked, &resolvable, 10)),
        Err(GrantRejection::Replay)
    );
    assert_eq!(cache.len(), 1);
}

#[test]
fn grant_checks_run_in_mandated_order() {
    let mut cache = DigestSet::new();
    let mut revoked = DigestSet::new();
    revoked.insert([8u8; 32]);
    let resolvable = DigestSet::new();
    // The audit node is checked first, before the revoked key.
    assert_eq!(
        accept_grant(ctx([9u8; 32], &mut cache, &revoked, &resolvable, 10)),
        Err(GrantRejection::AuditNodeMissing)
    );
    let mut resolvable = DigestSet::new();
    resolvable.insert([2u8; 32]);
    assert_eq!(
        accept_grant(ctx([9u8; 32], &mut cache, &revoked, &resolvable, 10)),
        Err(GrantRejection::DeviceKeyRevoked)
    );
    let revoked = DigestSet::new();
    assert_eq!(
        accept_grant(ctx([9u8; 32], &mut cache, &revoked, &resolvable, 1001)),
        Err(GrantRejection::Expired)
    );
    assert_eq!(cache.len(), 0, "a refused grant leaves the nonce cache unchanged");
    assert_eq!(GrantRejection::Expired.roster_index(), 2);
}

#[test]
fn secret_store_reads_back_what_it_wrote() {
    let mut store = open_dak_wrap_store(true);
    assert_eq!(store.backend_name(), "keyring-core");
    store.store("dak", b"wrapped").unwrap();
    assert_eq!(store.retrieve("dak").unwrap(), b"wrapped".to_vec());
    store.store("dak", b"rewrapped").unwrap();
    assert_eq!(store.retrieve("dak").unwrap(), b"rewrapped".to_vec());
    assert_eq!(store.retrieve("other"), Err(SecretStoreError::NotFound));
}

#[test]
fn secret_store_falls_back_to_file_vault() {
    let mut store = open_dak_wrap_store(false);
    assert_eq!(store.backend_name(), "file-vault");
    store.store("dak", b"wrapped").unwrap();
    assert_eq!(store.retrieve("dak").unwrap(), b"wrapped".to_vec());
    let mut keyring = KeyringCoreStore::new(false);
    assert!(!keyring.is_available());
    assert_eq!(
        keyring.store("dak", b"x"),
        Err(SecretStoreError::KeychainUnavailable)
    );
    let vault = FileVaultStore::new();
    assert_eq!(vault.retrieve("dak"), Err(SecretStoreError::NotFound));
}

#[test]
fn headless_unlock_needs_a_password_source() {
    let auth = HeadlessDeviceAuth::from_vault_bytes(vec![1, 2, 3], None);
    assert_eq!(
        auth.unlock(None, |_v: &[u8], _p: &[u8]| Ok([0u8; 32])),
        Err(DeviceAuthError::NoPasswordSource)
    );
    assert!(!auth.supports_biometric());
    assert!(auth.supports_remote_unlock());
    assert!(!auth.is_unlocked());
}

#[test]
fn headless_unlock_opens_with_source_password() {
    let mut auth = HeadlessDeviceAuth::from_vault_bytes(vec![1, 2, 3], Some(b"hunter2"));
    let opened = auth.unlock(Some("ignored prompt"), |v: &[u8], p: &[u8]| {
        if v == [1, 2, 3] && p == b"hunter2" {
            Ok([42u8; 32])
        } else {
            Err(())
        }
    });
    assert_eq!(opened, Ok([42u8; 32]));
    let refused = auth.unlock(None, |_v: &[u8], _p: &[u8]| Err(()));
    assert_eq!(refused, Err(DeviceAuthError::VaultDecryptFailed));
    auth.lock();
    assert!(!auth.is_unlocked());
}

fn wrapped() -> WrappedKeyWire {
    WrappedKeyWire {
        codepoint: 0x6311,
        ek_x: vec![0xaa, 0xbb],
        ek_mlkem: vec![0xcc],
        aead_wire: vec![0xdd, 0xee],
    }
}

#[test]
fn provisioning_signing_bytes_layout() {
    let b = provisioning_signing_bytes(b"DOM", &[6u8; 32], &wrapped());
    let mut expected = b"DOM".to_vec();
    expected.extend_from_slice(&[6u8; 32]);
    expected.extend_from_slice(&[0x63, 0x11]);
    expected.extend_from_slice(&[0, 0, 0, 2, 0xaa, 0xbb]);
    expected.extend_from_slice(&[0, 0, 0, 1, 0xcc]);
    expected.extend_from_slice(&[0xdd, 0xee]);
    assert_eq!(b, expected);
}

fn signed_offer(secret: &[u8; 32]) -> ProvisioningPayload {
    let sk = ed25519_dalek::SigningKey::from_bytes(secret);
    let bytes = provisioning_signing_bytes(b"DOM", &[6u8; 32], &wrapped());
    ProvisioningPayload {
        version: 2,
        provisioning_session_id: [6u8; 32],
        wrapped: wrapped(),
        user_did_signature: ed25519_dalek::Signer::sign(&sk, &bytes).to_bytes().to_vec(),
    }
}

#[test]
fn open_checks_signature_then_unwrap_then_session() {
    let secret = [21u8; 32];
    let pk = ed25519_dalek::SigningKey::from_bytes(&secret).verifying_key().to_bytes();
    let offer = signed_offer(&secret);
    let inner_bytes = inner().to_canonical_be();
    let opened = open_provisioning_payload(&pk, b"DOM", &offer, || Some(inner_bytes.clone())).unwrap();
    assert_eq!(opened.k_principal, [1u8; 32]);
    // A forged offer is refused before any unwrap.
    let other = ed25519_dalek::SigningKey::from_bytes(&[22u8; 32]).verifying_key().to_bytes();
    let called = std::cell::Cell::new(false);
    let r = open_provisioning_payload(&other, b"DOM", &offer, || {
        called.set(true);
        None
    });
    assert_eq!(r.err(), Some(DeviceLinkError::OfferSignatureForged));
    assert!(!called.get());
    // The domain is part of the signed bytes.
    assert_eq!(
        open_provisioning_payload(&pk, b"OTHER", &offer, || None).err(),
        Some(DeviceLinkError::OfferSignatureForged)
    );
    assert_eq!(
        open_provisioning_payload(&pk, b"DOM", &offer, || None).err(),
        Some(DeviceLinkError::HpkeUnwrapFailed)
    );
    let mut other_session = inner();
    other_session.provisioning_session_id = [7u8; 32];
    let bytes = other_session.to_canonical_be();
    assert_eq!(
        open_provisioning_payload(&pk, b"DOM", &offer, || Some(bytes.clone())).err(),
        Some(DeviceLinkError::SessionIdMismatch)
    );
}
