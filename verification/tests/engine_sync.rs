use std::cell::Cell;

use ed25519_dalek::Signer;

use benten_engine::engine_sync::{
    admit_inbound_merge, distinct_texts, AtriumError, DeviceAttestationEnvelope, PeerDidRegistry, SyncStatus,
    TransportKind, TransportStatus, SYNC_HOP_DEPTH_CAP,
};
use benten_engine::error::ErrorCode;
use benten_engine::system_zones::{zone_is_system_zone, SYSTEM_ZONE_PREFIXES};

#[test]
fn sync_status_degraded_constructor_carries_reason() {
    let status = SyncStatus::degraded("packet-loss-30pct");
    assert!(!status.is_healthy);
    assert_eq!(status.reason, "packet-loss-30pct");
}

#[test]
fn zone_is_system_zone_classifies_correctly() {
    for prefix in SYSTEM_ZONE_PREFIXES {
        assert!(zone_is_system_zone(prefix));
        assert!(zone_is_system_zone(&format!("{prefix}suffix")));
    }
    assert!(!zone_is_system_zone("/zone/posts"));
    assert!(!zone_is_system_zone("/user/data"));
}

#[test]
fn atrium_error_codes_route_correctly() {
    let div = AtriumError::DivergentCidRejected {
        target: "system:HandlerVersion/foo".into(),
    };
    assert_eq!(div.code(), ErrorCode::SyncDivergentCidRejected);
    let hop = AtriumError::SyncHopDepthExceeded {
        incoming_hop_depth: 8,
        cap: 8,
    };
    assert_eq!(hop.code(), ErrorCode::SyncHopDepthExceeded);
    let forged = AtriumError::DeviceAttestationForged { reason: "x".into() };
    assert_eq!(forged.code(), ErrorCode::DeviceAttestationForged);
}

#[test]
fn merge_gate_rejects_system_zone() {
    match admit_inbound_merge(true, "system:HandlerVersion/foo", 0) {
        Err(AtriumError::DivergentCidRejected { target }) => {
            assert_eq!(target, "system:HandlerVersion/foo");
        }
        other => panic!("expected DivergentCidRejected, got {other:?}"),
    }
}

#[test]
fn merge_gate_bounds_hop_depth() {
    assert_eq!(admit_inbound_merge(true, "/zone/posts", 0), Ok(1));
    assert_eq!(
        admit_inbound_merge(true, "/zone/posts", SYNC_HOP_DEPTH_CAP - 1),
        Ok(SYNC_HOP_DEPTH_CAP)
    );
    assert_eq!(
        admit_inbound_merge(true, "/zone/posts", SYNC_HOP_DEPTH_CAP),
        Err(AtriumError::SyncHopDepthExceeded {
            incoming_hop_depth: SYNC_HOP_DEPTH_CAP,
            cap: SYNC_HOP_DEPTH_CAP
        })
    );
    assert_eq!(
        admit_inbound_merge(true, "/zone/posts", u32::MAX),
        Err(AtriumError::SyncHopDepthExceeded {
            incoming_hop_depth: u32::MAX,
            cap: 8
        })
    );
}

#[test]
fn merge_gate_refuses_inactive_session_first() {
    assert_eq!(
        admit_inbound_merge(false, "system:HandlerVersion/foo", 0),
        Err(AtriumError::InvalidState {
            reason: "atrium handle is inactive (post-leave); merge_remote_change_with_hop_depth requires rejoin()".into()
        })
    );
}

#[test]
fn transport_status_maps_to_sync_status() {
    let healthy = SyncStatus::from_transport_status(&TransportStatus::Healthy {
        kind: TransportKind::Loopback,
    });
    assert!(healthy.is_healthy);
    let down = SyncStatus::from_transport_status(&TransportStatus::NotConnected);
    assert!(!down.is_healthy);
    assert_eq!(down.reason, "not connected");
    let degraded = SyncStatus::from_transport_status(&TransportStatus::Degraded {
        reason: "lossy".into(),
    });
    assert_eq!(degraded, SyncStatus::degraded("lossy"));
}

#[test]
fn peer_dids_resolve_or_fall_back_to_node_id() {
    let mut reg = PeerDidRegistry::new();
    reg.register_peer_did(7, "did:key:zSeven");
    assert_eq!(reg.resolve_peer_did(7), "did:key:zSeven");
    assert_eq!(reg.resolve_peer_did(42), "node-id:42");
    reg.register_peer_did(7, "did:key:zSevenAgain");
    assert_eq!(reg.resolve_peer_did(7), "did:key:zSevenAgain");
}

fn signed_envelope(payload: &[u8], secret: &[u8; 32], input: &[u8]) -> DeviceAttestationEnvelope {
    let sk = ed25519_dalek::SigningKey::from_bytes(secret);
    DeviceAttestationEnvelope::new_for_signing("did:key:zDevice", payload, [3u8; 32])
        .with_signature(sk.sign(input).to_bytes().to_vec())
}

#[test]
fn envelope_without_attestation_is_accepted_without_checks() {
    let env = DeviceAttestationEnvelope::new_unsigned();
    assert_eq!(env.declared_device_did(), None);
    let called = Cell::new(false);
    let r = env.verify(b"payload", Err("unused".into()), Err("unused".into()), || {
        called.set(true);
        Ok(())
    });
    assert!(r.is_ok());
    assert!(!called.get());
}

#[test]
fn envelope_signed_by_device_key_verifies() {
    let secret = [11u8; 32];
    let pk = ed25519_dalek::SigningKey::from_bytes(&secret)
        .verifying_key()
        .to_bytes();
    let input = b"canonical-signature-input".to_vec();
    let env = signed_envelope(b"loro-bytes", &secret, &input);
    assert_eq!(env.declared_device_did(), Some("did:key:zDevice"));
    assert!(env.verify(b"loro-bytes", Ok(pk), Ok(input.clone()), || Ok(())).is_ok());
    match env.verify(b"swapped-bytes", Ok(pk), Ok(input.clone()), || Ok(())) {
        Err(AtriumError::DeviceAttestationForged { reason }) => {
            assert!(reason.starts_with("envelope payload_hash != BLAKE3"));
        }
        other => panic!("expected frame-pair binding violation, got {other:?}"),
    }
    match env.verify(b"loro-bytes", Ok(pk), Ok(input), || Err("replayed nonce".into())) {
        Err(AtriumError::DeviceAttestationForged { reason }) => {
            assert_eq!(reason, "attestation chain rejected: replayed nonce");
        }
        other => panic!("expected chain rejection, got {other:?}"),
    }
}

#[test]
fn envelope_signed_by_another_key_is_forged() {
    let secret = [11u8; 32];
    let other_pk = ed25519_dalek::SigningKey::from_bytes(&[12u8; 32])
        .verifying_key()
        .to_bytes();
    let input = b"canonical-signature-input".to_vec();
    let env = signed_envelope(b"loro-bytes", &secret, &input);
    let called = Cell::new(false);
    let r = env.verify(b"loro-bytes", Ok(other_pk), Ok(input), || {
        called.set(true);
        Ok(())
    });
    assert_eq!(
        r,
        Err(AtriumError::DeviceAttestationForged {
            reason: "envelope signature does not verify against device DID's pubkey (DID forgery / wrong-key signing)".into()
        })
    );
    assert!(!called.get(), "the acceptor runs only after the signature passed");
}

#[test]
fn envelope_with_short_signature_reports_its_length() {
    let mut env = signed_envelope(b"p", &[1u8; 32], b"in");
    env.envelope_signature.truncate(10);
    let r = env.verify(b"p", Ok([0u8; 32]), Ok(b"in".to_vec()), || Ok(()));
    assert_eq!(
        r,
        Err(AtriumError::DeviceAttestationForged {
            reason: "envelope signature has wrong length: got 10, expected 64".into()
        })
    );
    let r = env.verify(b"p", Err("no such DID".into()), Ok(b"in".to_vec()), || Ok(()));
    assert_eq!(
        r,
        Err(AtriumError::DeviceAttestationForged {
            reason: "device DID resolution failed: no such DID".into()
        })
    );
}

#[test]
fn envelope_version_newer_than_build_is_refused() {
    let mut env = DeviceAttestationEnvelope::new_unsigned();
    env.version = 3;
    match env.check_version() {
        Err(AtriumError::InvalidState { reason }) => assert_eq!(
            reason,
            "DeviceAttestationEnvelope version 3 exceeds MAX_WIRE_VERSION 2 (newer peer; upgrade local build to consume the wire shape)"
        ),
        other => panic!("expected InvalidState, got {other:?}"),
    }
    assert!(DeviceAttestationEnvelope::new_unsigned().check_version().is_ok());
}

#[test]
fn resolve_peer_dids_dedupes_resolved_dids() {
    let mut reg = PeerDidRegistry::new();
    reg.register_peer_did(1, "did:key:zA");
    reg.register_peer_did(2, "did:key:zA");
    let ids: std::collections::BTreeSet<u64> = [1u64, 2, 7].into_iter().collect();
    let mut dids = reg.resolve_peer_dids(&ids);
    dids.sort();
    assert_eq!(dids, vec!["did:key:zA".to_string(), "node-id:7".to_string()]);
    assert!(reg.resolve_peer_dids(&std::collections::BTreeSet::new()).is_empty());
}

#[test]
fn distinct_texts_keeps_each_text_once() {
    let v = vec!["b".to_string(), "a".to_string(), "b".to_string()];
    assert_eq!(distinct_texts(&v), vec!["b".to_string(), "a".to_string()]);
}

#[test]
fn envelope_for_signing_binds_payload_and_nonce() {
    let env = DeviceAttestationEnvelope::new_for_signing("did:key:zDevice", b"loro", [9u8; 32]);
    assert_eq!(env.version, 2);
    assert_eq!(env.declared_device_did(), Some("did:key:zDevice"));
    assert_eq!(env.payload_hash, *blake3::hash(b"loro").as_bytes());
    assert_eq!(env.session_nonce, [9u8; 32]);
    assert!(env.envelope_signature.is_empty());
    let signed = env.clone().with_signature(vec![1, 2, 3]);
    assert_eq!(signed.envelope_signature, vec![1, 2, 3]);
    assert_eq!(signed.payload_hash, env.payload_hash);
    assert_eq!(signed.session_nonce, env.session_nonce);
}
