use benten_engine::error::{EngineError, ErrorCode};
use benten_engine::manifest_envelope_recheck::{
    is_synthesized_node_id, outcome_to_row_reject, ManifestEnvelopeRecheckOutcome,
    ManifestEnvelopeRechecker, NoopManifestEnvelopeRechecker,
};
use benten_engine::production_manifest_envelope_rechecker::ProductionManifestEnvelopeRechecker;
use benten_engine::manifest_envelope_recheck::{envelope_ceiling_admits_cap_resources, envelope_ceiling_admits_row, EnvelopeCeiling,};

#[test]
fn synthesized_peer_did_surfaces_unresolved_deny() {
    let rechecker = ProductionManifestEnvelopeRechecker::new();
    let outcome = rechecker.recheck_row("node-id:42", "zone-a", "key-x");
    assert_eq!(outcome, ManifestEnvelopeRecheckOutcome::UnresolvedDeny);
}

#[test]
fn resolvable_did_admits_via_not_applicable_v1_beta_posture() {
    let rechecker = ProductionManifestEnvelopeRechecker::new();
    let outcome = rechecker.recheck_row("did:key:zResolvable", "zone-a", "key-x");
    assert_eq!(outcome, ManifestEnvelopeRecheckOutcome::NotApplicable);
}

#[test]
fn empty_did_string_is_not_synthesized() {
    let rechecker = ProductionManifestEnvelopeRechecker::new();
    let outcome = rechecker.recheck_row("", "zone-a", "key-x");
    assert_eq!(outcome, ManifestEnvelopeRecheckOutcome::NotApplicable);
}

#[test]
fn noop_rechecker_never_applies() {
    let r = NoopManifestEnvelopeRechecker;
    assert_eq!(
        r.recheck_row("node-id:1", "z", "k"),
        ManifestEnvelopeRecheckOutcome::NotApplicable
    );
    assert!(is_synthesized_node_id("node-id:7"));
    assert!(!is_synthesized_node_id("did:key:z"));
}

#[test]
fn outside_envelope_rejects_with_named_row() {
    let r = outcome_to_row_reject(
        ManifestEnvelopeRecheckOutcome::OutsideEnvelope {
            offending_plugin_did: "did:key:zPlugin".into(),
            cap_pattern: "store:notes:write".into(),
        },
        "zone-a",
        "key-x",
    );
    assert_eq!(
        r,
        Err(EngineError::Other {
            code: ErrorCode::PluginDelegationOutsideManifestEnvelope,
            message: "apply_atrium_merge: manifest-envelope recheck rejected row (zone='zone-a' key='key-x' offending_plugin_did='did:key:zPlugin' cap_pattern='store:notes:write'); T8 defense-in-depth at sync merge boundary".into(),
        })
    );
    assert!(outcome_to_row_reject(ManifestEnvelopeRecheckOutcome::Admitted, "z", "k").is_ok());
}

#[test]
fn sandbox_scope_exceeds_non_sandbox_ceiling() {
    let thin = EnvelopeCeiling { runs_sandbox: false };
    let full = EnvelopeCeiling { runs_sandbox: true };
    assert!(envelope_ceiling_admits_row(None, "host:sandbox:run", "z", "k").is_ok());
    assert!(envelope_ceiling_admits_row(Some(&full), "host:sandbox:run", "z", "k").is_ok());
    assert!(envelope_ceiling_admits_row(Some(&thin), "zone:write", "z", "k").is_ok());
    let e = envelope_ceiling_admits_row(Some(&thin), "host:sandbox:run", "z", "k").unwrap_err();
    assert_eq!(e.code(), ErrorCode::DeviceAttestationForged);
    assert!(envelope_ceiling_admits_cap_resources(None, "z", "k").is_ok());
    match envelope_ceiling_admits_cap_resources(Some("host:sandbox:exec"), "z", "k") {
        Err(EngineError::Other { code, message }) => {
            assert_eq!(code, ErrorCode::DeviceAttestationForged);
            assert!(message.contains("'host:sandbox:exec'"));
        }
        other => panic!("expected a ceiling refusal, got {other:?}"),
    }
}
