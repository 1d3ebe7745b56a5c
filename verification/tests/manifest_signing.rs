use benten_engine::base64::{base64_decode, base64_encode, Base64DecodeError};
use benten_engine::error::{EngineError, ErrorCode};
use benten_engine::manifest_signing::{
    decode_signature, publisher_public_key, sign_manifest, verify_manifest_encoded, signature_from_bytes, verify_manifest_with_mode,
    verify_via_registry_key, ManifestVerifyError, ManifestVerifyMode,
    PublisherRegistry, PublisherRegistryError, RegistryCapability, UcanChainCheck,
    UcanDelegation,
};
use benten_engine::module_manifest::{ManifestSignature, ModuleManifest};
use benten_engine::property::PropertyValue;
use benten_engine::manifest_signing::{verify_manifest_with_args, ManifestVerifyArgs};

fn manifest() -> ModuleManifest {
    ModuleManifest {
        name: "acme.posts".into(),
        version: "0.0.1".into(),
        modules: vec![],
        migrations: vec![],
        signature: None,
    }
}

fn public_key(secret: &[u8; 32]) -> [u8; 32] {
    publisher_public_key(secret)
}

const ENGINE: &str = "did:key:zEngine";

const SIGNED_BYTES: &[u8] = b"canonical manifest bytes";

#[test]
fn base64_round_trip_known_vectors() {
    let cases: &[(&[u8], &str)] = &[
        (b"", ""),
        (b"f", "Zg=="),
        (b"fo", "Zm8="),
        (b"foo", "Zm9v"),
        (b"foob", "Zm9vYg=="),
        (b"fooba", "Zm9vYmE="),
        (b"foobar", "Zm9vYmFy"),
    ];
    for (raw, encoded) in cases {
        assert_eq!(base64_encode(raw), *encoded);
        assert_eq!(base64_decode(encoded).unwrap(), *raw);
    }
}

#[test]
fn base64_decode_errors_name_the_fault() {
    assert_eq!(base64_decode("abc"), Err(Base64DecodeError::InvalidLength(3)));
    assert_eq!(
        base64_decode("ab!c"),
        Err(Base64DecodeError::InvalidChar(b'!'))
    );
    assert_eq!(
        Base64DecodeError::InvalidLength(3).message(),
        "base64 length 3 not divisible by 4"
    );
    assert_eq!(
        Base64DecodeError::InvalidChar(b'!').message(),
        "invalid base64 char: 0x21"
    );
}

#[test]
fn sign_then_verify_via_registry_key() {
    let secret = [7u8; 32];
    let signed = sign_manifest(manifest(), SIGNED_BYTES, &secret);
    let sig_bytes = decode_signature(&signed).unwrap();
    verify_via_registry_key(&sig_bytes, SIGNED_BYTES, &public_key(&secret)).unwrap();
    assert_eq!(signed.name, "acme.posts");
    assert_eq!(signed.version, "0.0.1");
}

#[test]
fn registry_unauthorized_path_always_rejects() {
    assert_eq!(
        PublisherRegistryError::UcanRequired.code(),
        ErrorCode::Unknown("E_PUBLISHER_REGISTRY_UCAN_REQUIRED".into())
    );
    let reg = PublisherRegistry::new("did:key:zAdmin", "did:key:zEngine");
    assert_eq!(
        reg.add_publisher_unauthorized(&[1u8; 32]),
        Err(PublisherRegistryError::UcanRequired)
    );
}

#[test]
fn verify_error_codes_are_stable() {
    assert_eq!(
        ManifestVerifyError::Unsigned.code(),
        ErrorCode::Unknown("E_MODULE_MANIFEST_UNSIGNED".into())
    );
    assert_eq!(
        ManifestVerifyError::NoPathPresent.code(),
        ErrorCode::Unknown("E_MODULE_MANIFEST_NO_PATH_PRESENT".into())
    );
    assert_eq!(
        ManifestVerifyError::SignatureMalformed("x".into()).message(),
        "module manifest signature is malformed: x"
    );
    assert_eq!(ManifestVerifyMode::default(), ManifestVerifyMode::Any);
}

#[test]
fn unsigned_manifest_is_refused_unless_mode_is_unsigned() {
    let m = manifest();
    let pk = public_key(&[7u8; 32]);
    assert_eq!(
        verify_manifest_with_mode(&m, SIGNED_BYTES, None, Some(&pk), ENGINE, ManifestVerifyMode::Any),
        Err(ManifestVerifyError::Unsigned)
    );
    assert!(
        verify_manifest_with_mode(&m, SIGNED_BYTES, None, None, ENGINE, ManifestVerifyMode::Unsigned)
            .is_ok()
    );
}

#[test]
fn malformed_signature_field_is_reported() {
    let mut m = manifest();
    m.signature = Some(ManifestSignature {
        ed25519: Some("AAAA".into()),
    });
    assert_eq!(
        decode_signature(&m),
        Err(ManifestVerifyError::SignatureMalformed(
            "ed25519 signature must be 64 bytes; got 3".into()
        ))
    );
    m.signature = Some(ManifestSignature {
        ed25519: Some("AA".into()),
    });
    assert_eq!(
        decode_signature(&m),
        Err(ManifestVerifyError::SignatureMalformed(
            "base64: base64 length 2 not divisible by 4".into()
        ))
    );
    assert_eq!(
        signature_from_bytes(&[0u8; 3]),
        Err(ManifestVerifyError::SignatureMalformed(
            "ed25519 signature MUST be 64 bytes; got 3".into()
        ))
    );
}

#[test]
fn mode_requirements_come_before_path_checks() {
    let secret = [7u8; 32];
    let signed = sign_manifest(manifest(), SIGNED_BYTES, &secret);
    let pk = public_key(&secret);
    assert_eq!(
        verify_manifest_with_mode(&signed, SIGNED_BYTES, None, Some(&pk), ENGINE, ManifestVerifyMode::All),
        Err(ManifestVerifyError::UcanRequiredByModeAll)
    );
    let chain = UcanChainCheck {
        audience: ENGINE.into(),
        chain: Ok(()),
        time_windows: vec![Ok(())],
        leaf_issuer_key: Ok(pk),
    };
    assert_eq!(
        verify_manifest_with_mode(&signed, SIGNED_BYTES, Some(&chain), None, ENGINE, ManifestVerifyMode::All),
        Err(ManifestVerifyError::RegistryRequiredByModeAll)
    );
    assert_eq!(
        verify_manifest_with_mode(&signed, SIGNED_BYTES, None, None, ENGINE, ManifestVerifyMode::Any),
        Err(ManifestVerifyError::NoPathPresent)
    );
    assert!(verify_manifest_with_mode(
        &signed,
        SIGNED_BYTES,
        Some(&chain),
        Some(&pk),
        ENGINE, ManifestVerifyMode::All
    )
    .is_ok());
}

#[test]
fn ucan_failure_is_reported_before_registry_failure() {
    let secret = [7u8; 32];
    let signed = sign_manifest(manifest(), SIGNED_BYTES, &secret);
    let wrong = public_key(&[8u8; 32]);
    let chain = UcanChainCheck {
        audience: ENGINE.into(),
        chain: Ok(()),
        time_windows: vec![Ok(()), Err("expired".into())],
        leaf_issuer_key: Ok(public_key(&secret)),
    };
    assert_eq!(
        verify_manifest_with_mode(&signed, SIGNED_BYTES, Some(&chain), Some(&wrong), ENGINE, ManifestVerifyMode::All),
        Err(ManifestVerifyError::UcanInvalid("time-window: expired".into()))
    );
    let good_chain = UcanChainCheck {
        audience: ENGINE.into(),
        chain: Ok(()),
        time_windows: vec![],
        leaf_issuer_key: Ok(public_key(&secret)),
    };
    assert_eq!(
        verify_manifest_with_mode(&signed, SIGNED_BYTES, Some(&good_chain), Some(&wrong), ENGINE, ManifestVerifyMode::All),
        Err(ManifestVerifyError::RegistryInvalid)
    );
    let bad_leaf = UcanChainCheck {
        audience: ENGINE.into(),
        chain: Ok(()),
        time_windows: vec![],
        leaf_issuer_key: Ok(wrong),
    };
    assert_eq!(
        verify_manifest_with_mode(&signed, SIGNED_BYTES, Some(&bad_leaf), None, ENGINE, ManifestVerifyMode::Any),
        Err(ManifestVerifyError::UcanInvalid("signature does not verify".into()))
    );
    let bad_chain = UcanChainCheck {
        audience: ENGINE.into(),
        chain: Err("audience mismatch".into()),
        time_windows: vec![],
        leaf_issuer_key: Ok(public_key(&secret)),
    };
    assert_eq!(
        verify_manifest_with_mode(&signed, SIGNED_BYTES, Some(&bad_chain), None, ENGINE, ManifestVerifyMode::Any),
        Err(ManifestVerifyError::UcanInvalid("chain: audience mismatch".into()))
    );
}

#[test]
fn signature_over_other_bytes_fails_registry_check() {
    let secret = [7u8; 32];
    let signed = sign_manifest(manifest(), SIGNED_BYTES, &secret);
    let pk = public_key(&secret);
    assert_eq!(
        verify_manifest_with_mode(&signed, b"other bytes", None, Some(&pk), ENGINE, ManifestVerifyMode::Any),
        Err(ManifestVerifyError::RegistryInvalid)
    );
}

fn delegation(issuer: &str, resource: &str, ability: &str) -> UcanDelegation {
    UcanDelegation {
        audience: "did:key:zEngine".into(),
        chain: Ok(()),
        time_window: Ok(()),
        issuer: issuer.into(),
        capabilities: vec![RegistryCapability {
            resource: resource.into(),
            ability: ability.into(),
        }],
    }
}

fn message(e: &EngineError) -> (ErrorCode, String) {
    match e {
        EngineError::Other { code, message } => (code.clone(), message.clone()),
        other => panic!("unexpected error {other:?}"),
    }
}

#[test]
fn registry_add_needs_admin_delegation() {
    let mut reg = PublisherRegistry::new("did:key:zAdmin", "did:key:zEngine");
    let pk = public_key(&[5u8; 32]);
    let e = reg.add_publisher("did:key:zPub", &pk, None).unwrap_err();
    assert_eq!(
        message(&e),
        (
            ErrorCode::Unknown("E_PUBLISHER_REGISTRY_UCAN_REQUIRED".into()),
            "publisher-registry mutation requires UCAN delegation".into()
        )
    );
    let e = reg
        .add_publisher(
            "did:key:zPub",
            &pk,
            Some(&delegation("did:key:zMallory", "registry:publishers", "add")),
        )
        .unwrap_err();
    assert_eq!(
        message(&e).1,
        "publisher-registry UCAN issuer did:key:zMallory != admin did:key:zAdmin"
    );
    let e = reg
        .add_publisher(
            "did:key:zPub",
            &pk,
            Some(&delegation("did:key:zAdmin", "registry:publishers", "revoke")),
        )
        .unwrap_err();
    assert_eq!(
        message(&e),
        (
            ErrorCode::Unknown("E_PUBLISHER_REGISTRY_UCAN_INVALID".into()),
            "publisher-registry UCAN does not delegate registry:publishers/add".into()
        )
    );
    assert_eq!(reg.lookup("did:key:zPub"), None);
}

#[test]
fn registry_lookup_finds_added_publisher() {
    let mut reg = PublisherRegistry::new("did:key:zAdmin", "did:key:zEngine");
    let pk = public_key(&[5u8; 32]);
    reg.add_publisher(
        "did:key:zPub",
        &pk,
        Some(&delegation("did:key:zAdmin", "registry:publishers", "*")),
    )
    .unwrap();
    assert_eq!(reg.lookup("did:key:zPub"), Some(pk));
    assert_eq!(reg.lookup("did:key:zOther"), None);
    let _unused = PropertyValue::Other;
}

#[test]
fn verify_args_constructors_pick_modes() {
    let secret = [7u8; 32];
    let pk = public_key(&secret);
    let signed = sign_manifest(manifest(), SIGNED_BYTES, &secret);
    let dev = ManifestVerifyArgs::unsigned_development();
    assert_eq!(dev.mode, ManifestVerifyMode::Unsigned);
    assert!(verify_manifest_with_args(&manifest(), SIGNED_BYTES, &dev).is_ok());
    let reg = ManifestVerifyArgs::registry(&pk, "did:key:zEngine", 5);
    assert_eq!(reg.mode, ManifestVerifyMode::Any);
    assert!(verify_manifest_with_args(&signed, SIGNED_BYTES, &reg).is_ok());
    let chain = UcanChainCheck {
        audience: ENGINE.into(),
        chain: Ok(()),
        time_windows: vec![],
        leaf_issuer_key: Ok(pk),
    };
    let dual = ManifestVerifyArgs::dual(&chain, &pk, "did:key:zEngine", 5);
    assert_eq!(dual.mode, ManifestVerifyMode::All);
    assert!(verify_manifest_with_args(&signed, SIGNED_BYTES, &dual).is_ok());
    let only_ucan = ManifestVerifyArgs::ucan_chain(&chain, "did:key:zEngine", 5);
    assert!(only_ucan.registry_pubkey.is_none());
}

#[test]
fn any_mode_without_a_path_reports_no_path_before_decoding() {
    let unsigned = manifest();
    assert_eq!(
        verify_manifest_with_mode(&unsigned, SIGNED_BYTES, None, None, ENGINE, ManifestVerifyMode::Any),
        Err(ManifestVerifyError::NoPathPresent)
    );
    let mut malformed = manifest();
    malformed.signature = Some(ManifestSignature { ed25519: Some("AA".into()) });
    assert_eq!(
        verify_manifest_with_mode(&malformed, SIGNED_BYTES, None, None, ENGINE, ManifestVerifyMode::Any),
        Err(ManifestVerifyError::NoPathPresent)
    );
    // Mode All still needs the signature first.
    assert_eq!(
        verify_manifest_with_mode(&unsigned, SIGNED_BYTES, None, None, ENGINE, ManifestVerifyMode::All),
        Err(ManifestVerifyError::Unsigned)
    );
}

#[test]
fn ucan_chain_for_another_audience_is_refused() {
    let secret = [7u8; 32];
    let signed = sign_manifest(manifest(), SIGNED_BYTES, &secret);
    let chain = UcanChainCheck {
        audience: "did:key:zOtherAtrium".into(),
        chain: Ok(()),
        time_windows: vec![],
        leaf_issuer_key: Ok(public_key(&secret)),
    };
    assert_eq!(
        verify_manifest_with_mode(&signed, SIGNED_BYTES, Some(&chain), None, ENGINE, ManifestVerifyMode::Any),
        Err(ManifestVerifyError::UcanInvalid(
            "chain: audience did:key:zOtherAtrium is not the engine audience".into()
        ))
    );
    let args = ManifestVerifyArgs {
        ucan_chain: Some(&chain),
        registry_pubkey: None,
        engine_audience_did: None,
        mode: ManifestVerifyMode::Any,
        now: 0,
    };
    assert!(verify_manifest_with_args(&signed, SIGNED_BYTES, &args).is_err());
}

#[test]
fn signed_manifest_verifies_under_signer_key() {
    let secret = [42u8; 32];
    let signed = sign_manifest(manifest(), SIGNED_BYTES, &secret);
    let pk = publisher_public_key(&secret);
    assert_eq!(
        pk,
        ed25519_dalek::SigningKey::from_bytes(&secret).verifying_key().to_bytes()
    );
    assert!(verify_manifest_with_mode(&signed, SIGNED_BYTES, None, Some(&pk), ENGINE, ManifestVerifyMode::Any).is_ok());
}

#[test]
fn registry_delegation_for_another_audience_is_refused() {
    let mut reg = PublisherRegistry::new("did:key:zAdmin", "did:key:zEngine");
    let pk = public_key(&[5u8; 32]);
    let mut d = delegation("did:key:zAdmin", "registry:publishers", "add");
    d.audience = "did:key:zOtherAtrium".into();
    let e = reg.add_publisher("did:key:zPub", &pk, Some(&d)).unwrap_err();
    assert_eq!(
        message(&e),
        (
            ErrorCode::Unknown("E_PUBLISHER_REGISTRY_UCAN_INVALID".into()),
            "publisher-registry UCAN chain invalid: audience did:key:zOtherAtrium != did:key:zEngine"
                .into()
        )
    );
    assert_eq!(reg.lookup("did:key:zPub"), None);
}

#[test]
fn encoding_failure_is_reported_after_mode_and_signature_checks() {
    let unsigned = manifest();
    assert!(verify_manifest_encoded(&unsigned, Err("boom".into()), None, None, ENGINE, ManifestVerifyMode::Unsigned).is_ok());
    assert_eq!(
        verify_manifest_encoded(&unsigned, Err("boom".into()), None, None, ENGINE, ManifestVerifyMode::Any),
        Err(ManifestVerifyError::NoPathPresent)
    );
    let pk = public_key(&[7u8; 32]);
    assert_eq!(
        verify_manifest_encoded(&unsigned, Err("boom".into()), None, Some(&pk), ENGINE, ManifestVerifyMode::Any),
        Err(ManifestVerifyError::Unsigned)
    );
    let signed = sign_manifest(manifest(), SIGNED_BYTES, &[7u8; 32]);
    assert_eq!(
        verify_manifest_encoded(&signed, Err("boom".into()), None, Some(&pk), ENGINE, ManifestVerifyMode::Any),
        Err(ManifestVerifyError::SignatureMalformed("encode: boom".into()))
    );
    assert!(verify_manifest_encoded(&signed, Ok(SIGNED_BYTES.to_vec()), None, Some(&pk), ENGINE, ManifestVerifyMode::Any).is_ok());
}
