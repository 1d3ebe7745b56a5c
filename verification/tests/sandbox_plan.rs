use benten_engine::cid::Cid;
use benten_engine::property::PropertyValue;
use benten_engine::sandbox_plan::{
    limit_override, live_cap_permits, sandbox_entry_depth, sandbox_manifest_ref, sandbox_module_text, wallclock_override,
    SandboxManifestRef,
};

#[test]
fn module_property_must_be_text() {
    assert_eq!(
        sandbox_module_text(Some(&PropertyValue::Text("bafymodule".into()))),
        Ok("bafymodule".to_string())
    );
    assert_eq!(
        sandbox_module_text(None).unwrap_err(),
        "SANDBOX: `module` property missing — handler did not declare a module CID"
    );
    assert_eq!(
        sandbox_module_text(Some(&PropertyValue::Int(3))).unwrap_err(),
        "SANDBOX: `module` property must be Text (base32 CID); got non-Text"
    );
}

#[test]
fn named_manifest_wins_over_inline_caps() {
    let caps = PropertyValue::List(vec![
        PropertyValue::Text("host:compute:time".into()),
        PropertyValue::Int(1),
        PropertyValue::Text("host:fs:read".into()),
    ]);
    assert_eq!(
        sandbox_manifest_ref(Some(&PropertyValue::Text("acme".into())), Some(&caps)),
        Ok(SandboxManifestRef::Named("acme".into()))
    );
    assert_eq!(
        sandbox_manifest_ref(None, Some(&caps)),
        Ok(SandboxManifestRef::Inline(vec![
            "host:compute:time".into(),
            "host:fs:read".into()
        ]))
    );
    assert!(sandbox_manifest_ref(Some(&PropertyValue::Int(1)), None).is_err());
}

#[test]
fn limit_overrides() {
    assert_eq!(limit_override(Some(&PropertyValue::Int(500)), 100), 500);
    assert_eq!(limit_override(Some(&PropertyValue::Int(-5)), 100), 100);
    assert_eq!(limit_override(None, 100), 100);
    assert_eq!(wallclock_override(Some(&PropertyValue::Int(-1))), Some(0));
    assert_eq!(wallclock_override(Some(&PropertyValue::Int(250))), Some(250));
    assert_eq!(wallclock_override(Some(&PropertyValue::Other)), None);
}

#[test]
fn sandbox_depth_grows_on_every_entry() {
    assert_eq!(sandbox_entry_depth(None), 1);
    assert_eq!(sandbox_entry_depth(Some(0)), 1);
    assert_eq!(sandbox_entry_depth(Some(3)), 4);
    assert_eq!(sandbox_entry_depth(Some(u8::MAX)), u8::MAX);
}

#[test]
fn revoked_actor_holds_no_capability() {
    let actor = Cid::from_blake3_digest([1u8; 32]);
    let other = Cid::from_blake3_digest([2u8; 32]);
    let snapshot = vec!["host:compute:time".to_string(), "host:random".to_string()];
    assert!(live_cap_permits(&vec![], &actor, &snapshot, "host:random"));
    assert!(!live_cap_permits(&vec![], &actor, &snapshot, "host:kv:read"));
    assert!(live_cap_permits(&vec![other], &actor, &snapshot, "host:random"));
    assert!(!live_cap_permits(&vec![other, actor], &actor, &snapshot, "host:random"));
}
