use benten_engine::module_manifest::{
    manifest_cid_from_canonical_bytes, ModuleManifest, ModuleManifestEntry,
};

#[test]
fn summary_dedupe_caps_across_modules() {
    let m = ModuleManifest {
        name: "acme.posts".into(),
        version: "0.0.1".into(),
        modules: vec![
            ModuleManifestEntry {
                name: "a".into(),
                cid: "bafy_a".into(),
                requires: vec!["host:compute:time".into(), "host:fs:read".into()],
            },
            ModuleManifestEntry {
                name: "b".into(),
                cid: "bafy_b".into(),
                requires: vec!["host:compute:time".into()],
            },
        ],
        migrations: vec![],
        signature: None,
    };
    let s = m.summary();
    assert_eq!(s.modules, 2);
    assert_eq!(
        s.caps, 2,
        "host:compute:time appears in both modules; dedup must collapse to 2 unique caps"
    );
    assert_eq!(s.to_display_string(), "acme.posts v0.0.1 modules=2 caps=2");
}

#[test]
fn summary_of_empty_manifest() {
    let m = ModuleManifest {
        name: "x".into(),
        version: "1".into(),
        modules: vec![],
        migrations: vec![],
        signature: None,
    };
    assert_eq!(m.summary().to_display_string(), "x v1 modules=0 caps=0");
}

#[test]
fn manifest_cid_is_blake3_over_bytes() {
    let bytes = b"canonical bytes";
    let cid = manifest_cid_from_canonical_bytes(bytes);
    assert_eq!(cid.digest, *blake3::hash(bytes).as_bytes());
    let mut expected = vec![0x01, 0x71, 0x1e, 0x20];
    expected.extend_from_slice(blake3::hash(bytes).as_bytes());
    assert_eq!(cid.to_bytes(), expected);
}

#[test]
fn identical_content_identical_cid() {
    let a = manifest_cid_from_canonical_bytes(b"same bytes");
    let b = manifest_cid_from_canonical_bytes(&b"same bytes".to_vec());
    let c = manifest_cid_from_canonical_bytes(b"other bytes");
    assert_eq!(a, b);
    assert_ne!(a, c);
}
