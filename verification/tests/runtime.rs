use benten_engine::bytes::be_u32_len;
use benten_engine::capability_refresh::{batch_boundary, CallFrame, WALLCLOCK_REFRESH_CEILING_NANOS};
use benten_engine::clock::{millis_saturating, now_unix_secs, secs_or_zero, system_time_ms_for_atrium_hlc};
use benten_engine::subgraph_spec::{IterateBody, RevokeScope};
use benten_engine::system_zones::is_system_zone_label;
use benten_engine::cid::Cid;
use benten_engine::suspension_store::{is_retention_exhausted, record_key, RecordKind};
use benten_engine::subgraph_cache::{SubgraphCache, SubgraphCacheKey};

#[test]
fn batch_boundary_refresh_cadence_and_revocation() {
    let mut frame = Some(CallFrame::new());
    let targets = vec![2u64];
    let v = batch_boundary(&mut frame, 0, &targets);
    assert_eq!(v.iteration, 1);
    assert!(v.refresh_due, "the first boundary always re-checks");
    assert!(!v.revocation_due);
    let v = batch_boundary(&mut frame, WALLCLOCK_REFRESH_CEILING_NANOS - 1, &targets);
    assert_eq!(v.iteration, 2);
    assert!(!v.refresh_due);
    assert!(!v.revocation_due);
    let v = batch_boundary(&mut frame, WALLCLOCK_REFRESH_CEILING_NANOS, &targets);
    assert_eq!(v.iteration, 3);
    assert!(v.refresh_due);
    assert!(v.revocation_due, "iteration 3 passed target 2");
    let mut none = None;
    let v = batch_boundary(&mut none, 5, &targets);
    assert_eq!(v.iteration, 0);
    assert!(!v.refresh_due && !v.revocation_due);
}

#[test]
fn clock_readings_saturate() {
    assert_eq!(secs_or_zero(None), 0);
    assert_eq!(secs_or_zero(Some(9)), 9);
    assert_eq!(millis_saturating(None), 0);
    assert_eq!(millis_saturating(Some(12)), 12);
    assert_eq!(millis_saturating(Some(u128::from(u64::MAX) + 1)), u64::MAX);
    assert!(now_unix_secs() > 1_600_000_000);
    assert!(system_time_ms_for_atrium_hlc() > 1_600_000_000_000);
}

#[test]
fn wire_lengths_are_big_endian() {
    assert_eq!(be_u32_len(258), [0, 0, 1, 2]);
}

#[test]
fn system_label_probe() {
    assert!(is_system_zone_label("system:Anything"));
    assert!(!is_system_zone_label("post"));
}

#[test]
fn iterate_body_and_revoke_scopes() {
    let b = IterateBody;
    assert_eq!(b.write(|x: u8| x), IterateBody);
    let s = String::from("store:notes:read");
    assert_eq!("store:notes:read".as_scope_string(), "store:notes:read");
    assert_eq!((&s).as_scope_string(), "store:notes:read");
    assert_eq!(s.as_scope_string(), "store:notes:read");
}

#[test]
fn suspension_keys_are_prefixed_cid_bytes() {
    let cid = Cid::from_blake3_digest([4u8; 32]);
    let k = record_key(RecordKind::Wait, &cid);
    let mut expected = b"sw:".to_vec();
    expected.extend_from_slice(&cid.to_bytes());
    assert_eq!(k, expected);
    assert!(record_key(RecordKind::Envelope, &cid).starts_with(b"se:"));
    assert!(record_key(RecordKind::Cursor, &cid).starts_with(b"sc:"));
    assert!(record_key(RecordKind::CursorMeta, &cid).starts_with(b"sm:"));
    assert!(record_key(RecordKind::CapSnapshot, &cid).starts_with(b"sx:"));
    assert!(!is_retention_exhausted(None, Some(10), 100));
    assert!(!is_retention_exhausted(Some(5_000), None, 100));
    assert!(is_retention_exhausted(Some(999), Some(10), 11));
    assert!(!is_retention_exhausted(Some(5_000), Some(0), 100));
    assert!(!is_retention_exhausted(Some(5_000), Some(95), 100));
    assert!(is_retention_exhausted(Some(5_000), Some(94), 100));
}

#[test]
fn subgraph_cache_keys_compare_all_parts() {
    let a = SubgraphCacheKey::new("h".into(), "op".into(), Cid::from_blake3_digest([1u8; 32]));
    let b = SubgraphCacheKey::new("h".into(), "op".into(), Cid::from_blake3_digest([2u8; 32]));
    assert_ne!(a, b);
    assert_eq!(a.handler_id, "h");
}

#[test]
fn subgraph_cache_reads_back_inserted_tag() {
    let mut cache = SubgraphCache::new_for_test();
    let cid_a = Cid { digest: [1u8; 32] };
    let cid_b = Cid { digest: [2u8; 32] };
    assert_eq!(cache.get_for_test("h", "run", &cid_a), None);
    cache.insert_for_test("h", "run", &cid_a, "ast-1");
    assert_eq!(cache.get_for_test("h", "run", &cid_a), Some("ast-1".to_string()));
    assert!(cache.contains(&SubgraphCacheKey::new("h".to_string(), "run".to_string(), cid_a)));
    // A re-registration under a new CID misses.
    assert_eq!(cache.get_for_test("h", "run", &cid_b), None);
    assert_eq!(cache.get_for_test("h", "get", &cid_a), None);
    cache.insert_for_test("h", "run", &cid_a, "ast-2");
    assert_eq!(cache.get_for_test("h", "run", &cid_a), Some("ast-2".to_string()));
    let d = SubgraphCache::default();
    assert!(!d.contains(&SubgraphCacheKey::new("h".to_string(), "run".to_string(), cid_a)));
}
