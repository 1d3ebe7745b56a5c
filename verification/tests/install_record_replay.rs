use std::sync::{Arc, Mutex};

use benten_engine::error::ErrorCode;
use benten_engine::install_record_replay::{signing_payload_hash, InstallRecordReplayStore};

#[test]
fn fresh_record_admitted() {
    let mut store = InstallRecordReplayStore::new();
    let hash = signing_payload_hash(b"some-canonical-bytes");
    assert!(store.record_and_check(hash).is_ok());
    assert_eq!(store.consumed_count(), 1);
    assert!(store.contains(&hash));
}

#[test]
fn replay_rejected_with_typed_code() {
    let mut store = InstallRecordReplayStore::new();
    let hash = signing_payload_hash(b"some-canonical-bytes");
    store.record_and_check(hash).unwrap();
    let err = store
        .record_and_check(hash)
        .expect_err("replay must reject");
    assert_eq!(err, ErrorCode::PluginInstallRecordAlreadyApplied);
    assert_eq!(store.consumed_count(), 1);
}

#[test]
fn distinct_payloads_admitted_independently() {
    let mut store = InstallRecordReplayStore::new();
    let h1 = signing_payload_hash(b"payload-1");
    let h2 = signing_payload_hash(b"payload-2");
    assert!(store.record_and_check(h1).is_ok());
    assert!(store.record_and_check(h2).is_ok());
    assert_eq!(store.consumed_count(), 2);
}

#[test]
fn parallel_presentation_serialized_one_admits_one_rejects() {
    // Sixteen presentations of the same payload hash, serialized by one
    // lock: exactly one admits, the other fifteen reject.
    let store = Arc::new(Mutex::new(InstallRecordReplayStore::new()));
    let hash = signing_payload_hash(b"shared-payload");
    let mut ok_count = 0;
    let mut err_count = 0;
    for _ in 0..16 {
        let s = Arc::clone(&store);
        let result = s.lock().unwrap().record_and_check(hash);
        match result {
            Ok(()) => ok_count += 1,
            Err(ErrorCode::PluginInstallRecordAlreadyApplied) => err_count += 1,
            Err(other) => panic!("unexpected error: {other:?}"),
        }
    }
    assert_eq!(ok_count, 1, "exactly one parallel caller admits");
    assert_eq!(err_count, 15, "all other parallel callers reject");
    assert_eq!(store.lock().unwrap().consumed_count(), 1);
}

#[test]
fn signing_payload_hash_is_blake3_of_payload() {
    let payload = b"some-canonical-bytes";
    assert_eq!(signing_payload_hash(payload), *blake3::hash(payload).as_bytes());
    assert_ne!(signing_payload_hash(b"a"), signing_payload_hash(b"b"));
}
