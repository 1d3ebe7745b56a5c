use benten_engine::engine_wait::{
    historical_policy_metadata_hint, HandlerRef, HistoricalPolicyMetadataHint,
    HistoricalPolicyMetadataHintGuard,
};

#[test]
fn historical_policy_metadata_hint_guard_drains_on_entry_and_drop() {
    let mut slot = HistoricalPolicyMetadataHint::new();
    // Pre-populate as if a previous resume left a hint behind.
    slot.set(b"stale-from-prior-resume".to_vec());
    {
        let guard = HistoricalPolicyMetadataHintGuard::drain_on_entry_and_exit(&mut slot);
        assert!(!slot.is_set(), "guard must drain stale hint on entry");
        // Set a hint mid-resume.
        slot.set(b"current-resume-hint".to_vec());
        guard.finish(&mut slot);
    }
    assert!(
        historical_policy_metadata_hint(&mut slot).is_none(),
        "guard must drain hint on exit even when policy never consumed it",
    );
}

#[test]
fn hint_is_read_once() {
    let mut slot = HistoricalPolicyMetadataHint::new();
    slot.set(vec![1, 2, 3]);
    assert_eq!(historical_policy_metadata_hint(&mut slot), Some(vec![1, 2, 3]));
    assert_eq!(historical_policy_metadata_hint(&mut slot), None);
}

#[test]
fn handler_refs_lower_to_their_text() {
    let id = String::from("h_posts");
    assert_eq!("h_posts".as_handler_key(), "h_posts");
    assert_eq!((&id).as_handler_key(), "h_posts");
    assert_eq!(id.as_handler_key(), "h_posts");
}
