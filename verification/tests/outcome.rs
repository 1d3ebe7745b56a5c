use benten_engine::cid::Cid;
use benten_engine::outcome::{
    cap_error_to_outcome, inv_iterate_budget_to_outcome, normalize_terminal_edge,
    outcome_from_terminal, parse_list_hint, system_zone_to_outcome, ListHint, ReadViewOptions,
    HandlerPredecessors, Strategy, Trace, TraceStep, UserViewInputPattern, UserViewSpec,
};

#[test]
fn user_view_builder_requires_id_then_pattern() {
    assert_eq!(
        UserViewSpec::builder().build().unwrap_err(),
        "UserViewSpec.id is required"
    );
    assert_eq!(
        UserViewSpec::builder().id("v").build().unwrap_err(),
        "UserViewSpec.input_pattern is required"
    );
    let spec = UserViewSpec::builder()
        .id("user_posts")
        .input_pattern(UserViewInputPattern::Label("post".into()))
        .build()
        .unwrap();
    assert_eq!(spec.id(), "user_posts");
    assert_eq!(spec.strategy(), Strategy::B);
    let spec = UserViewSpec::builder()
        .id("x")
        .input_pattern(UserViewInputPattern::AnchorPrefix("a/".into()))
        .strategy(Strategy::C)
        .build()
        .unwrap();
    assert_eq!(spec.strategy(), Strategy::C);
    assert_eq!(
        spec.input_pattern(),
        &UserViewInputPattern::AnchorPrefix("a/".into())
    );
}

#[test]
fn read_view_options_modes() {
    assert!(!ReadViewOptions::strict().allow_stale);
    assert!(ReadViewOptions::allow_stale().allow_stale);
}

#[test]
fn terminal_edges_normalize() {
    assert_eq!(normalize_terminal_edge("terminal"), ("OK".to_string(), None));
    assert_eq!(normalize_terminal_edge("ok"), ("OK".to_string(), None));
    assert_eq!(
        normalize_terminal_edge("ON_DENIED"),
        ("ON_DENIED".to_string(), Some("E_CAP_DENIED_READ".to_string()))
    );
    assert_eq!(
        normalize_terminal_edge("ON_ERROR"),
        ("ON_ERROR".to_string(), Some("E_UNKNOWN".to_string()))
    );
    assert_eq!(normalize_terminal_edge("CUSTOM"), ("CUSTOM".to_string(), None));
}

#[test]
fn outcome_from_terminal_counts_one_write_per_created_cid() {
    let cid = Cid::from_blake3_digest([1u8; 32]);
    let o = outcome_from_terminal("ok", None, Some(cid));
    assert!(o.is_ok_edge());
    assert!(o.routed_through_edge("OK"));
    assert_eq!(o.successful_write_count(), 1);
    assert_eq!(o.created_cid(), Some(cid));
    assert_eq!(o.as_list(), None);
    let o = outcome_from_terminal("ON_NOT_FOUND", Some(vec![cid]), None);
    assert!(!o.is_ok_edge());
    assert_eq!(o.error_code(), Some("E_NOT_FOUND"));
    assert_eq!(o.taken_edge(), "ON_NOT_FOUND");
    assert_eq!(o.as_list(), Some(vec![cid]));
    assert_eq!(o.successful_write_count(), 0);
}

#[test]
fn list_hints_parse() {
    assert_eq!(
        parse_list_hint("get:post:bafyabc"),
        ListHint::Get {
            label: "post".into(),
            cid_base32: "bafyabc".into()
        }
    );
    assert_eq!(parse_list_hint("get:post"), ListHint::GetMalformed);
    assert_eq!(parse_list_hint("post"), ListHint::Label("post".into()));
    assert_eq!(
        parse_list_hint("get:a:b:c"),
        ListHint::Get {
            label: "a".into(),
            cid_base32: "b:c".into()
        }
    );
}

#[test]
fn error_outcomes_route_through_their_edges() {
    let o = cap_error_to_outcome(true, "E_CAP_NOT_IMPLEMENTED", "not implemented");
    assert_eq!(o.edge_taken(), Some("ON_ERROR".to_string()));
    let o = cap_error_to_outcome(false, "E_CAP_DENIED", "denied");
    assert_eq!(o.edge_taken(), Some("ON_DENIED".to_string()));
    assert_eq!(o.error_message(), Some("denied".to_string()));
    let o = system_zone_to_outcome();
    assert_eq!(o.error_code(), Some("E_SYSTEM_ZONE_WRITE"));
    let o = inv_iterate_budget_to_outcome();
    assert_eq!(o.error_code(), Some("E_INV_ITERATE_BUDGET"));
}

#[test]
fn trace_step_accessors() {
    let step = TraceStep::BudgetExhausted {
        budget_type: "inv_8_iteration",
        consumed: 101,
        limit: 100,
        path: vec!["op1".into(), "op2".into()],
    };
    let v = step.as_budget_exhausted().unwrap();
    assert_eq!(v.budget_type(), "inv_8_iteration");
    assert_eq!(v.consumed(), 101);
    assert_eq!(v.limit(), 100);
    assert_eq!(v.path(), &["op1".to_string(), "op2".to_string()][..]);
    assert_eq!(step.duration_us(), 0);
    let cid = Cid::from_blake3_digest([3u8; 32]);
    let row = TraceStep::Step {
        duration_us: 5,
        node_cid: cid,
        primitive: "read".into(),
        node_id: "r1".into(),
        error: None,
    };
    assert_eq!(row.duration_us(), 5);
    assert_eq!(row.primitive(), Some("read"));
    assert_eq!(row.node_cid(), Some(&cid));
    assert!(row.as_budget_exhausted().is_none());
}

#[test]
fn handler_predecessors_collects_adjacency() {
    let c = |b: u8| Cid { digest: [b; 32] };
    let preds = HandlerPredecessors::from_adjacency(vec![
        (c(5), vec![c(1), c(2)]),
        (c(3), vec![c(1)]),
        (c(5), vec![c(4)]),
    ]);
    assert_eq!(preds.predecessors_of(&c(5)), &[c(4)]);
    assert_eq!(preds.predecessors_of(&c(3)), &[c(1)]);
    assert!(preds.predecessors_of(&c(1)).is_empty());
    assert_eq!(preds.targets(), vec![c(3), c(5)]);
    let empty = HandlerPredecessors::default();
    assert!(empty.targets().is_empty());
    assert!(empty.predecessors_of(&c(3)).is_empty());
}

#[test]
fn trace_exposes_steps_and_outcome() {
    let cid = Cid::from_blake3_digest([3u8; 32]);
    let row = TraceStep::Step {
        duration_us: 5,
        node_cid: cid,
        primitive: "read".into(),
        node_id: "r1".into(),
        error: None,
    };
    let t = Trace { steps: vec![row], outcome: Some(outcome_from_terminal("ok", None, Some(cid))) };
    assert_eq!(t.steps().len(), 1);
    assert_eq!(t.steps()[0].duration_us(), 5);
    assert_eq!(t.outcome().unwrap().created_cid(), Some(cid));
    let empty = Trace::default();
    assert!(empty.steps().is_empty());
    assert!(empty.outcome().is_none());
}
