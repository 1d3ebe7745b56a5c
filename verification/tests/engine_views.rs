use benten_engine::cid::Cid;
use benten_engine::engine_views::{
    check_user_view_registration, normalize_view_id, plan_view_read, project_view_read,
    view_label_hint, ViewReadPlan, ViewReadResult, ViewRows,
};
use benten_engine::error::{EngineError, ErrorCode};
use benten_engine::outcome::{Strategy, UserViewInputPattern, UserViewSpec};

#[test]
fn label_hints_and_normalized_ids() {
    assert_eq!(view_label_hint("content_listing_post"), "post");
    assert_eq!(view_label_hint("system:ivm:content_listing_post"), "post");
    assert_eq!(view_label_hint("capability_grants"), "");
    assert_eq!(normalize_view_id("system:ivm:capability_grants"), "capability_grants");
    assert_eq!(normalize_view_id("content_listing_post"), "content_listing_post");
}

#[test]
fn read_plans() {
    assert_eq!(
        plan_view_read(false, "v", false, Some(false), true, false),
        Err(EngineError::SubsystemDisabled { subsystem: "ivm" })
    );
    assert_eq!(
        plan_view_read(true, "content_listing_post", true, Some(false), true, false),
        Ok(ViewReadPlan::Empty)
    );
    assert_eq!(
        plan_view_read(true, "system:ivm:content_listing_post", false, Some(false), true, false),
        Ok(ViewReadPlan::Query {
            view_id: "content_listing_post".into(),
            label: Some("post".into()),
            relaxed: false
        })
    );
    assert_eq!(
        plan_view_read(true, "user_view", false, Some(true), false, false),
        Err(EngineError::IvmViewStale {
            view_id: "user_view".into()
        })
    );
    assert_eq!(
        plan_view_read(true, "user_view", false, Some(true), false, true),
        Ok(ViewReadPlan::Query {
            view_id: "user_view".into(),
            label: None,
            relaxed: true
        })
    );
    assert_eq!(
        plan_view_read(true, "nope", false, None, false, true),
        Err(EngineError::UnknownView {
            view_id: "nope".into()
        })
    );
    assert_eq!(
        plan_view_read(true, "capability_grants", false, None, true, true),
        Ok(ViewReadPlan::Empty)
    );
}

#[test]
fn view_results_project_to_rows() {
    let c = Cid::from_blake3_digest([1u8; 32]);
    assert_eq!(project_view_read(None, "v", false), Ok(ViewRows::Cids(vec![])));
    assert_eq!(
        project_view_read(Some(ViewReadResult::Current(Some(c))), "v", false),
        Ok(ViewRows::Cids(vec![c]))
    );
    assert_eq!(
        project_view_read(Some(ViewReadResult::Rules), "v", false),
        Ok(ViewRows::RulesRow)
    );
    assert_eq!(
        project_view_read(Some(ViewReadResult::Stale), "v", false),
        Err(EngineError::IvmViewStale { view_id: "v".into() })
    );
    assert_eq!(
        project_view_read(Some(ViewReadResult::Stale), "v", true),
        Ok(ViewRows::Cids(vec![]))
    );
}

fn spec(id: &str, pattern: UserViewInputPattern, strategy: Strategy) -> UserViewSpec {
    UserViewSpec::builder()
        .id(id)
        .input_pattern(pattern)
        .strategy(strategy)
        .build()
        .unwrap()
}

#[test]
fn user_view_registration_rules() {
    let a = spec("v", UserViewInputPattern::Label("post".into()), Strategy::A);
    let e = check_user_view_registration(&a, None, true).unwrap_err();
    assert_eq!(e.code(), ErrorCode::ViewStrategyARefused);
    let c = spec("v", UserViewInputPattern::Label("post".into()), Strategy::C);
    assert_eq!(
        check_user_view_registration(&c, None, true),
        Err(EngineError::ViewStrategyCReserved { view_id: "v".into() })
    );
    let b = spec(
        "capability_grants",
        UserViewInputPattern::Label("post".into()),
        Strategy::B,
    );
    assert_eq!(
        check_user_view_registration(&b, Some("system:CapabilityGrant"), true),
        Err(EngineError::ViewLabelMismatch {
            view_id: "capability_grants".into(),
            expected_label: "system:CapabilityGrant".into(),
            got_label: "post".into()
        })
    );
    let ok = spec("feed", UserViewInputPattern::AnchorPrefix("a/".into()), Strategy::B);
    let d = check_user_view_registration(&ok, None, true).unwrap();
    assert_eq!(d.view_id, "feed");
    assert_eq!(d.input_pattern_label, "a/");
    assert_eq!(d.input_pattern_kind, "anchor_prefix");
    assert_eq!(d.strategy, "B");
    assert_eq!(
        check_user_view_registration(&ok, None, false),
        Err(EngineError::SubsystemDisabled { subsystem: "ivm" })
    );
}
