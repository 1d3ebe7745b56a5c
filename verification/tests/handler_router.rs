use benten_engine::handler_router::{HandlerRoute, HandlerRouteLog};

#[test]
fn handler_route_named_round_trip() {
    let r = HandlerRoute::Named("h_a".into());
    assert!(r.is_named());
    assert_eq!(r.named_handler_id(), Some("h_a"));
}

#[test]
fn handler_route_default_is_named_false() {
    let r = HandlerRoute::DefaultFanOut;
    assert!(!r.is_named());
    assert_eq!(r.named_handler_id(), None);
}

#[test]
fn handler_route_log_records_named_and_default_distinctly() {
    let mut log = HandlerRouteLog::new();
    log.record_default_fan_out();
    log.record_default_fan_out();
    log.record_named("emit:evt", "h_a");
    log.record_named("subscribe:/zone/posts", "h_b");
    assert_eq!(log.default_fan_out_count(), 2);
    assert_eq!(log.named_routes().len(), 2);
    assert_eq!(log.named_routes()[0], ("emit:evt".into(), "h_a".into()));
}

#[test]
fn handler_route_log_reset_clears_both_counts() {
    let mut log = HandlerRouteLog::new();
    log.record_default_fan_out();
    log.record_named("emit:evt", "h_a");
    log.reset();
    assert_eq!(log.default_fan_out_count(), 0);
    assert!(log.named_routes().is_empty());
}

#[test]
fn handler_route_log_keeps_dispatch_order() {
    let mut log = HandlerRouteLog::new();
    log.record_named("emit:a", "h_1");
    log.record_default_fan_out();
    log.record_named("emit:b", "h_2");
    let routes = log.named_routes();
    assert_eq!(
        routes,
        vec![
            ("emit:a".to_string(), "h_1".to_string()),
            ("emit:b".to_string(), "h_2".to_string())
        ]
    );
    assert_eq!(log.default_fan_out_count(), 1);
}
