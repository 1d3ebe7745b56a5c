use benten_engine::cid::Cid;
use benten_engine::handler_versions::{
    decode_version_entry, handler_version_chain_with_anchor, make_version_node, rebuild_chain,
    rehydrate_handler_chain, rehydrate_handler_version_chains, HandlerVersionChain,
    StoredVersionNode, HANDLER_VERSION_LABEL,
};
use benten_engine::property::PropertyValue;

fn cid(b: u8) -> Cid {
    Cid { digest: [b; 32] }
}

fn stored(handler: &str, version: u8, seq: i64) -> StoredVersionNode {
    StoredVersionNode {
        handler_id: Some(PropertyValue::Text(handler.to_string())),
        version_cid: Some(cid(version)),
        seq: Some(PropertyValue::Int(seq)),
    }
}

#[test]
fn version_chain_accessors() {
    let chain = HandlerVersionChain { anchor: Some(cid(1)), versions: vec![cid(3), cid(2), cid(1)] };
    assert_eq!(chain.current_version_cid(), Some(cid(3)));
    assert_eq!(chain.anchor_cid(), Some(cid(1)));
    assert_eq!(chain.versions(), &[cid(3), cid(2), cid(1)]);
    assert_eq!(chain.fetch_version(&cid(2)), Some(cid(2)));
    assert_eq!(chain.fetch_version(&cid(9)), None);
    let empty = HandlerVersionChain { anchor: None, versions: vec![] };
    assert_eq!(empty.current_version_cid(), None);
}

#[test]
fn chain_with_anchor_roots_at_oldest_version() {
    assert!(handler_version_chain_with_anchor(vec![]).is_none());
    let c = handler_version_chain_with_anchor(vec![cid(3), cid(2), cid(1)]).unwrap();
    assert_eq!(c.anchor, Some(cid(1)));
    assert_eq!(c.versions, vec![cid(3), cid(2), cid(1)]);
}

#[test]
fn version_node_carries_registration() {
    assert_eq!(HANDLER_VERSION_LABEL, "system:HandlerVersion");
    let n = make_version_node("h", &cid(2), Some(&cid(1)), 1);
    assert_eq!(n.handler_id, "h");
    assert_eq!(n.version_cid, cid(2));
    assert_eq!(n.predecessor_cid, Some(cid(1)));
    assert_eq!(n.seq, 1);
    let first = make_version_node("h", &cid(1), None, 0);
    assert_eq!(first.predecessor_cid, None);
    assert_eq!(make_version_node("h", &cid(1), None, u64::MAX).seq, i64::MAX);
}

#[test]
fn decode_skips_malformed_entries() {
    assert_eq!(decode_version_entry(&stored("h", 1, 4)), Some(("h".to_string(), 4, cid(1))));
    assert_eq!(decode_version_entry(&stored("h", 1, -1)), None);
    let no_cid = StoredVersionNode {
        handler_id: Some(PropertyValue::Text("h".to_string())),
        version_cid: None,
        seq: Some(PropertyValue::Int(0)),
    };
    assert_eq!(decode_version_entry(&no_cid), None);
    let bad_id = StoredVersionNode {
        handler_id: Some(PropertyValue::Int(3)),
        version_cid: Some(cid(1)),
        seq: Some(PropertyValue::Int(0)),
    };
    assert_eq!(decode_version_entry(&bad_id), None);
}

#[test]
fn rebuild_is_newest_first_whatever_the_store_order() {
    assert_eq!(rebuild_chain(&vec![(2, cid(3)), (0, cid(1)), (1, cid(2))]), vec![cid(3), cid(2), cid(1)]);
    assert_eq!(rebuild_chain(&vec![(0, cid(1)), (1, cid(2)), (2, cid(3))]), vec![cid(3), cid(2), cid(1)]);
    // Equal sequences keep store order before the reversal.
    assert_eq!(rebuild_chain(&vec![(0, cid(1)), (0, cid(2))]), vec![cid(2), cid(1)]);
}

#[test]
fn rehydrate_groups_by_handler() {
    let nodes = vec![
        stored("a", 2, 1),
        stored("b", 7, 0),
        stored("a", 1, 0),
        stored("a", 9, -3),
        StoredVersionNode { handler_id: None, version_cid: Some(cid(5)), seq: Some(PropertyValue::Int(0)) },
    ];
    assert_eq!(rehydrate_handler_chain(&nodes, "a"), vec![cid(2), cid(1)]);
    assert_eq!(rehydrate_handler_chain(&nodes, "z"), vec![]);
    let all = rehydrate_handler_version_chains(&nodes);
    assert_eq!(all.len(), 2);
    assert_eq!(all[0], ("a".to_string(), vec![cid(2), cid(1)]));
    assert_eq!(all[1], ("b".to_string(), vec![cid(7)]));
}
