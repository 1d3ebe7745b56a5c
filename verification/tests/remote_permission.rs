use benten_engine::layer_d::remote_permission::{
    dispatch_remote_permission_codepoint, ExecuteWorkflow, PermissionOperation,
    UnsupportedOperationCodepoint, EXEC_WORKFLOW_AAD_DOMAIN, GRANT_DOMAIN, REQUEST_DOMAIN,
};

const EXPECTED_VARIANT_COUNT: usize = 4;

const SHARED_CID: [u8; 32] = [0x5A; 32];

fn roster_index(op: &PermissionOperation) -> usize {
    match op {
        PermissionOperation::Decrypt { .. } => 0,
        PermissionOperation::SignUcanDelegation { .. } => 1,
        PermissionOperation::RemoteUnlock => 2,
        PermissionOperation::ExecuteWorkflow { .. } => 3,
        _ => usize::MAX,
    }
}

fn roster() -> [(&'static str, PermissionOperation); EXPECTED_VARIANT_COUNT] {
    [
        (
            "Decrypt",
            PermissionOperation::Decrypt {
                node_cid: SHARED_CID,
            },
        ),
        (
            "SignUcanDelegation",
            PermissionOperation::SignUcanDelegation {
                scope: b"atrium:read".to_vec(),
                audience: vec![0xAA, 0xBB],
                expires_at: 0x0102_0304_0506_0708,
            },
        ),
        ("RemoteUnlock", PermissionOperation::RemoteUnlock),
        (
            "ExecuteWorkflow",
            PermissionOperation::ExecuteWorkflow {
                workflow_cid: SHARED_CID,
            },
        ),
    ]
}

#[test]
fn e_05_operation_wire_tag_equals_frozen_roster_index() {
    let roster = roster();
    for (i, (name, op)) in roster.iter().enumerate() {
        assert_eq!(
            roster_index(op),
            i,
            "E-05: fixture `{name}` is out of frozen wire-tag order (roster slot {i})"
        );
        let wire = op.to_wire_be();
        assert!(
            !wire.is_empty(),
            "E-05: `{name}` MUST emit at least its discriminant tag byte"
        );
        assert_eq!(
            usize::from(wire[0]),
            i,
            "E-05: `{name}` MUST carry the FROZEN discriminant tag 0x{i:02x}"
        );
    }
}

#[test]
fn e_06_operation_wires_pairwise_distinct_privilege_confusion_guard() {
    let roster = roster();
    for (i, (name_i, op_i)) in roster.iter().enumerate() {
        let wire_i = op_i.to_wire_be();
        for (name_j, op_j) in roster.iter().skip(i + 1) {
            let wire_j = op_j.to_wire_be();
            assert_ne!(
                wire_i[0], wire_j[0],
                "E-06: `{name_i}` and `{name_j}` MUST NOT share a discriminant tag"
            );
            assert_ne!(
                wire_i, wire_j,
                "E-06: `{name_i}` and `{name_j}` MUST NOT encode to IDENTICAL wire bytes"
            );
        }
    }
}

#[test]
fn domain_prefixes_spell_their_ascii_tags() {
    assert_eq!(&REQUEST_DOMAIN[..], b"benten-remote-permission-request-v2:");
    assert_eq!(&GRANT_DOMAIN[..], b"benten-remote-permission-grant-v2:");
    assert_eq!(&EXEC_WORKFLOW_AAD_DOMAIN[..], b"benten-exec-workflow-v1:");
}

#[test]
fn sign_ucan_delegation_wire_is_tag_then_length_prefixed_fields() {
    let op = PermissionOperation::SignUcanDelegation {
        scope: b"atrium:read".to_vec(),
        audience: vec![0xAA, 0xBB],
        expires_at: 0x0102_0304_0506_0708,
    };
    let mut expected = vec![0x01];
    expected.extend_from_slice(&11u32.to_be_bytes());
    expected.extend_from_slice(b"atrium:read");
    expected.extend_from_slice(&2u32.to_be_bytes());
    expected.extend_from_slice(&[0xAA, 0xBB]);
    expected.extend_from_slice(&0x0102_0304_0506_0708u64.to_be_bytes());
    assert_eq!(op.to_wire_be(), expected);
}

#[test]
fn codepoint_dispatch_accepts_only_the_band() {
    assert!(dispatch_remote_permission_codepoint(0x6320).is_ok());
    assert!(dispatch_remote_permission_codepoint(0x632F).is_ok());
    assert_eq!(
        dispatch_remote_permission_codepoint(0x6310),
        Err(UnsupportedOperationCodepoint(0x6310))
    );
    assert_eq!(
        dispatch_remote_permission_codepoint(0x6330),
        Err(UnsupportedOperationCodepoint(0x6330))
    );
}

#[test]
fn constraint_aad_binds_executor_budget_and_recipient() {
    let ew = ExecuteWorkflow {
        workflow_cid: [7u8; 32],
        input_node_cids: vec![[1u8; 32]],
        max_decrypt_count: 3,
        result_recipient_pubkey: [9u8; 32],
        executor_did: b"did:key:zExec".to_vec(),
    };
    let mut expected = EXEC_WORKFLOW_AAD_DOMAIN.to_vec();
    expected.extend_from_slice(&13u32.to_be_bytes());
    expected.extend_from_slice(b"did:key:zExec");
    expected.extend_from_slice(&3u32.to_be_bytes());
    expected.extend_from_slice(&[9u8; 32]);
    assert_eq!(ew.constraint_aad(), expected);
    let mut tampered = ew.clone();
    tampered.max_decrypt_count = 4;
    assert_ne!(tampered.constraint_aad(), ew.constraint_aad());
}
