use benten_engine::cid::Cid;
use benten_engine::error::{EngineError, ErrorCode};
use benten_engine::resume_protocol::{
    check_envelope_bytes, check_payload_cid, check_principal_binding, first_unregistered_pin,
    resume_decision, wait_metadata_missing, ResumeEnvelopeFacts,
};

fn cid(b: u8) -> Cid {
    Cid::from_blake3_digest([b; 32])
}

#[test]
fn empty_bytes_are_refused() {
    assert_eq!(
        check_envelope_bytes(&[]),
        Err(EngineError::Other {
            code: ErrorCode::Serialize,
            message: "resume: envelope bytes are empty".into()
        })
    );
    assert!(check_envelope_bytes(&[0xa1]).is_ok());
}

#[test]
fn metadata_missing_only_for_real_wait_envelopes() {
    assert!(wait_metadata_missing(true, false, true));
    assert!(!wait_metadata_missing(true, false, false));
    assert!(!wait_metadata_missing(false, false, true));
    assert!(!wait_metadata_missing(true, true, true));
}

#[test]
fn principal_binding_applies_only_when_named() {
    assert!(check_principal_binding(None, &cid(1)).is_ok());
    assert!(check_principal_binding(Some(&cid(1)), &cid(1)).is_ok());
    let e = check_principal_binding(Some(&cid(2)), &cid(1)).unwrap_err();
    assert_eq!(e.code(), ErrorCode::ResumeActorMismatch);
}

#[test]
fn first_drifted_pin_is_reported() {
    let registered = vec![cid(1), cid(2)];
    assert_eq!(first_unregistered_pin(&vec![cid(1), cid(2)], &registered), None);
    assert_eq!(
        first_unregistered_pin(&vec![cid(1), cid(3), cid(4)], &registered),
        Some(cid(3))
    );
    assert_eq!(first_unregistered_pin(&vec![], &registered), None);
}

#[test]
fn cid_text_is_multibase_base32() {
    assert_eq!(
        Cid::from_blake3_digest([0u8; 32]).to_base32(),
        "bafyr4iaaaaaaaaaaaaaaaaaaaaaaaaaaaaaaaaaaaaaaaaaaaaaaaaaaaa"
    );
    let mut d = [0u8; 32];
    for (i, b) in d.iter_mut().enumerate() {
        *b = i as u8;
    }
    assert_eq!(
        Cid::from_blake3_digest(d).to_base32(),
        "bafyr4iaaaebagbafaydqqcikbmga2dqpcaireeyuculbogazdinryhi6d4"
    );
}

#[test]
fn payload_cid_drift_is_tampering() {
    let stored = Cid::from_blake3_digest([0u8; 32]);
    assert!(check_payload_cid(&stored, &stored).is_ok());
    let mut d = [0u8; 32];
    for (i, b) in d.iter_mut().enumerate() {
        *b = i as u8;
    }
    let recomputed = Cid::from_blake3_digest(d);
    assert_eq!(
        check_payload_cid(&stored, &recomputed),
        Err(EngineError::Other {
            code: ErrorCode::ExecStateTampered,
            message: "resume: payload CID mismatch (expected bafyr4iaaaaaaaaaaaaaaaaaaaaaaaaaaaaaaaaaaaaaaaaaaaaaaaaaaaa, got bafyr4iaaaebagbafaydqqcikbmga2dqpcaireeyuculbogazdinryhi6d4)".into(),
        })
    );
}

fn facts(pinned: Vec<Cid>) -> ResumeEnvelopeFacts {
    ResumeEnvelopeFacts {
        payload_cid: cid(1),
        recomputed_payload_cid: cid(1),
        state_cid: Cid::from_blake3_digest([0u8; 32]),
        resumption_principal: cid(7),
        attribution_chain_empty: true,
        pinned_subgraph_cids: pinned,
    }
}

fn code_of(r: Result<(), EngineError>) -> Option<ErrorCode> {
    match r {
        Err(EngineError::Other { code, .. }) => Some(code),
        _ => None,
    }
}

#[test]
fn resume_reports_the_first_failing_step() {
    let registered = vec![cid(3)];
    // Empty bytes come first.
    assert_eq!(
        code_of(resume_decision(&[], Err("x".into()), true, false, Ok(()), Some(&cid(9)), &registered, Ok(()))),
        Some(ErrorCode::Serialize)
    );
    assert_eq!(
        resume_decision(&[1], Err("bad map".into()), false, false, Ok(()), None, &registered, Ok(())),
        Err(EngineError::Other { code: ErrorCode::Serialize, message: "resume: envelope decode: bad map".into() })
    );
    // Tampering is reported before a principal mismatch.
    let mut tampered = facts(vec![cid(3)]);
    tampered.recomputed_payload_cid = cid(2);
    assert_eq!(
        code_of(resume_decision(&[1], Ok(tampered), false, false, Ok(()), Some(&cid(9)), &registered, Ok(()))),
        Some(ErrorCode::ExecStateTampered)
    );
    // Missing WAIT metadata.
    assert_eq!(
        resume_decision(&[1], Ok(facts(vec![])), true, false, Ok(()), None, &registered, Ok(())),
        Err(EngineError::Other {
            code: ErrorCode::WaitMetadataMissing,
            message: "resume: WAIT metadata missing for envelope bafyr4iaaaaaaaaaaaaaaaaaaaaaaaaaaaaaaaaaaaaaaaaaaaaaaaaaaaa (envelope record present in SuspensionStore but metadata side absent — cross-process resume against divergent store, fabricated half-record, or partial GC corruption): E_WAIT_METADATA_MISSING".into(),
        })
    );
    // The WAIT check reports only where metadata is stored.
    let ttl = EngineError::Other { code: ErrorCode::Unknown("E_WAIT_TTL_EXPIRED".into()), message: "ttl".into() };
    assert_eq!(
        resume_decision(&[1], Ok(facts(vec![])), true, true, Err(ttl.clone()), None, &registered, Ok(())),
        Err(ttl.clone())
    );
    assert!(resume_decision(&[1], Ok(facts(vec![])), false, false, Err(ttl), None, &registered, Ok(())).is_ok());
    // Principal mismatch, then drift, then the policy re-checks.
    assert_eq!(
        code_of(resume_decision(&[1], Ok(facts(vec![cid(4)])), false, false, Ok(()), Some(&cid(9)), &registered, Ok(()))),
        Some(ErrorCode::ResumeActorMismatch)
    );
    assert_eq!(
        code_of(resume_decision(&[1], Ok(facts(vec![cid(3), cid(4)])), false, false, Ok(()), Some(&cid(7)), &registered, Ok(()))),
        Some(ErrorCode::ResumeSubgraphDrift)
    );
    let denied = EngineError::Other { code: ErrorCode::Unknown("E_CAP_REVOKED_MID_EVAL".into()), message: "no".into() };
    assert_eq!(
        resume_decision(&[1], Ok(facts(vec![cid(3)])), false, false, Ok(()), None, &registered, Err(denied.clone())),
        Err(denied)
    );
    // The unauthenticated resume answers what the self-bound one answers.
    assert!(resume_decision(&[1], Ok(facts(vec![cid(3)])), false, false, Ok(()), None, &registered, Ok(())).is_ok());
    assert!(resume_decision(&[1], Ok(facts(vec![cid(3)])), false, false, Ok(()), Some(&cid(7)), &registered, Ok(())).is_ok());
}
