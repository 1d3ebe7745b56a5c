//! The decision steps of resuming a suspended execution from its bytes,
//! in the order the resume runs them: the bytes must not be empty; the
//! payload must hash to the payload CID its envelope carries; a
//! suspended WAIT whose envelope record is present must still have its
//! metadata; the caller (when it names one) must be the principal the
//! bytes bind; and every subgraph pinned at suspend time must still be
//! registered. [`resume_decision`] runs the steps in that order and
//! reports the first that fails.

use vstd::prelude::*;
use vstd::string::StringExecFns;

use crate::cid::{cid_text, Cid};
use crate::error::{engine_error_code, EngineError, ErrorCode};

verus! {

/// Refuse empty envelope bytes.
pub fn check_envelope_bytes(bytes: &[u8]) -> (r: Result<(), EngineError>)
    ensures
        bytes@.len() > 0 ==> r is Ok,
        bytes@.len() == 0 ==> (r matches Err(EngineError::Other { code, message }) && code
            == ErrorCode::Serialize && message@ == "resume: envelope bytes are empty"@),
{
    if bytes.len() == 0 {
        return Err(
            EngineError::Other {
                code: ErrorCode::Serialize,
                message: String::from_str("resume: envelope bytes are empty"),
            },
        );
    }
    Ok(())
}

/// The text of a payload-CID mismatch.
pub open spec fn tampered_text(stored: Cid, recomputed: Cid) -> Seq<char> {
    "resume: payload CID mismatch (expected "@ + cid_text(stored) + ", got "@ + cid_text(recomputed)
        + ")"@
}

/// Integrity: the payload CID recomputed from the decoded envelope must
/// be the one the envelope carries; any drift is tampering.
pub fn check_payload_cid(stored: &Cid, recomputed: &Cid) -> (r: Result<(), EngineError>)
    ensures
        *stored == *recomputed ==> r is Ok,
        *stored != *recomputed ==> (r matches Err(EngineError::Other { code, message }) && code
            == ErrorCode::ExecStateTampered && message@ == tampered_text(*stored, *recomputed)),
{
    if recomputed.same_as(stored) {
        return Ok(());
    }
    let mut message = String::from_str("resume: payload CID mismatch (expected ");
    message.append(stored.to_base32().as_str());
    message.append(", got ");
    message.append(recomputed.to_base32().as_str());
    message.append(")");
    proof {
        reveal_strlit("resume: payload CID mismatch (expected ");
        reveal_strlit(", got ");
        reveal_strlit(")");
    }
    Err(EngineError::Other { code: ErrorCode::ExecStateTampered, message })
}

/// Whether a resume must fail for missing WAIT metadata: the envelope
/// record is present in the store, its metadata is absent, and the payload
/// has the shape of a real WAIT (an empty attribution chain; a fixture
/// envelope carries a non-empty one).
pub fn wait_metadata_missing(
    envelope_record_present: bool,
    metadata_present: bool,
    attribution_chain_empty: bool,
) -> (r: bool)
    ensures
        r == (envelope_record_present && !metadata_present && attribution_chain_empty),
{
    envelope_record_present && !metadata_present && attribution_chain_empty
}

/// The text of a principal-binding refusal.
pub open spec fn actor_mismatch_text() -> Seq<char> {
    "resume: principal mismatch — bytes name a different resumption principal than the caller"@
}

/// Principal binding: a caller that names a principal must name the one
/// the suspended bytes bind; a caller that names none skips the check.
pub fn check_principal_binding(caller: Option<&Cid>, resumption_principal: &Cid) -> (r: Result<
    (),
    EngineError,
>)
    ensures
        match caller {
            Some(c) if *c != *resumption_principal => r matches Err(
                EngineError::Other { code, message },
            ) && code == ErrorCode::ResumeActorMismatch && message@ == actor_mismatch_text(),
            _ => r is Ok,
        },
{
    if let Some(c) = caller {
        if !crate::bytes::bytes32_eq(&c.digest, &resumption_principal.digest) {
            return Err(
                EngineError::Other {
                    code: ErrorCode::ResumeActorMismatch,
                    message: String::from_str(
                        "resume: principal mismatch — bytes name a different resumption principal than the caller",
                    ),
                },
            );
        }
        proof {
            assert(c.digest@ == resumption_principal.digest@);
            assert(c.digest == resumption_principal.digest);
        }
    }
    Ok(())
}

/// The index of the first pinned CID not among the registered ones.
pub open spec fn first_unregistered(pinned: Seq<Cid>, registered: Seq<Cid>) -> Option<int>
    decreases pinned.len(),
{
    if pinned.len() == 0 {
        None
    } else if !registered.contains(pinned[0]) {
        Some(0)
    } else {
        match first_unregistered(pinned.subrange(1, pinned.len() as int), registered) {
            Some(i) => Some(i + 1),
            None => None,
        }
    }
}

/// Whether `c` is among `registered`.
fn is_registered(c: &Cid, registered: &Vec<Cid>) -> (r: bool)
    ensures
        r == registered@.contains(*c),
{
    let n = registered.len();
    let mut i: usize = 0;
    while i < n
        invariant
            n == registered@.len(),
            i <= n,
            forall|j: int| 0 <= j < i ==> registered@[j] != *c,
        decreases n - i,
    {
        let r = &registered[i];
        if crate::bytes::bytes32_eq(&r.digest, &c.digest) {
            proof {
                assert(r.digest == c.digest);
            }
            return true;
        }
        proof {
            assert(r.digest@ != c.digest@);
        }
        i += 1;
    }
    false
}

/// Subgraph drift: the first CID pinned at suspend time that is no longer
/// registered under any handler, if any.
pub fn first_unregistered_pin(pinned: &Vec<Cid>, registered: &Vec<Cid>) -> (r: Option<Cid>)
    ensures
        match first_unregistered(pinned@, registered@) {
            Some(i) => r == Some(pinned@[i]),
            None => r is None,
        },
{
    let n = pinned.len();
    let mut i: usize = 0;
    assert(pinned@.subrange(0, n as int) =~= pinned@);
    while i < n
        invariant
            n == pinned@.len(),
            i <= n,
            match first_unregistered(pinned@, registered@) {
                Some(k) => match first_unregistered(pinned@.subrange(i as int, n as int), registered@) {
                    Some(j) => k == j + i,
                    None => false,
                },
                None => first_unregistered(pinned@.subrange(i as int, n as int), registered@) is None,
            },
        decreases n - i,
    {
        let ghost rest = pinned@.subrange(i as int, n as int);
        assert(rest.subrange(1, rest.len() as int) =~= pinned@.subrange(i + 1, n as int));
        assert(rest[0] == pinned@[i as int]);
        if !is_registered(&pinned[i], registered) {
            return Some(pinned[i]);
        }
        i += 1;
    }
    None
}

/// What the resume reads from decoded envelope bytes: the payload CID the
/// envelope carries and the one recomputed from its payload, the
/// envelope's state CID, the principal the bytes bind, whether the
/// payload's attribution chain is empty, and the subgraph CIDs pinned at
/// suspend time.
#[derive(Debug, Clone)]
pub struct ResumeEnvelopeFacts {
    /// The payload CID the envelope carries.
    pub payload_cid: Cid,
    /// The payload CID recomputed from the decoded payload.
    pub recomputed_payload_cid: Cid,
    /// The envelope's state CID (its key in the suspension store).
    pub state_cid: Cid,
    /// The resumption principal the bytes bind.
    pub resumption_principal: Cid,
    /// Whether the payload's attribution chain is empty.
    pub attribution_chain_empty: bool,
    /// The subgraph CIDs pinned at suspend time.
    pub pinned_subgraph_cids: Vec<Cid>,
}

/// The text of a missing-WAIT-metadata refusal.
pub open spec fn metadata_missing_text(state_cid: Cid) -> Seq<char> {
    "resume: WAIT metadata missing for envelope "@ + cid_text(state_cid)
        + " (envelope record present in SuspensionStore but metadata side absent — cross-process resume against divergent store, fabricated half-record, or partial GC corruption): E_WAIT_METADATA_MISSING"@
}

/// The text of a subgraph-drift refusal.
pub open spec fn drift_text(pinned: Cid) -> Seq<char> {
    "resume: pinned subgraph CID "@ + cid_text(pinned) + " no longer registered"@
}

/// What a resume answers, step by step in protocol order: `Ok`, an error
/// the resume makes itself (`Err(Ok((code, message)))`), or an error a
/// later check reported, handed through (`Err(Err(e))`).
///
/// The steps: empty bytes; bytes that did not decode; payload-CID drift
/// (tampering); a real WAIT envelope whose metadata is gone; the WAIT
/// metadata check (only where metadata is stored); principal binding
/// (only where the caller names a principal); pinned-subgraph drift; the
/// capability-snapshot and policy re-checks.
pub open spec fn resume_verdict(
    bytes_len: nat,
    decoded: Result<ResumeEnvelopeFacts, String>,
    envelope_record_present: bool,
    metadata_present: bool,
    wait_check: Result<(), EngineError>,
    caller: Option<Cid>,
    registered: Seq<Cid>,
    policy_checks: Result<(), EngineError>,
) -> Result<(), Result<(ErrorCode, Seq<char>), EngineError>> {
    if bytes_len == 0 {
        Err(Ok((ErrorCode::Serialize, "resume: envelope bytes are empty"@)))
    } else {
        match decoded {
            Err(d) => Err(Ok((ErrorCode::Serialize, "resume: envelope decode: "@ + d@))),
            Ok(env) => if env.recomputed_payload_cid != env.payload_cid {
                Err(
                    Ok(
                        (
                            ErrorCode::ExecStateTampered,
                            tampered_text(env.payload_cid, env.recomputed_payload_cid),
                        ),
                    ),
                )
            } else if envelope_record_present && !metadata_present && env.attribution_chain_empty {
                Err(Ok((ErrorCode::WaitMetadataMissing, metadata_missing_text(env.state_cid))))
            } else if metadata_present && wait_check is Err {
                Err(Err(wait_check->Err_0))
            } else if caller matches Some(c) && c != env.resumption_principal {
                Err(Ok((ErrorCode::ResumeActorMismatch, actor_mismatch_text())))
            } else {
                match first_unregistered(env.pinned_subgraph_cids@, registered) {
                    Some(i) => Err(
                        Ok(
                            (
                                ErrorCode::ResumeSubgraphDrift,
                                drift_text(env.pinned_subgraph_cids@[i]),
                            ),
                        ),
                    ),
                    None => match policy_checks {
                        Err(e) => Err(Err(e)),
                        Ok(_) => Ok(()),
                    },
                }
            },
        }
    }
}

/// Whether `r` is what `v` describes.
pub open spec fn answers(
    r: Result<(), EngineError>,
    v: Result<(), Result<(ErrorCode, Seq<char>), EngineError>>,
) -> bool {
    match v {
        Ok(_) => r is Ok,
        Err(Ok((code, message))) => r matches Err(EngineError::Other { code: c, message: m }) && c
            == code && m@ == message,
        Err(Err(e)) => r == Err::<(), EngineError>(e),
    }
}

/// The resume decision: run the steps in protocol order over what the
/// resume read and what the outside checks reported, and answer the first
/// that fails.
///
/// `bytes` are the envelope bytes; `decoded` what decoding them gave;
/// `envelope_record_present` / `metadata_present` what the suspension
/// store holds under the envelope's state CID; `wait_check` what the WAIT
/// metadata check (TTL and resume-signal validation) reported, consulted
/// only where metadata is stored; `caller` the principal the caller names,
/// if any; `registered` the subgraph CIDs registered now; `policy_checks`
/// what the capability-snapshot and policy re-checks reported. The
/// decision reads nothing else and changes nothing.
pub fn resume_decision(
    bytes: &[u8],
    decoded: Result<ResumeEnvelopeFacts, String>,
    envelope_record_present: bool,
    metadata_present: bool,
    wait_check: Result<(), EngineError>,
    caller: Option<&Cid>,
    registered: &Vec<Cid>,
    policy_checks: Result<(), EngineError>,
) -> (r: Result<(), EngineError>)
    ensures
        answers(
            r,
            resume_verdict(
                bytes@.len(),
                decoded,
                envelope_record_present,
                metadata_present,
                wait_check,
                match caller {
                    Some(c) => Some(*c),
                    None => None,
                },
                registered@,
                policy_checks,
            ),
        ),
{
    if let Err(e) = check_envelope_bytes(bytes) {
        return Err(e);
    }
    let env = match decoded {
        Ok(env) => env,
        Err(d) => {
            let mut message = String::from_str("resume: envelope decode: ");
            message.append(d.as_str());
            proof {
                reveal_strlit("resume: envelope decode: ");
            }
            return Err(EngineError::Other { code: ErrorCode::Serialize, message });
        },
    };
    if let Err(e) = check_payload_cid(&env.payload_cid, &env.recomputed_payload_cid) {
        return Err(e);
    }
    if wait_metadata_missing(envelope_record_present, metadata_present, env.attribution_chain_empty) {
        let mut message = String::from_str("resume: WAIT metadata missing for envelope ");
        message.append(env.state_cid.to_base32().as_str());
        message.append(
            " (envelope record present in SuspensionStore but metadata side absent — cross-process resume against divergent store, fabricated half-record, or partial GC corruption): E_WAIT_METADATA_MISSING",
        );
        proof {
            reveal_strlit("resume: WAIT metadata missing for envelope ");
            reveal_strlit(
                " (envelope record present in SuspensionStore but metadata side absent — cross-process resume against divergent store, fabricated half-record, or partial GC corruption): E_WAIT_METADATA_MISSING",
            );
        }
        return Err(EngineError::Other { code: ErrorCode::WaitMetadataMissing, message });
    }
    if metadata_present {
        if let Err(e) = wait_check {
            return Err(e);
        }
    }
    if let Err(e) = check_principal_binding(caller, &env.resumption_principal) {
        return Err(e);
    }
    if let Some(pinned) = first_unregistered_pin(&env.pinned_subgraph_cids, registered) {
        let mut message = String::from_str("resume: pinned subgraph CID ");
        message.append(pinned.to_base32().as_str());
        message.append(" no longer registered");
        proof {
            reveal_strlit("resume: pinned subgraph CID ");
            reveal_strlit(" no longer registered");
        }
        return Err(EngineError::Other { code: ErrorCode::ResumeSubgraphDrift, message });
    }
    policy_checks
}

/// Tampering is reported before a principal mismatch: whatever principal
/// the caller names, bytes whose payload CID drifted answer
/// `ExecStateTampered`.
pub proof fn lemma_tamper_before_principal(
    bytes_len: nat,
    env: ResumeEnvelopeFacts,
    record: bool,
    meta: bool,
    wait_check: Result<(), EngineError>,
    caller: Option<Cid>,
    registered: Seq<Cid>,
    policy_checks: Result<(), EngineError>,
)
    requires
        bytes_len > 0,
        env.recomputed_payload_cid != env.payload_cid,
    ensures
        resume_verdict(bytes_len, Ok(env), record, meta, wait_check, caller, registered, policy_checks)
            matches Err(Ok((code, _))) && code == ErrorCode::ExecStateTampered,
{
}

/// The unauthenticated resume (no caller principal) answers exactly what
/// the resume bound to the principal the bytes name answers, and never a
/// principal mismatch.
pub proof fn lemma_unauthenticated_is_self_bound(
    bytes_len: nat,
    decoded: Result<ResumeEnvelopeFacts, String>,
    record: bool,
    meta: bool,
    wait_check: Result<(), EngineError>,
    registered: Seq<Cid>,
    policy_checks: Result<(), EngineError>,
)
    ensures
        !(resume_verdict(bytes_len, decoded, record, meta, wait_check, None, registered, policy_checks)
            matches Err(Ok((code, _))) && code == ErrorCode::ResumeActorMismatch),
        decoded is Ok ==> resume_verdict(
            bytes_len,
            decoded,
            record,
            meta,
            wait_check,
            None,
            registered,
            policy_checks,
        ) == resume_verdict(
            bytes_len,
            decoded,
            record,
            meta,
            wait_check,
            Some(decoded->Ok_0.resumption_principal),
            registered,
            policy_checks,
        ),
{
}

/// The unauthenticated resume never answers a principal mismatch: where
/// the outside checks it is handed do not themselves report one, no error
/// it answers carries that code.
pub proof fn lemma_unauthenticated_never_actor_mismatch(
    bytes_len: nat,
    decoded: Result<ResumeEnvelopeFacts, String>,
    record: bool,
    meta: bool,
    wait_check: Result<(), EngineError>,
    registered: Seq<Cid>,
    policy_checks: Result<(), EngineError>,
)
    requires
        !(wait_check matches Err(e) && engine_error_code(e) == ErrorCode::ResumeActorMismatch),
        !(policy_checks matches Err(e) && engine_error_code(e) == ErrorCode::ResumeActorMismatch),
    ensures
        match resume_verdict(bytes_len, decoded, record, meta, wait_check, None, registered, policy_checks) {
            Ok(_) => true,
            Err(Ok((code, _))) => code != ErrorCode::ResumeActorMismatch,
            Err(Err(e)) => engine_error_code(e) != ErrorCode::ResumeActorMismatch,
        },
{
}

} // verus!
