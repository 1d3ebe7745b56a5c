//! Manifest-envelope recheck seam for the sync merge's per-row loop
//! (Layer 3 of the trust model), its no-op default, and the mapping from
//! a recheck outcome to the row's accept/reject.

use vstd::prelude::*;
use vstd::string::StringExecFns;

use crate::error::{EngineError, ErrorCode};
use crate::text::{has_prefix, str_starts_with};

verus! {

/// Outcome of a manifest-envelope recheck call.
#[derive(Debug, Clone, PartialEq, Eq)]
pub enum ManifestEnvelopeRecheckOutcome {
    /// No manifest-envelope chain applies to this row; the recheck passes.
    NotApplicable,
    /// A chain was found and every step fits the source plugin's `shares`
    /// policy.
    Admitted,
    /// A chain was found but a step falls outside the envelope.
    OutsideEnvelope {
        /// The plugin DID whose envelope was violated.
        offending_plugin_did: String,
        /// The cap pattern that exceeded the envelope.
        cap_pattern: String,
    },
    /// The originating peer DID is a synthesized `node-id:<N>` fallback
    /// that cannot be resolved; the row is denied (fail-closed).
    UnresolvedDeny,
}

/// Seam the foundation adapter implements to recheck one per-row write
/// originating from a remote peer.
pub trait ManifestEnvelopeRechecker {
    /// Recheck a single per-row write from `peer_did_str` in `zone` at
    /// row `key`.
    fn recheck_row(&self, peer_did_str: &str, zone: &str, key: &str) -> ManifestEnvelopeRecheckOutcome;
}

/// Default rechecker: every row is `NotApplicable`.
#[derive(Debug, Default, Clone, Copy)]
pub struct NoopManifestEnvelopeRechecker;

impl ManifestEnvelopeRechecker for NoopManifestEnvelopeRechecker {
    fn recheck_row(&self, peer_did_str: &str, zone: &str, key: &str) -> (r:
        ManifestEnvelopeRecheckOutcome)
        ensures
            r == ManifestEnvelopeRecheckOutcome::NotApplicable,
    {
        ManifestEnvelopeRecheckOutcome::NotApplicable
    }
}

/// The synthesized-fallback peer-DID form `node-id:<N>`.
pub open spec fn is_synthesized_node_id_spec(peer_did: Seq<char>) -> bool {
    has_prefix(peer_did, "node-id:"@)
}

/// Whether `peer_did_str` is a synthesized `node-id:<N>` fallback DID
/// rather than a resolvable peer DID.
pub fn is_synthesized_node_id(peer_did_str: &str) -> (r: bool)
    ensures
        r == is_synthesized_node_id_spec(peer_did_str@),
{
    str_starts_with(peer_did_str, "node-id:")
}

/// The operator-readable message of a row rejected by the recheck.
pub open spec fn row_reject_message(
    zone: Seq<char>,
    key: Seq<char>,
    offending_plugin_did: Seq<char>,
    cap_pattern: Seq<char>,
) -> Seq<char> {
    "apply_atrium_merge: manifest-envelope recheck rejected row (zone='"@ + zone + "' key='"@ + key
        + "' offending_plugin_did='"@ + offending_plugin_did + "' cap_pattern='"@ + cap_pattern
        + "'); T8 defense-in-depth at sync merge boundary"@
}

/// The operator-readable message of a row denied because its peer DID is
/// unresolved.
pub open spec fn row_unresolved_message(zone: Seq<char>, key: Seq<char>) -> Seq<char> {
    "apply_atrium_merge: manifest-envelope recheck denied row with unresolved peer DID (zone='"@
        + zone + "' key='"@ + key + "'); T8 defense-in-depth at sync merge boundary"@
}

/// The row's verdict for a recheck outcome: `NotApplicable` and
/// `Admitted` accept; `OutsideEnvelope` rejects with
/// `PluginDelegationOutsideManifestEnvelope` and a message naming the zone,
/// key, offending plugin and cap pattern; `UnresolvedDeny` rejects
/// (fail-closed) with the same code and a message naming zone and key.
pub fn outcome_to_row_reject(outcome: ManifestEnvelopeRecheckOutcome, zone: &str, key: &str) -> (r:
    Result<(), EngineError>)
    ensures
        r is Ok <==> (outcome is NotApplicable || outcome is Admitted),
        match outcome {
            ManifestEnvelopeRecheckOutcome::OutsideEnvelope { offending_plugin_did, cap_pattern } =>
                match r {
                Err(EngineError::Other { code, message }) => code
                    == ErrorCode::PluginDelegationOutsideManifestEnvelope && message@
                    == row_reject_message(zone@, key@, offending_plugin_did@, cap_pattern@),
                _ => false,
            },
            ManifestEnvelopeRecheckOutcome::UnresolvedDeny => match r {
                Err(EngineError::Other { code, message }) => code
                    == ErrorCode::PluginDelegationOutsideManifestEnvelope && message@
                    == row_unresolved_message(zone@, key@),
                _ => false,
            },
            _ => true,
        },
{
    match outcome {
        ManifestEnvelopeRecheckOutcome::NotApplicable | ManifestEnvelopeRecheckOutcome::Admitted =>
            Ok(()),
        ManifestEnvelopeRecheckOutcome::OutsideEnvelope { offending_plugin_did, cap_pattern } => {
            let mut message = String::from_str(
                "apply_atrium_merge: manifest-envelope recheck rejected row (zone='",
            );
            message.append(zone);
            message.append("' key='");
            message.append(key);
            message.append("' offending_plugin_did='");
            message.append(offending_plugin_did.as_str());
            message.append("' cap_pattern='");
            message.append(cap_pattern.as_str());
            message.append("'); T8 defense-in-depth at sync merge boundary");
            Err(
                EngineError::Other {
                    code: ErrorCode::PluginDelegationOutsideManifestEnvelope,
                    message,
                },
            )
        },
        ManifestEnvelopeRecheckOutcome::UnresolvedDeny => {
            let mut message = String::from_str(
                "apply_atrium_merge: manifest-envelope recheck denied row with unresolved peer DID (zone='",
            );
            message.append(zone);
            message.append("' key='");
            message.append(key);
            message.append("'); T8 defense-in-depth at sync merge boundary");
            Err(
                EngineError::Other {
                    code: ErrorCode::PluginDelegationOutsideManifestEnvelope,
                    message,
                },
            )
        },
    }
}

/// The verified device capability-envelope ceiling of an inbound merge:
/// the one dimension a sync row's scope can exercise, whether the writer
/// is attested to run sandboxed work.
#[derive(Debug, Clone, Copy, PartialEq, Eq, Structural)]
pub struct EnvelopeCeiling {
    /// Whether the attested writer may run sandboxed work.
    pub runs_sandbox: bool,
}

/// The message of a row whose scope exceeds the ceiling.
pub open spec fn ceiling_row_message(zone: Seq<char>, key: Seq<char>, scope: Seq<char>) -> Seq<char> {
    "apply_atrium_merge: inbound row exceeds verified device envelope-ceiling (zone='"@ + zone
        + "' key='"@ + key + "' scope='"@ + scope
        + "'): a runs_sandbox=false-attested writer cannot exercise host:sandbox:* — J8 ceiling-AND"@
}

/// The message of a delegated capability that exceeds the ceiling.
pub open spec fn ceiling_cap_message(offending: Seq<char>, zone: Seq<char>, key: Seq<char>) -> Seq<
    char,
> {
    "apply_atrium_merge: inbound writer's delegated capability '"@ + offending
        + "' exceeds the verified envelope-ceiling (zone='"@ + zone + "' key='"@ + key
        + "'): a runs_sandbox=false principal cannot exercise host:sandbox:* even via an otherwise-valid chain — cap-predicate-complete ceiling-AND"@
}

/// AND the device envelope ceiling into a merged row: without a ceiling
/// every row passes; under a ceiling that forbids sandboxed work, a row
/// whose scope starts with `host:sandbox:` is refused as forged.
pub fn envelope_ceiling_admits_row(
    ceiling: Option<&EnvelopeCeiling>,
    scope: &str,
    zone: &str,
    key: &str,
) -> (r: Result<(), EngineError>)
    ensures
        match ceiling {
            Some(c) if !c.runs_sandbox && has_prefix(scope@, "host:sandbox:"@) => r matches Err(
                EngineError::Other { code, message },
            ) && code == ErrorCode::DeviceAttestationForged && message@ == ceiling_row_message(
                zone@,
                key@,
                scope@,
            ),
            _ => r is Ok,
        },
{
    let env = match ceiling {
        Some(env) => env,
        None => {
            return Ok(());
        },
    };
    if str_starts_with(scope, "host:sandbox:") && !env.runs_sandbox {
        let mut message = String::from_str(
            "apply_atrium_merge: inbound row exceeds verified device envelope-ceiling (zone='",
        );
        message.append(zone);
        message.append("' key='");
        message.append(key);
        message.append("' scope='");
        message.append(scope);
        message.append(
            "'): a runs_sandbox=false-attested writer cannot exercise host:sandbox:* — J8 ceiling-AND",
        );
        return Err(EngineError::Other { code: ErrorCode::DeviceAttestationForged, message });
    }
    Ok(())
}

/// Refuse a merged row whose writer holds a delegated capability the
/// ceiling rejects; `first_rejected` is the first such capability
/// resource, as the capability library's shared ceiling predicate found
/// it (`None`: none is rejected).
pub fn envelope_ceiling_admits_cap_resources(first_rejected: Option<&str>, zone: &str, key: &str) -> (r:
    Result<(), EngineError>)
    ensures
        match first_rejected {
            Some(o) => r matches Err(EngineError::Other { code, message }) && code
                == ErrorCode::DeviceAttestationForged && message@ == ceiling_cap_message(
                o@,
                zone@,
                key@,
            ),
            None => r is Ok,
        },
{
    match first_rejected {
        None => Ok(()),
        Some(offending) => {
            let mut message = String::from_str(
                "apply_atrium_merge: inbound writer's delegated capability '",
            );
            message.append(offending);
            message.append("' exceeds the verified envelope-ceiling (zone='");
            message.append(zone);
            message.append("' key='");
            message.append(key);
            message.append(
                "'): a runs_sandbox=false principal cannot exercise host:sandbox:* even via an otherwise-valid chain — cap-predicate-complete ceiling-AND",
            );
            Err(EngineError::Other { code: ErrorCode::DeviceAttestationForged, message })
        },
    }
}

} // verus!
