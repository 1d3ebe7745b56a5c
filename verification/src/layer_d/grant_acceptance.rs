//! Layer-D remote-permission grant-acceptance pipeline: the six-class
//! freeze-gate harness.
//!
//! The six pass-classes, checked in the mandated order (audit binding
//! first, confused-deputy before the time window):
//!   1. replay (a `jti` already in the nonce-cache);
//!   2. device-key revocation;
//!   3. clock skew (`present > valid_until` rejects; no grace window);
//!   4. confused deputy (audience mismatch);
//!   5. UI deception (displayed summary hash differs from the bound one);
//!   6. audit-Node binding (`audit_node_cid` absent or unresolvable).

use vstd::prelude::*;

use crate::bytes::{bytes32_eq, bytes_eq};
use crate::digest_set::DigestSet;

verus! {

/// The six grant-rejection pass-classes (the frozen roster).
#[derive(Debug, PartialEq, Eq, Hash, Clone, Copy, Structural)]
pub enum GrantRejection {
    /// Class 1 — replayed `jti` (nonce-cache hit).
    Replay,
    /// Class 2 — issuer device key was revoked.
    DeviceKeyRevoked,
    /// Class 3 — `valid_until` enforcement clock expired (strict).
    Expired,
    /// Class 4 — audience mismatch (checked before the time window).
    ConfusedDeputy,
    /// Class 5 — displayed operation-summary hash differs from the bound one.
    UiSummaryMismatch,
    /// Class 6 — `audit_node_cid` absent or unresolvable.
    AuditNodeMissing,
}

/// The roster slot of each pass-class.
pub open spec fn roster_slot(r: GrantRejection) -> usize {
    match r {
        GrantRejection::Replay => 0,
        GrantRejection::DeviceKeyRevoked => 1,
        GrantRejection::Expired => 2,
        GrantRejection::ConfusedDeputy => 3,
        GrantRejection::UiSummaryMismatch => 4,
        GrantRejection::AuditNodeMissing => 5,
    }
}

impl GrantRejection {
    /// The frozen roster: every pass-class exactly once, in roster order.
    pub const ALL: [GrantRejection; 6] = [
        GrantRejection::Replay,
        GrantRejection::DeviceKeyRevoked,
        GrantRejection::Expired,
        GrantRejection::ConfusedDeputy,
        GrantRejection::UiSummaryMismatch,
        GrantRejection::AuditNodeMissing,
    ];

    /// The pass-class's slot in the frozen roster (a wildcard-free match).
    pub fn roster_index(self) -> (i: usize)
        ensures
            i == roster_slot(self),
    {
        match self {
            GrantRejection::Replay => 0,
            GrantRejection::DeviceKeyRevoked => 1,
            GrantRejection::Expired => 2,
            GrantRejection::ConfusedDeputy => 3,
            GrantRejection::UiSummaryMismatch => 4,
            GrantRejection::AuditNodeMissing => 5,
        }
    }
}

/// The roster is consistent: entry `i` of [`GrantRejection::ALL`] sits at
/// roster slot `i`, and every pass-class sits at exactly one slot of the
/// roster, so the roster enumerates the six classes once each.
pub proof fn lemma_roster_consistent()
    ensures
        forall|i: int| 0 <= i < 6 ==> roster_slot(#[trigger] GrantRejection::ALL@[i]) == i,
        forall|r: GrantRejection| #[trigger] roster_slot(r) < 6 && GrantRejection::ALL@[roster_slot(
            r,
        ) as int] == r,
{
    assert(GrantRejection::ALL@ == seq![
        GrantRejection::Replay,
        GrantRejection::DeviceKeyRevoked,
        GrantRejection::Expired,
        GrantRejection::ConfusedDeputy,
        GrantRejection::UiSummaryMismatch,
        GrantRejection::AuditNodeMissing,
    ]);
}

/// The grant and its acceptance context. The nonce cache is the
/// caller-supplied per-device `jti` set, mutated on admit.
pub struct GrantAcceptanceContext<'a> {
    /// The grant's `jti` (replay key).
    pub jti: [u8; 32],
    /// The per-device `jti` nonce-cache (mutated on admit).
    pub nonce_cache: &'a mut DigestSet,
    /// The revoked device-key set.
    pub revoked_device_keys: &'a DigestSet,
    /// The issuer device key (checked against the revocation set).
    pub issuer_device_key: [u8; 32],
    /// The audience the operation was requested for.
    pub requested_audience: Vec<u8>,
    /// The audience the grant was issued to.
    pub grant_audience: Vec<u8>,
    /// The full-granularity `valid_until` enforcement clock.
    pub valid_until: u64,
    /// The current time (seconds).
    pub now_secs: u64,
    /// The operation-summary hash the operator was shown.
    pub displayed_summary_hash: [u8; 32],
    /// The operation-summary hash bound into the signed grant.
    pub bound_summary_hash: [u8; 32],
    /// The grant's audit-Node CID.
    pub audit_node_cid: Option<[u8; 32]>,
    /// Which audit-Node CIDs are resolvable (replicated).
    pub resolvable_audit_cids: &'a DigestSet,
}

/// The first failing pass-class, in the mandated order, or `None` when
/// the grant is admitted.
pub open spec fn grant_verdict(
    jti: Seq<u8>,
    nonce_cache: Set<Seq<u8>>,
    revoked_device_keys: Set<Seq<u8>>,
    issuer_device_key: Seq<u8>,
    requested_audience: Seq<u8>,
    grant_audience: Seq<u8>,
    valid_until: u64,
    now_secs: u64,
    displayed_summary_hash: Seq<u8>,
    bound_summary_hash: Seq<u8>,
    audit_node_cid: Option<Seq<u8>>,
    resolvable_audit_cids: Set<Seq<u8>>,
) -> Option<GrantRejection> {
    if audit_node_cid is None || !resolvable_audit_cids.contains(audit_node_cid->0) {
        Some(GrantRejection::AuditNodeMissing)
    } else if nonce_cache.contains(jti) {
        Some(GrantRejection::Replay)
    } else if revoked_device_keys.contains(issuer_device_key) {
        Some(GrantRejection::DeviceKeyRevoked)
    } else if requested_audience != grant_audience {
        Some(GrantRejection::ConfusedDeputy)
    } else if displayed_summary_hash != bound_summary_hash {
        Some(GrantRejection::UiSummaryMismatch)
    } else if now_secs > valid_until {
        Some(GrantRejection::Expired)
    } else {
        None
    }
}

/// Once a grant is admitted, its `jti` is refused as a replay by every
/// later presentation whose audit Node resolves, whatever else it
/// carries: the nonce-cache the admission left holds the `jti`.
pub proof fn lemma_admitted_jti_replays(
    jti: Seq<u8>,
    cache: Set<Seq<u8>>,
    revoked_device_keys: Set<Seq<u8>>,
    issuer_device_key: Seq<u8>,
    requested_audience: Seq<u8>,
    grant_audience: Seq<u8>,
    valid_until: u64,
    now_secs: u64,
    displayed_summary_hash: Seq<u8>,
    bound_summary_hash: Seq<u8>,
    audit_node_cid: Seq<u8>,
    resolvable_audit_cids: Set<Seq<u8>>,
)
    requires
        resolvable_audit_cids.contains(audit_node_cid),
    ensures
        grant_verdict(
            jti,
            cache.insert(jti),
            revoked_device_keys,
            issuer_device_key,
            requested_audience,
            grant_audience,
            valid_until,
            now_secs,
            displayed_summary_hash,
            bound_summary_hash,
            Some(audit_node_cid),
            resolvable_audit_cids,
        ) == Some(GrantRejection::Replay),
{
}

/// The audit-Node CID as a byte sequence.
pub open spec fn audit_view(a: Option<[u8; 32]>) -> Option<Seq<u8>> {
    match a {
        Some(c) => Some(c@),
        None => None,
    }
}

impl<'a> GrantAcceptanceContext<'a> {
    /// The verdict of the pipeline on this context.
    pub open spec fn verdict(&self) -> Option<GrantRejection> {
        grant_verdict(
            self.jti@,
            self.nonce_cache@,
            self.revoked_device_keys@,
            self.issuer_device_key@,
            self.requested_audience@,
            self.grant_audience@,
            self.valid_until,
            self.now_secs,
            self.displayed_summary_hash@,
            self.bound_summary_hash@,
            audit_view(self.audit_node_cid),
            self.resolvable_audit_cids@,
        )
    }
}

/// Run the six-class grant-acceptance pipeline. Returns `Ok(())` and
/// records the `jti` on admit; otherwise the first failing pass-class in
/// the mandated order, with the nonce-cache unchanged.
pub fn accept_grant(ctx: GrantAcceptanceContext<'_>) -> (r: Result<(), GrantRejection>)
    requires
        old(ctx.nonce_cache).wf(),
    ensures
        r == match ctx.verdict() {
            Some(e) => Err::<(), GrantRejection>(e),
            None => Ok(()),
        },
        final(ctx.nonce_cache).wf(),
        final(ctx.nonce_cache)@ == if r is Ok {
            old(ctx.nonce_cache)@.insert(ctx.jti@)
        } else {
            old(ctx.nonce_cache)@
        },
{
    let audit = match ctx.audit_node_cid {
        Some(a) => a,
        None => {
            return Err(GrantRejection::AuditNodeMissing);
        },
    };
    if !ctx.resolvable_audit_cids.contains(&audit) {
        return Err(GrantRejection::AuditNodeMissing);
    }
    if ctx.nonce_cache.contains(&ctx.jti) {
        return Err(GrantRejection::Replay);
    }
    if ctx.revoked_device_keys.contains(&ctx.issuer_device_key) {
        return Err(GrantRejection::DeviceKeyRevoked);
    }
    if !bytes_eq(ctx.requested_audience.as_slice(), ctx.grant_audience.as_slice()) {
        return Err(GrantRejection::ConfusedDeputy);
    }
    if !bytes32_eq(&ctx.displayed_summary_hash, &ctx.bound_summary_hash) {
        return Err(GrantRejection::UiSummaryMismatch);
    }
    if ctx.now_secs > ctx.valid_until {
        return Err(GrantRejection::Expired);
    }
    ctx.nonce_cache.insert(ctx.jti);
    Ok(())
}

} // verus!
