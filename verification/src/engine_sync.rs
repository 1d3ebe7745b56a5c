//! Decision rules of peer-to-peer sync sessions: the inbound-merge gate
//! (session state, system-zone split, hop-depth bound), the verification
//! of the device-attestation envelope that precedes a CRDT payload on the
//! wire, the resolution of CRDT peer node-ids to DIDs, and the observable
//! session status.

use vstd::prelude::*;
use vstd::string::StringExecFns;

use crate::crypto::{blake3_digest, blake3_hash, ct_eq_32, ed25519_signature_valid, verify_canonical};
use crate::error::ErrorCode;
use crate::system_zones::{is_system_zone, zone_is_system_zone};
use crate::text::{decimal, push_decimal_u64, str_eq};

verus! {

/// Maximum sync hop depth an attribution may carry.
pub const SYNC_HOP_DEPTH_CAP: u32 = 8;

/// Errors of the sync surfaces; each maps to a stable catalog code.
#[derive(Debug, Clone, PartialEq, Eq)]
#[non_exhaustive]
pub enum AtriumError {
    /// A merge targeted a system zone (immutable through sync).
    DivergentCidRejected {
        /// The zone that triggered the refusal.
        target: String,
    },
    /// The session is in a state that refuses the operation.
    InvalidState {
        /// Operator-readable reason.
        reason: String,
    },
    /// A merge would push the hop depth past the cap.
    SyncHopDepthExceeded {
        /// Hop depth carried by the incoming frame.
        incoming_hop_depth: u32,
        /// The cap.
        cap: u32,
    },
    /// A device-attestation envelope failed verification.
    DeviceAttestationForged {
        /// Which check failed.
        reason: String,
    },
    /// An inbound row's clock is too far ahead of the local clock.
    HlcSkewExceeded {
        /// Local physical clock reading.
        local_physical_ms: u64,
        /// Remote physical clock reading.
        remote_physical_ms: u64,
        /// Tolerated skew.
        tolerance_ms: u64,
    },
    /// An inbound entry's bytes do not hash to its declared CID.
    MstEntryCidByteMismatch {
        /// Declared CID, as hex.
        declared_cid: String,
        /// Computed CID, as hex.
        computed_cid: String,
    },
}

impl AtriumError {
    /// The stable catalog code of this error.
    pub fn code(&self) -> (c: ErrorCode)
        ensures
            c == match self {
                AtriumError::DivergentCidRejected { .. } => ErrorCode::SyncDivergentCidRejected,
                AtriumError::InvalidState { .. } => ErrorCode::AtriumInactive,
                AtriumError::SyncHopDepthExceeded { .. } => ErrorCode::SyncHopDepthExceeded,
                AtriumError::DeviceAttestationForged { .. } => ErrorCode::DeviceAttestationForged,
                AtriumError::HlcSkewExceeded { .. } => ErrorCode::SyncHlcDrift,
                AtriumError::MstEntryCidByteMismatch { .. } => ErrorCode::SyncHashMismatch,
            },
    {
        match self {
            AtriumError::DivergentCidRejected { .. } => ErrorCode::SyncDivergentCidRejected,
            AtriumError::InvalidState { .. } => ErrorCode::AtriumInactive,
            AtriumError::SyncHopDepthExceeded { .. } => ErrorCode::SyncHopDepthExceeded,
            AtriumError::DeviceAttestationForged { .. } => ErrorCode::DeviceAttestationForged,
            AtriumError::HlcSkewExceeded { .. } => ErrorCode::SyncHlcDrift,
            AtriumError::MstEntryCidByteMismatch { .. } => ErrorCode::SyncHashMismatch,
        }
    }
}

/// The reason an inactive session gives for refusing `op`.
pub open spec fn inactive_reason(op: Seq<char>) -> Seq<char> {
    "atrium handle is inactive (post-leave); "@ + op + " requires rejoin()"@
}

/// Refuse a sync-touching operation `op` on an inactive session.
pub fn ensure_active(is_active: bool, op: &str) -> (r: Result<(), AtriumError>)
    ensures
        is_active ==> r is Ok,
        !is_active ==> (r matches Err(AtriumError::InvalidState { reason }) && reason@
            == inactive_reason(op@)),
{
    if is_active {
        Ok(())
    } else {
        let mut reason = String::from_str("atrium handle is inactive (post-leave); ");
        reason.append(op);
        reason.append(" requires rejoin()");
        Err(AtriumError::InvalidState { reason })
    }
}

/// Gate an inbound merge into `zone` carrying `incoming_hop_depth`, before
/// any CRDT state is touched: an inactive session refuses it; a
/// system-zone target is refused as divergent; a hop depth whose successor
/// overflows or exceeds [`SYNC_HOP_DEPTH_CAP`] is refused. Otherwise the
/// merged attribution carries the successor depth.
pub fn admit_inbound_merge(is_active: bool, zone: &str, incoming_hop_depth: u32) -> (r: Result<
    u32,
    AtriumError,
>)
    ensures
        !is_active ==> (r matches Err(AtriumError::InvalidState { reason }) && reason@
            == inactive_reason("merge_remote_change_with_hop_depth"@)),
        is_active && is_system_zone(zone@) ==> (r matches Err(
            AtriumError::DivergentCidRejected { target },
        ) && target@ == zone@),
        is_active && !is_system_zone(zone@) && incoming_hop_depth + 1 > SYNC_HOP_DEPTH_CAP ==> r
            == Err::<u32, AtriumError>(
            AtriumError::SyncHopDepthExceeded { incoming_hop_depth, cap: SYNC_HOP_DEPTH_CAP },
        ),
        is_active && !is_system_zone(zone@) && incoming_hop_depth + 1 <= SYNC_HOP_DEPTH_CAP ==> r
            == Ok::<u32, AtriumError>((incoming_hop_depth + 1) as u32),
{
    if let Err(e) = ensure_active(is_active, "merge_remote_change_with_hop_depth") {
        return Err(e);
    }
    if zone_is_system_zone(zone) {
        return Err(AtriumError::DivergentCidRejected { target: String::from_str(zone) });
    }
    let next_depth = match incoming_hop_depth.checked_add(1) {
        Some(d) => d,
        None => {
            return Err(
                AtriumError::SyncHopDepthExceeded { incoming_hop_depth, cap: SYNC_HOP_DEPTH_CAP },
            );
        },
    };
    if next_depth > SYNC_HOP_DEPTH_CAP {
        return Err(
            AtriumError::SyncHopDepthExceeded { incoming_hop_depth, cap: SYNC_HOP_DEPTH_CAP },
        );
    }
    Ok(next_depth)
}

/// The attribution seed a successful user-zone merge surfaces.
#[derive(Debug, Clone)]
pub struct SyncMergeAttribution {
    /// Contributing CRDT peer node-ids.
    pub peer_node_ids: std::collections::BTreeSet<u64>,
    /// The attribution's new hop depth (incoming depth + 1, bounded by
    /// [`SYNC_HOP_DEPTH_CAP`]).
    pub sync_hop_depth: u32,
    /// The originating device's DID declared on the wire, if any.
    pub remote_device_did: Option<String>,
}

/// A device-attestation envelope declared on a sync session.
#[derive(Clone, Debug)]
pub struct DeclaredDeviceAttestation {
    /// `did:key:` identifier of the declaring device.
    pub device_did: String,
    /// Per-claim capabilities the device may exercise.
    pub claims: Vec<DeclaredCapabilityClaim>,
    /// Seconds before the attestation must be declared again.
    pub freshness_window: u32,
}

/// One capability claim inside a [`DeclaredDeviceAttestation`].
#[derive(Clone, Debug)]
pub struct DeclaredCapabilityClaim {
    /// Path-glob the claim applies to.
    pub path: String,
    /// Ability the claim grants (`read` / `write` / `emit`).
    pub ability: String,
}

/// The transport a session runs over.
#[derive(Clone, Copy, Debug, PartialEq, Eq, Structural)]
pub enum TransportKind {
    /// In-process loopback transport.
    Loopback,
    /// Production transport (relays and hole punching).
    Production,
}

/// What the transport reports about its own health.
#[derive(Clone, Debug, PartialEq, Eq)]
pub enum TransportStatus {
    /// Connected and healthy over `kind`.
    Healthy {
        /// The transport.
        kind: TransportKind,
    },
    /// Connected but degraded.
    Degraded {
        /// Why.
        reason: String,
    },
    /// Not connected.
    NotConnected,
}

/// The observable status of a sync session.
#[derive(Clone, Debug, PartialEq, Eq)]
pub struct SyncStatus {
    /// The transport in use.
    pub transport_kind: TransportKind,
    /// Whether the session is healthy.
    pub is_healthy: bool,
    /// Why the session is not healthy (empty when healthy).
    pub reason: String,
}

impl SyncStatus {
    /// A healthy session over `kind`.
    pub fn healthy(kind: TransportKind) -> (s: Self)
        ensures
            s.transport_kind == kind,
            s.is_healthy,
            s.reason@ == Seq::<char>::empty(),
    {
        SyncStatus { transport_kind: kind, is_healthy: true, reason: String::new() }
    }

    /// A degraded session carrying `reason`.
    pub fn degraded(reason: &str) -> (s: Self)
        ensures
            s.transport_kind == TransportKind::Loopback,
            !s.is_healthy,
            s.reason@ == reason@,
    {
        SyncStatus {
            transport_kind: TransportKind::Loopback,
            is_healthy: false,
            reason: String::from_str(reason),
        }
    }

    /// The session status a transport status maps to: healthy over its
    /// transport, degraded with its reason, or (not connected) unhealthy
    /// over loopback with reason `not connected`.
    pub fn from_transport_status(t: &TransportStatus) -> (s: Self)
        ensures
            match t {
                TransportStatus::Healthy { kind } => s.transport_kind == *kind && s.is_healthy
                    && s.reason@ == Seq::<char>::empty(),
                TransportStatus::Degraded { reason } => s.transport_kind == TransportKind::Loopback
                    && !s.is_healthy && s.reason@ == reason@,
                TransportStatus::NotConnected => s.transport_kind == TransportKind::Loopback
                    && !s.is_healthy && s.reason@ == "not connected"@,
            },
    {
        match t {
            TransportStatus::Healthy { kind } => SyncStatus::healthy(*kind),
            TransportStatus::Degraded { reason } => SyncStatus::degraded(reason.as_str()),
            TransportStatus::NotConnected => SyncStatus {
                transport_kind: TransportKind::Loopback,
                is_healthy: false,
                reason: String::from_str("not connected"),
            },
        }
    }
}

/// The DID a peer node-id resolves to: the registered one, or the
/// synthetic `node-id:<decimal>` fallback.
pub open spec fn resolved_did(registry: Map<u64, String>, node_id: u64) -> Seq<char> {
    if registry.contains_key(node_id) {
        registry[node_id]@
    } else {
        "node-id:"@ + decimal(node_id as nat)
    }
}

/// Whether one of `v` holds the text `t`.
pub fn contains_text(v: &Vec<String>, t: &str) -> (r: bool)
    ensures
        r == exists|a: int| 0 <= a < v@.len() && (#[trigger] v@[a])@ == t@,
{
    let mut j: usize = 0;
    while j < v.len()
        invariant
            j <= v.len(),
            forall|a: int| 0 <= a < j ==> (#[trigger] v@[a])@ != t@,
        decreases v.len() - j,
    {
        if str_eq(v[j].as_str(), t) {
            return true;
        }
        j += 1;
    }
    false
}

/// The texts of a sequence of strings.
pub open spec fn texts(v: Seq<String>) -> Seq<Seq<char>> {
    v.map_values(|t: String| t@)
}

/// The distinct texts of `v`, each once.
pub fn distinct_texts(v: &Vec<String>) -> (r: Vec<String>)
    ensures
        texts(r@).no_duplicates(),
        texts(r@).to_set() == texts(v@).to_set(),
{
    let mut out: Vec<String> = Vec::new();
    let mut i: usize = 0;
    assert(texts(out@).to_set() =~= texts(v@.take(0)).to_set());
    while i < v.len()
        invariant
            i <= v.len(),
            texts(out@).no_duplicates(),
            texts(out@).to_set() == texts(v@.take(i as int)).to_set(),
        decreases v.len() - i,
    {
        let seen = contains_text(&out, v[i].as_str());
        proof {
            assert(texts(v@.take(i + 1)) =~= texts(v@.take(i as int)).push(v@[i as int]@));
            texts(v@.take(i as int)).lemma_push_to_set_commute(v@[i as int]@);
        }
        if seen {
            proof {
                let a = choose|a: int| 0 <= a < out@.len() && (#[trigger] out@[a])@ == v@[i as int]@;
                assert(texts(out@)[a] == v@[i as int]@);
                assert(texts(out@).to_set().contains(v@[i as int]@));
                assert(texts(out@).to_set().insert(v@[i as int]@) =~= texts(out@).to_set());
            }
        } else {
            let ghost before = out@;
            out.push(v[i].clone());
            proof {
                assert(texts(out@) =~= texts(before).push(v@[i as int]@));
                texts(before).lemma_push_to_set_commute(v@[i as int]@);
                assert forall|q: int| 0 <= q < texts(before).len() implies texts(before)[q] != v@[i as int]@ by {
                    assert(texts(before)[q] == before[q]@);
                }
            }
        }
        i += 1;
    }
    assert(v@.take(v@.len() as int) =~= v@);
    out
}

/// The trust store mapping CRDT peer node-ids to peer DIDs.
#[derive(Debug)]
pub struct PeerDidRegistry {
    dids: std::collections::BTreeMap<u64, String>,
}

impl PeerDidRegistry {
    /// The registered node-id to DID mapping.
    pub closed spec fn spec_dids(&self) -> Map<u64, String> {
        self.dids@
    }

    /// An empty trust store.
    pub fn new() -> (r: Self)
        ensures
            r.spec_dids() == Map::<u64, String>::empty(),
    {
        PeerDidRegistry { dids: std::collections::BTreeMap::new() }
    }

    /// Register (or replace) the DID of a peer node-id.
    pub fn register_peer_did(&mut self, peer_node_id: u64, did: &str)
        ensures
            final(self).spec_dids().dom() == old(self).spec_dids().dom().insert(peer_node_id),
            final(self).spec_dids()[peer_node_id]@ == did@,
            forall|k: u64|
                k != peer_node_id && old(self).spec_dids().contains_key(k) ==> #[trigger] final(self).spec_dids()[k]
                    == old(self).spec_dids()[k],
    {
        self.dids.insert(peer_node_id, String::from_str(did));
    }

    /// Resolve one peer node-id to its DID, or the synthetic
    /// `node-id:<decimal>` fallback when none is registered.
    pub fn resolve_peer_did(&self, peer_node_id: u64) -> (did: String)
        ensures
            did@ == resolved_did(self.spec_dids(), peer_node_id),
    {
        match self.dids.get(&peer_node_id) {
            Some(d) => d.clone(),
            None => {
                let mut s = String::from_str("node-id:");
                push_decimal_u64(&mut s, peer_node_id);
                s
            },
        }
    }

    /// Resolve a set of peer node-ids: the distinct DIDs they resolve to.
    pub fn resolve_peer_dids(&self, peer_node_ids: &std::collections::BTreeSet<u64>) -> (r: Vec<
        String,
    >)
        ensures
            texts(r@).no_duplicates(),
            texts(r@).to_set() == peer_node_ids@.map(|id: u64| resolved_did(self.spec_dids(), id)),
    {
        broadcast use vstd::std_specs::btree::group_btree_axioms;
        assert(vstd::std_specs::iter::IteratorSpec::remaining(
            &vstd::std_specs::btree::spec_btree_keys_iter(peer_node_ids),
        ).unref().to_set() == peer_node_ids@);
        assert(vstd::std_specs::iter::IteratorSpec::remaining(
            &vstd::std_specs::btree::spec_btree_keys_iter(peer_node_ids),
        ).no_duplicates());
        let mut resolved: Vec<String> = Vec::new();
        let ghost mut ids: Seq<u64> = Seq::empty();
        for id in it: peer_node_ids.iter()
            invariant
                it.seq().unref().to_set() == peer_node_ids@,
                it.seq().no_duplicates(),
                it.seq().len() == peer_node_ids@.len(),
                ids.len() == it.index(),
                ids.no_duplicates(),
                forall|k: int| 0 <= k < it.index() ==> peer_node_ids@.contains(#[trigger] ids[k]),
                resolved@.len() == it.index(),
                forall|k: int| 0 <= k < it.index() ==> ids[k] == *it.seq()[k],
                forall|k: int| 0 <= k < it.index() ==> (#[trigger] resolved@[k])@ == resolved_did(self.spec_dids(), ids[k]),
            ensures
                ids.len() == peer_node_ids@.len(),
                ids.no_duplicates(),
                forall|k: int| 0 <= k < ids.len() ==> peer_node_ids@.contains(#[trigger] ids[k]),
                resolved@.len() == ids.len(),
                forall|k: int| 0 <= k < ids.len() ==> (#[trigger] resolved@[k])@ == resolved_did(self.spec_dids(), ids[k]),
        {
            let ghost cur = it.index();
            proof {
                assert(*id == *it.seq()[cur]);
                assert(it.seq().unref()[cur] == *it.seq()[cur]);
                assert(it.seq().unref().to_set().contains(*id));
                assert forall|k: int| 0 <= k < cur implies ids[k] != *id by {
                    assert(ids[k] == *it.seq()[k]);
                    assert(it.seq()[k] != it.seq()[cur]);
                }
                ids = ids.push(*id);
            }
            resolved.push(self.resolve_peer_did(*id));
        }
        proof {
            ids.unique_seq_to_set();
            assert(ids.to_set().subset_of(peer_node_ids@));
            assert(peer_node_ids@.finite());
            vstd::set_lib::lemma_subset_equality(ids.to_set(), peer_node_ids@);
        }
        let r = distinct_texts(&resolved);
        proof {
            let f = |id: u64| resolved_did(self.spec_dids(), id);
            assert forall|d: Seq<char>| #[trigger] texts(resolved@).to_set().contains(d) implies peer_node_ids@.map(f).contains(d) by {
                let k = choose|k: int| 0 <= k < texts(resolved@).len() && texts(resolved@)[k] == d;
                assert(peer_node_ids@.contains(ids[k]));
                assert(f(ids[k]) == d);
            }
            assert forall|d: Seq<char>| #[trigger] peer_node_ids@.map(f).contains(d) implies texts(resolved@).to_set().contains(d) by {
                let id = choose|id: u64| peer_node_ids@.contains(id) && d == f(id);
                assert(ids.to_set().contains(id));
                let k = choose|k: int| 0 <= k < ids.len() && ids[k] == id;
                assert(texts(resolved@)[k] == d);
            }
            assert(texts(resolved@).to_set() =~= peer_node_ids@.map(f));
        }
        r
    }
}

/// The device-attestation envelope sent before a CRDT payload: the
/// declaring device's DID (absent for the legacy unsigned shape), the
/// BLAKE3 hash of the payload that follows, a fresh session nonce, and the
/// device's Ed25519 signature over the canonical encoding of
/// `(version, attestation, payload_hash, session_nonce)`.
#[derive(Debug, Clone)]
pub struct DeviceAttestationEnvelope {
    /// Wire-format version.
    pub version: u8,
    /// The DID the embedded attestation declares, `None` when the envelope
    /// carries no attestation.
    pub device_did: Option<String>,
    /// BLAKE3 of the payload that follows.
    pub payload_hash: [u8; 32],
    /// Fresh per-envelope nonce.
    pub session_nonce: [u8; 32],
    /// The device's signature (empty without an attestation).
    pub envelope_signature: Vec<u8>,
}

/// Current wire-format version.
pub const WIRE_VERSION: u8 = 2;

/// Newest wire-format version this build decodes.
pub const MAX_WIRE_VERSION: u8 = 2;

/// A forged-attestation error with this reason.
pub open spec fn forged(r: Result<(), AtriumError>, reason: Seq<char>) -> bool {
    r matches Err(AtriumError::DeviceAttestationForged { reason: x }) && x@ == reason
}

/// The reason of a signature of the wrong length.
pub open spec fn wrong_length_reason(n: nat) -> Seq<char> {
    "envelope signature has wrong length: got "@ + decimal(n) + ", expected 64"@
}

/// The reason of a signature that does not verify.
pub open spec fn bad_signature_reason() -> Seq<char> {
    "envelope signature does not verify against device DID's pubkey (DID forgery / wrong-key signing)"@
}

/// The reason of a payload that does not hash to the envelope's hash.
pub open spec fn binding_reason() -> Seq<char> {
    "envelope payload_hash != BLAKE3(received Loro payload) — frame-pair binding violation (MITM swap defense)"@
}

/// The reason the signature checks give, in order: the device DID's key
/// resolution, the signature input's encoding, the signature's length, the
/// signature itself; `None` when all pass.
pub open spec fn signature_failure(
    sig: Seq<u8>,
    device_key: Result<[u8; 32], String>,
    sig_input: Result<Vec<u8>, String>,
) -> Option<Seq<char>> {
    match device_key {
        Err(e) => Some("device DID resolution failed: "@ + e@),
        Ok(pk) => match sig_input {
            Err(e) => Some("envelope signature-input encode failed: "@ + e@),
            Ok(input) => if sig.len() != 64 {
                Some(wrong_length_reason(sig.len()))
            } else if !ed25519_signature_valid(pk@, input@, sig) {
                Some(bad_signature_reason())
            } else {
                None
            },
        },
    }
}

/// An envelope made for signing over a payload, carrying a 64-byte
/// signature that is valid over its signature input under the device key,
/// passes every signature check, and its payload hash binds that payload;
/// by [`DeviceAttestationEnvelope::verify`]'s contract, verifying it
/// against the same payload then succeeds exactly when the acceptor
/// accepts.
pub proof fn lemma_signed_envelope_passes_checks(
    e: DeviceAttestationEnvelope,
    payload: Seq<u8>,
    device_key: [u8; 32],
    sig_input: Vec<u8>,
)
    requires
        e.device_did is Some,
        e.payload_hash@ == blake3_digest(payload),
        e.envelope_signature@.len() == 64,
        ed25519_signature_valid(device_key@, sig_input@, e.envelope_signature@),
    ensures
        signature_failure(e.envelope_signature@, Ok(device_key), Ok(sig_input)) is None,
        blake3_digest(payload) == e.payload_hash@,
{
}

impl DeviceAttestationEnvelope {
    /// The legacy envelope without an attestation: current version, zero
    /// hash and nonce, empty signature.
    pub fn new_unsigned() -> (e: Self)
        ensures
            e.version == WIRE_VERSION,
            e.device_did is None,
            e.payload_hash@ == Seq::new(32, |i: int| 0u8),
            e.session_nonce@ == Seq::new(32, |i: int| 0u8),
            e.envelope_signature@.len() == 0,
    {
        let e = DeviceAttestationEnvelope {
            version: WIRE_VERSION,
            device_did: None,
            payload_hash: [0u8; 32],
            session_nonce: [0u8; 32],
            envelope_signature: Vec::new(),
        };
        assert(e.payload_hash@ =~= Seq::new(32, |i: int| 0u8));
        assert(e.session_nonce@ =~= Seq::new(32, |i: int| 0u8));
        e
    }

    /// An envelope about to be signed by the device `device_did`: current
    /// version, the BLAKE3 hash of the Loro payload that follows, the
    /// fresh session nonce, and no signature yet.
    pub fn new_for_signing(device_did: &str, loro_payload: &[u8], session_nonce: [u8; 32]) -> (e:
        Self)
        ensures
            e.version == WIRE_VERSION,
            e.device_did matches Some(d) && d@ == device_did@,
            e.payload_hash@ == blake3_digest(loro_payload@),
            e.session_nonce == session_nonce,
            e.envelope_signature@.len() == 0,
    {
        DeviceAttestationEnvelope {
            version: WIRE_VERSION,
            device_did: Some(String::from_str(device_did)),
            payload_hash: blake3_hash(loro_payload),
            session_nonce,
            envelope_signature: Vec::new(),
        }
    }

    /// The envelope carrying `signature` (the device's signature over its
    /// signature input); every other field is kept.
    pub fn with_signature(self, signature: Vec<u8>) -> (e: Self)
        ensures
            e.envelope_signature@ == signature@,
            e.version == self.version,
            e.device_did == self.device_did,
            e.payload_hash == self.payload_hash,
            e.session_nonce == self.session_nonce,
    {
        let mut e = self;
        e.envelope_signature = signature;
        e
    }

    /// The declaring device's DID, if any.
    pub fn declared_device_did(&self) -> (d: Option<&str>)
        ensures
            match self.device_did {
                Some(s) => d matches Some(x) && x@ == s@,
                None => d is None,
            },
    {
        match &self.device_did {
            Some(s) => Some(s.as_str()),
            None => None,
        }
    }

    /// Accept a decoded envelope only when this build understands its
    /// wire version.
    pub fn check_version(self) -> (r: Result<Self, AtriumError>)
        ensures
            self.version <= MAX_WIRE_VERSION ==> r == Ok::<Self, AtriumError>(self),
            self.version > MAX_WIRE_VERSION ==> (r matches Err(AtriumError::InvalidState { reason })
                && reason@ == "DeviceAttestationEnvelope version "@ + decimal(self.version as nat)
                + " exceeds MAX_WIRE_VERSION "@ + decimal(MAX_WIRE_VERSION as nat)
                + " (newer peer; upgrade local build to consume the wire shape)"@),
    {
        if self.version > MAX_WIRE_VERSION {
            let mut reason = String::from_str("DeviceAttestationEnvelope version ");
            push_decimal_u64(&mut reason, self.version as u64);
            reason.append(" exceeds MAX_WIRE_VERSION ");
            push_decimal_u64(&mut reason, MAX_WIRE_VERSION as u64);
            reason.append(" (newer peer; upgrade local build to consume the wire shape)");
            return Err(AtriumError::InvalidState { reason });
        }
        Ok(self)
    }

    /// Verify the envelope against the payload that followed it.
    ///
    /// An envelope without an attestation is accepted as is. Otherwise, in
    /// order: the device DID must have resolved to `device_key`; the
    /// signature input (the canonical encoding of the signed fields) must
    /// have encoded to `sig_input`; the signature must be 64 bytes and
    /// verify over it under the device key; then `accept` (the attestation
    /// acceptor: parent signature, freshness, nonce replay, revocation) is
    /// run, only when all of these passed (the acceptor need only be
    /// callable then, so a body that ran it earlier could not be proved);
    /// finally the payload must hash to
    /// the envelope's payload hash (compared in constant time). Every
    /// failure is [`AtriumError::DeviceAttestationForged`] naming the check.
    pub fn verify<F: FnOnce() -> Result<(), String>>(
        &self,
        loro_payload: &[u8],
        device_key: Result<[u8; 32], String>,
        sig_input: Result<Vec<u8>, String>,
        accept: F,
    ) -> (r: Result<(), AtriumError>)
        requires
            self.device_did is Some && signature_failure(self.envelope_signature@, device_key, sig_input)
                is None ==> accept.requires(()),
        ensures
            self.device_did is None ==> r is Ok,
            self.device_did is Some ==> match signature_failure(
                self.envelope_signature@,
                device_key,
                sig_input,
            ) {
                Some(reason) => forged(r, reason),
                None => exists|verdict: Result<(), String>|
                    #![trigger accept.ensures((), verdict)]
                    accept.ensures((), verdict) && match verdict {
                        Err(e) => forged(r, "attestation chain rejected: "@ + e@),
                        Ok(_) => if blake3_digest(loro_payload@) == self.payload_hash@ {
                            r is Ok
                        } else {
                            forged(r, binding_reason())
                        },
                    },
            },
    {
        if self.device_did.is_none() {
            return Ok(());
        }
        let pk = match device_key {
            Ok(pk) => pk,
            Err(e) => {
                let mut reason = String::from_str("device DID resolution failed: ");
                reason.append(e.as_str());
                return Err(AtriumError::DeviceAttestationForged { reason });
            },
        };
        let input = match sig_input {
            Ok(input) => input,
            Err(e) => {
                let mut reason = String::from_str("envelope signature-input encode failed: ");
                reason.append(e.as_str());
                return Err(AtriumError::DeviceAttestationForged { reason });
            },
        };
        let n = self.envelope_signature.len();
        if n != 64 {
            let mut reason = String::from_str("envelope signature has wrong length: got ");
            push_decimal_u64(&mut reason, n as u64);
            reason.append(", expected 64");
            return Err(AtriumError::DeviceAttestationForged { reason });
        }
        let mut sig = [0u8; 64];
        let mut i: usize = 0;
        while i < 64
            invariant
                i <= 64,
                self.envelope_signature@.len() == 64,
                sig@.len() == 64,
                forall|j: int| 0 <= j < i ==> sig@[j] == self.envelope_signature@[j],
            decreases 64 - i,
        {
            sig[i] = self.envelope_signature[i];
            i += 1;
        }
        assert(sig@ =~= self.envelope_signature@);
        if verify_canonical(&pk, input.as_slice(), &sig).is_err() {
            return Err(
                AtriumError::DeviceAttestationForged {
                    reason: String::from_str(
                        "envelope signature does not verify against device DID's pubkey (DID forgery / wrong-key signing)",
                    ),
                },
            );
        }
        let verdict = accept();
        if let Err(e) = verdict {
            let mut reason = String::from_str("attestation chain rejected: ");
            reason.append(e.as_str());
            return Err(AtriumError::DeviceAttestationForged { reason });
        }
        let observed = blake3_hash(loro_payload);
        if !ct_eq_32(&observed, &self.payload_hash) {
            return Err(
                AtriumError::DeviceAttestationForged {
                    reason: String::from_str(
                        "envelope payload_hash != BLAKE3(received Loro payload) — frame-pair binding violation (MITM swap defense)",
                    ),
                },
            );
        }
        Ok(())
    }
}

} // verus!
