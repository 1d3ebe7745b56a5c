//! Layer-D remote-permission-call wire protocol (codepoint band
//! `0x6320..=0x632F`).
//!
//! Two flows share one wire protocol: remote-unlock and remote
//! permission-grant. The signing bytes are a canonical TLV: a
//! domain-separation prefix, the `aad_version` byte, the framing `version`
//! byte, then the fields in a fixed order with big-endian integers and
//! big-endian `u32` length prefixes on every variable-length field, so the
//! concatenation is length-injective.

use vstd::prelude::*;

pub use crate::crypto::verify_canonical;

use crate::bytes::{
    be_u32, be_u64, lemma_be_u32_injective, lemma_be_u64_injective, push_be_u32, push_be_u64,
    push_bytes, push_len_prefixed,
};

verus! {

/// AAD-prefix / cross-version-replay-defense version byte. Distinct axis
/// from [`REMOTE_PERMISSION_WIRE_VERSION`].
pub const AAD_VERSION: u8 = 0x01;

/// Wire-format / struct framing version (V2 from the first commit).
pub const REMOTE_PERMISSION_WIRE_VERSION: u8 = 2;

/// RemotePermission band codepoint base.
pub const REMOTE_PERMISSION_BAND_BASE: u16 = 0x6320;

/// RemotePermission band codepoint end (inclusive).
pub const REMOTE_PERMISSION_BAND_END: u16 = 0x632F;

/// Canonical request domain-separation prefix, the ASCII bytes of
/// `benten-remote-permission-request-v2:`.
pub const REQUEST_DOMAIN: [u8; 36] = [
    98, 101, 110, 116, 101, 110, 45, 114, 101, 109, 111, 116, 101, 45, 112, 101, 114, 109, 105,
    115, 115, 105, 111, 110, 45, 114, 101, 113, 117, 101, 115, 116, 45, 118, 50, 58,
];

/// Canonical grant domain-separation prefix, the ASCII bytes of
/// `benten-remote-permission-grant-v2:`.
pub const GRANT_DOMAIN: [u8; 34] = [
    98, 101, 110, 116, 101, 110, 45, 114, 101, 109, 111, 116, 101, 45, 112, 101, 114, 109, 105,
    115, 115, 105, 111, 110, 45, 103, 114, 97, 110, 116, 45, 118, 50, 58,
];

/// Intra-variant domain-separation prefix of the `ExecuteWorkflow`
/// constraint AAD, the ASCII bytes of `benten-exec-workflow-v1:`.
pub const EXEC_WORKFLOW_AAD_DOMAIN: [u8; 24] = [
    98, 101, 110, 116, 101, 110, 45, 101, 120, 101, 99, 45, 119, 111, 114, 107, 102, 108, 111,
    119, 45, 118, 49, 58,
];

/// The remote-permission operation, ordered by blast radius:
/// `Decrypt` (one Node) < `SignUcanDelegation` < `ExecuteWorkflow` <
/// `RemoteUnlock` (full, permanent `K_principal`).
#[derive(Debug, Clone, PartialEq, Eq)]
#[non_exhaustive]
pub enum PermissionOperation {
    /// Decrypt a single Node.
    Decrypt {
        /// The Node CID to decrypt.
        node_cid: [u8; 32],
    },
    /// Sign an ephemeral UCAN delegation.
    SignUcanDelegation {
        /// The capability scope bytes (e.g. `atrium:read`).
        scope: Vec<u8>,
        /// The delegation audience (DID bytes).
        audience: Vec<u8>,
        /// Unix-seconds expiry (big-endian on the wire).
        expires_at: u64,
    },
    /// Remote-unlock device B (top of the blast-radius ladder).
    RemoteUnlock,
    /// Execute a workflow on rented compute (codepoint reserve).
    ExecuteWorkflow {
        /// The workflow subgraph CID.
        workflow_cid: [u8; 32],
    },
}

/// Mathematical model of a [`PermissionOperation`].
pub enum OperationView {
    Decrypt { node_cid: Seq<u8> },
    SignUcanDelegation { scope: Seq<u8>, audience: Seq<u8>, expires_at: u64 },
    RemoteUnlock,
    ExecuteWorkflow { workflow_cid: Seq<u8> },
}

impl View for PermissionOperation {
    type V = OperationView;

    open spec fn view(&self) -> OperationView {
        match self {
            PermissionOperation::Decrypt { node_cid } => OperationView::Decrypt {
                node_cid: node_cid@,
            },
            PermissionOperation::SignUcanDelegation { scope, audience, expires_at } =>
                OperationView::SignUcanDelegation {
                scope: scope@,
                audience: audience@,
                expires_at: *expires_at,
            },
            PermissionOperation::RemoteUnlock => OperationView::RemoteUnlock,
            PermissionOperation::ExecuteWorkflow { workflow_cid } =>
                OperationView::ExecuteWorkflow { workflow_cid: workflow_cid@ },
        }
    }
}

impl OperationView {
    /// Fixed-width fields hold 32 bytes and every length-prefixed field
    /// fits its `u32` prefix.
    pub open spec fn wire_safe(self) -> bool {
        match self {
            OperationView::Decrypt { node_cid } => node_cid.len() == 32,
            OperationView::SignUcanDelegation { scope, audience, .. } => scope.len()
                <= u32::MAX && audience.len() <= u32::MAX,
            OperationView::RemoteUnlock => true,
            OperationView::ExecuteWorkflow { workflow_cid } => workflow_cid.len() == 32,
        }
    }

    /// The frozen roster slot (and wire tag) of the variant.
    pub open spec fn roster_index(self) -> u8 {
        match self {
            OperationView::Decrypt { .. } => 0,
            OperationView::SignUcanDelegation { .. } => 1,
            OperationView::RemoteUnlock => 2,
            OperationView::ExecuteWorkflow { .. } => 3,
        }
    }
}

/// Canonical-TLV big-endian wire encoding of an operation: a discriminant
/// tag, then the variant's fields.
pub open spec fn operation_wire(v: OperationView) -> Seq<u8> {
    match v {
        OperationView::Decrypt { node_cid } => seq![0u8] + node_cid,
        OperationView::SignUcanDelegation { scope, audience, expires_at } => seq![1u8] + be_u32(
            scope.len() as u32,
        ) + scope + be_u32(audience.len() as u32) + audience + be_u64(expires_at),
        OperationView::RemoteUnlock => seq![2u8],
        OperationView::ExecuteWorkflow { workflow_cid } => seq![3u8] + workflow_cid,
    }
}

impl PermissionOperation {
    /// Canonical-TLV BE wire encoding: discriminant tag + length-prefixed
    /// (BE u32) variable fields + BE integers.
    pub fn to_wire_be(&self) -> (out: Vec<u8>)
        ensures
            out@ == operation_wire(self@),
    {
        let mut out: Vec<u8> = Vec::new();
        match self {
            PermissionOperation::Decrypt { node_cid } => {
                out.push(0x00);
                push_bytes(&mut out, node_cid);
            },
            PermissionOperation::SignUcanDelegation { scope, audience, expires_at } => {
                out.push(0x01);
                push_len_prefixed(&mut out, scope.as_slice());
                push_len_prefixed(&mut out, audience.as_slice());
                push_be_u64(&mut out, *expires_at);
            },
            PermissionOperation::RemoteUnlock => {
                out.push(0x02);
            },
            PermissionOperation::ExecuteWorkflow { workflow_cid } => {
                out.push(0x03);
                push_bytes(&mut out, workflow_cid);
            },
        }
        assert(out@ =~= operation_wire(self@));
        out
    }
}

/// Every operation encodes to at least its tag byte, and the tag byte is
/// the variant's frozen roster index.
pub proof fn lemma_operation_wire_tag(v: OperationView)
    ensures
        operation_wire(v).len() >= 1,
        operation_wire(v)[0] == v.roster_index(),
{
}

/// The operation wire is self-delimiting: if an operation's encoding
/// followed by any bytes equals another operation's encoding followed by
/// any bytes, the two operations are equal and so are the trailing bytes.
/// In particular the encoding is injective, and two distinct operations
/// never encode to the same bytes.
pub proof fn lemma_operation_wire_self_delimiting(
    a: OperationView,
    b: OperationView,
    ra: Seq<u8>,
    rb: Seq<u8>,
)
    requires
        a.wire_safe(),
        b.wire_safe(),
        operation_wire(a) + ra == operation_wire(b) + rb,
    ensures
        a == b,
        ra == rb,
{
    let s = operation_wire(a) + ra;
    assert(s[0] == operation_wire(a)[0]);
    assert(s[0] == operation_wire(b)[0]);
    match a {
        OperationView::Decrypt { node_cid: ca } => {
            let cb = b->Decrypt_node_cid;
            assert(s.subrange(1, 33) =~= ca);
            assert(s.subrange(1, 33) =~= cb);
            assert(s.subrange(33, s.len() as int) =~= ra);
            assert(s.subrange(33, s.len() as int) =~= rb);
        },
        OperationView::SignUcanDelegation { scope: sa, audience: aa, expires_at: ea } => {
            let sb = b->scope;
            let ab = b->audience;
            let eb = b->expires_at;
            let n = sa.len() as int;
            let m = aa.len() as int;
            assert(s.subrange(1, 5) =~= be_u32(sa.len() as u32));
            assert(s.subrange(1, 5) =~= be_u32(sb.len() as u32));
            lemma_be_u32_injective(sa.len() as u32, sb.len() as u32);
            assert(sb.len() == n);
            assert(s.subrange(5, 5 + n) =~= sa);
            assert(s.subrange(5, 5 + n) =~= sb);
            assert(s.subrange(5 + n, 9 + n) =~= be_u32(aa.len() as u32));
            assert(s.subrange(5 + n, 9 + n) =~= be_u32(ab.len() as u32));
            lemma_be_u32_injective(aa.len() as u32, ab.len() as u32);
            assert(ab.len() == m);
            assert(s.subrange(9 + n, 9 + n + m) =~= aa);
            assert(s.subrange(9 + n, 9 + n + m) =~= ab);
            assert(s.subrange(9 + n + m, 17 + n + m) =~= be_u64(ea));
            assert(s.subrange(9 + n + m, 17 + n + m) =~= be_u64(eb));
            lemma_be_u64_injective(ea, eb);
            assert(s.subrange(17 + n + m, s.len() as int) =~= ra);
            assert(s.subrange(17 + n + m, s.len() as int) =~= rb);
        },
        OperationView::RemoteUnlock => {
            assert(s.subrange(1, s.len() as int) =~= ra);
            assert(s.subrange(1, s.len() as int) =~= rb);
        },
        OperationView::ExecuteWorkflow { workflow_cid: ca } => {
            let cb = b->ExecuteWorkflow_workflow_cid;
            assert(s.subrange(1, 33) =~= ca);
            assert(s.subrange(1, 33) =~= cb);
            assert(s.subrange(33, s.len() as int) =~= ra);
            assert(s.subrange(33, s.len() as int) =~= rb);
        },
    }
}

/// e2r §6.4 `PermissionRequest`, signed by the requesting device. The
/// per-request `ephemeral_signing_key` is private key material.
#[derive(Clone)]
pub struct PermissionRequest {
    /// AAD-prefix version. Must equal [`AAD_VERSION`].
    pub aad_version: u8,
    /// Wire/struct framing version. Must equal [`REMOTE_PERMISSION_WIRE_VERSION`].
    pub version: u8,
    /// 16-byte request identifier.
    pub request_id: [u8; 16],
    /// The requesting device's DID (string bytes).
    pub requesting_device_did: Vec<u8>,
    /// The requesting device's public key.
    pub requesting_device_pubkey: [u8; 32],
    /// The operation being requested.
    pub operation: PermissionOperation,
    /// Human-readable reason shown in the approval UX.
    pub reason: Vec<u8>,
    /// Coarse one-hour timestamp bucket.
    pub timestamp_bucket: u64,
    /// The ephemeral signing key minted per request.
    pub ephemeral_signing_key: [u8; 32],
    /// Per-request nonce.
    pub nonce: [u8; 32],
    /// Detached signature over [`PermissionRequest::signing_bytes`].
    pub signature: Vec<u8>,
}

/// Mathematical model of the signed fields of a [`PermissionRequest`].
pub struct RequestView {
    pub aad_version: u8,
    pub version: u8,
    pub request_id: Seq<u8>,
    pub requesting_device_did: Seq<u8>,
    pub requesting_device_pubkey: Seq<u8>,
    pub operation: OperationView,
    pub reason: Seq<u8>,
    pub timestamp_bucket: u64,
    pub ephemeral_signing_key: Seq<u8>,
    pub nonce: Seq<u8>,
}

impl View for PermissionRequest {
    type V = RequestView;

    open spec fn view(&self) -> RequestView {
        RequestView {
            aad_version: self.aad_version,
            version: self.version,
            request_id: self.request_id@,
            requesting_device_did: self.requesting_device_did@,
            requesting_device_pubkey: self.requesting_device_pubkey@,
            operation: self.operation@,
            reason: self.reason@,
            timestamp_bucket: self.timestamp_bucket,
            ephemeral_signing_key: self.ephemeral_signing_key@,
            nonce: self.nonce@,
        }
    }
}

impl RequestView {
    /// Fixed-width fields have their declared widths and every
    /// length-prefixed field fits its `u32` prefix.
    pub open spec fn wire_safe(self) -> bool {
        &&& self.request_id.len() == 16
        &&& self.requesting_device_did.len() <= u32::MAX
        &&& self.requesting_device_pubkey.len() == 32
        &&& self.operation.wire_safe()
        &&& self.reason.len() <= u32::MAX
        &&& self.ephemeral_signing_key.len() == 32
        &&& self.nonce.len() == 32
    }
}

/// The signed fields of a request after its operation: the
/// length-prefixed reason, the timestamp bucket, the ephemeral signing key
/// and the nonce.
pub open spec fn request_tail_spec(r: RequestView) -> Seq<u8> {
    be_u32(r.reason.len() as u32) + r.reason + be_u64(r.timestamp_bucket) + r.ephemeral_signing_key
        + r.nonce
}

/// The signed fields of a request before its operation: the `aad_version`
/// byte, the framing `version` byte, the request id, the length-prefixed
/// device DID and the device public key.
pub open spec fn request_head_spec(r: RequestView) -> Seq<u8> {
    seq![r.aad_version, r.version] + r.request_id + be_u32(r.requesting_device_did.len() as u32)
        + r.requesting_device_did + r.requesting_device_pubkey
}

/// Canonical signing bytes of a request: the request domain, the head
/// fields, the operation wire, then the tail fields.
pub open spec fn request_signing_spec(r: RequestView) -> Seq<u8> {
    REQUEST_DOMAIN@ + request_head_spec(r) + operation_wire(r.operation) + request_tail_spec(r)
}

impl PermissionRequest {
    /// Canonical signing bytes (canonical-TLV, BE integers, V2 framing,
    /// domain-separation prefix, deterministic field order).
    pub fn signing_bytes(&self) -> (b: Vec<u8>)
        ensures
            b@ == request_signing_spec(self@),
    {
        let mut b: Vec<u8> = Vec::new();
        push_bytes(&mut b, &REQUEST_DOMAIN);
        b.push(self.aad_version);
        b.push(self.version);
        push_bytes(&mut b, &self.request_id);
        push_len_prefixed(&mut b, self.requesting_device_did.as_slice());
        push_bytes(&mut b, &self.requesting_device_pubkey);
        let w = self.operation.to_wire_be();
        push_bytes(&mut b, w.as_slice());
        push_len_prefixed(&mut b, self.reason.as_slice());
        push_be_u64(&mut b, self.timestamp_bucket);
        push_bytes(&mut b, &self.ephemeral_signing_key);
        push_bytes(&mut b, &self.nonce);
        assert(b@ =~= request_signing_spec(self@));
        b
    }
}

/// e2r §6.4 `PermissionGrant`, signed by the approving device. The
/// `audit_node_cid` is part of the signed bytes.
#[derive(Clone, Debug)]
pub struct PermissionGrant {
    /// AAD-prefix version. Must equal [`AAD_VERSION`].
    pub aad_version: u8,
    /// Wire/struct framing version.
    pub version: u8,
    /// 16-byte request identifier (matches the request).
    pub request_id: [u8; 16],
    /// Coarse one-hour bucket of grant time.
    pub granted_at_bucket: u64,
    /// Full-granularity `valid_until` enforcement clock.
    pub valid_until: u64,
    /// The operation result (e.g. HPKE-wrapped key material).
    pub operation_result: Vec<u8>,
    /// Must be present and resolvable (audit binding).
    pub audit_node_cid: [u8; 32],
    /// Detached signature over [`PermissionGrant::signing_bytes`].
    pub signature: Vec<u8>,
}

/// Mathematical model of the signed fields of a [`PermissionGrant`].
pub struct GrantView {
    pub aad_version: u8,
    pub version: u8,
    pub request_id: Seq<u8>,
    pub granted_at_bucket: u64,
    pub valid_until: u64,
    pub operation_result: Seq<u8>,
    pub audit_node_cid: Seq<u8>,
}

impl View for PermissionGrant {
    type V = GrantView;

    open spec fn view(&self) -> GrantView {
        GrantView {
            aad_version: self.aad_version,
            version: self.version,
            request_id: self.request_id@,
            granted_at_bucket: self.granted_at_bucket,
            valid_until: self.valid_until,
            operation_result: self.operation_result@,
            audit_node_cid: self.audit_node_cid@,
        }
    }
}

impl GrantView {
    /// Fixed-width fields have their declared widths and the operation
    /// result fits its `u32` length prefix.
    pub open spec fn wire_safe(self) -> bool {
        &&& self.request_id.len() == 16
        &&& self.audit_node_cid.len() == 32
        &&& self.operation_result.len() <= u32::MAX
    }
}

/// Canonical signing bytes of a grant.
pub open spec fn grant_signing_spec(g: GrantView) -> Seq<u8> {
    GRANT_DOMAIN@ + seq![g.aad_version, g.version] + g.request_id + be_u64(g.granted_at_bucket)
        + be_u64(g.valid_until) + g.audit_node_cid + be_u32(g.operation_result.len() as u32)
        + g.operation_result
}

impl PermissionGrant {
    /// Canonical signing bytes (canonical-TLV, BE integers, V2 framing,
    /// grant domain-separation prefix).
    pub fn signing_bytes(&self) -> (b: Vec<u8>)
        ensures
            b@ == grant_signing_spec(self@),
    {
        let mut b: Vec<u8> = Vec::new();
        push_bytes(&mut b, &GRANT_DOMAIN);
        b.push(self.aad_version);
        b.push(self.version);
        push_bytes(&mut b, &self.request_id);
        push_be_u64(&mut b, self.granted_at_bucket);
        push_be_u64(&mut b, self.valid_until);
        push_bytes(&mut b, &self.audit_node_cid);
        push_len_prefixed(&mut b, self.operation_result.as_slice());
        assert(b@ =~= grant_signing_spec(self@));
        b
    }
}

/// Domain separation: a request's signing bytes are never a grant's
/// signing bytes, so a request signature can never be replayed as a grant
/// signature (the two domains first differ at byte 25).
pub proof fn lemma_request_grant_domain_separated(r: RequestView, g: GrantView)
    ensures
        request_signing_spec(r) != grant_signing_spec(g),
{
    let a = request_signing_spec(r);
    let b = grant_signing_spec(g);
    assert(REQUEST_DOMAIN@ == seq![
        98u8, 101, 110, 116, 101, 110, 45, 114, 101, 109, 111, 116, 101, 45, 112, 101, 114, 109,
        105, 115, 115, 105, 111, 110, 45, 114, 101, 113, 117, 101, 115, 116, 45, 118, 50, 58,
    ]);
    assert(GRANT_DOMAIN@ == seq![
        98u8, 101, 110, 116, 101, 110, 45, 114, 101, 109, 111, 116, 101, 45, 112, 101, 114, 109,
        105, 115, 115, 105, 111, 110, 45, 103, 114, 97, 110, 116, 45, 118, 50, 58,
    ]);
    assert(a[25] == 114u8);
    assert(b[25] == 103u8);
}

/// If `x1 + y1 == x2 + y2` and the left parts have equal lengths, the
/// parts are pairwise equal.
pub proof fn lemma_split_equal(x1: Seq<u8>, y1: Seq<u8>, x2: Seq<u8>, y2: Seq<u8>)
    requires
        x1 + y1 == x2 + y2,
        x1.len() == x2.len(),
    ensures
        x1 == x2,
        y1 == y2,
{
    let s = x1 + y1;
    assert(s.subrange(0, x1.len() as int) =~= x1);
    assert(s.subrange(0, x1.len() as int) =~= x2);
    assert(s.subrange(x1.len() as int, s.len() as int) =~= y1);
    assert(s.subrange(x1.len() as int, s.len() as int) =~= y2);
}

/// Equal request heads carry equal head fields.
proof fn lemma_request_head_injective(a: RequestView, b: RequestView)
    requires
        a.wire_safe(),
        b.wire_safe(),
        request_head_spec(a) == request_head_spec(b),
    ensures
        a.aad_version == b.aad_version,
        a.version == b.version,
        a.request_id == b.request_id,
        a.requesting_device_did == b.requesting_device_did,
        a.requesting_device_pubkey == b.requesting_device_pubkey,
{
    let s = request_head_spec(a);
    let n = a.requesting_device_did.len() as int;
    assert(s[0] == a.aad_version && s[0] == b.aad_version);
    assert(s[1] == a.version && s[1] == b.version);
    assert(s.subrange(2, 18) =~= a.request_id);
    assert(s.subrange(2, 18) =~= b.request_id);
    assert(s.subrange(18, 22) =~= be_u32(a.requesting_device_did.len() as u32));
    assert(s.subrange(18, 22) =~= be_u32(b.requesting_device_did.len() as u32));
    lemma_be_u32_injective(
        a.requesting_device_did.len() as u32,
        b.requesting_device_did.len() as u32,
    );
    assert(s.subrange(22, 22 + n) =~= a.requesting_device_did);
    assert(s.subrange(22, 22 + n) =~= b.requesting_device_did);
    assert(s.subrange(22 + n, 54 + n) =~= a.requesting_device_pubkey);
    assert(s.subrange(22 + n, 54 + n) =~= b.requesting_device_pubkey);
}

/// Equal request tails carry equal tail fields.
proof fn lemma_request_tail_injective(a: RequestView, b: RequestView)
    requires
        a.wire_safe(),
        b.wire_safe(),
        request_tail_spec(a) == request_tail_spec(b),
    ensures
        a.reason == b.reason,
        a.timestamp_bucket == b.timestamp_bucket,
        a.ephemeral_signing_key == b.ephemeral_signing_key,
        a.nonce == b.nonce,
{
    let s = request_tail_spec(a);
    let m = a.reason.len() as int;
    assert(s.subrange(0, 4) =~= be_u32(a.reason.len() as u32));
    assert(s.subrange(0, 4) =~= be_u32(b.reason.len() as u32));
    lemma_be_u32_injective(a.reason.len() as u32, b.reason.len() as u32);
    assert(s.subrange(4, 4 + m) =~= a.reason);
    assert(s.subrange(4, 4 + m) =~= b.reason);
    assert(s.subrange(4 + m, 12 + m) =~= be_u64(a.timestamp_bucket));
    assert(s.subrange(4 + m, 12 + m) =~= be_u64(b.timestamp_bucket));
    lemma_be_u64_injective(a.timestamp_bucket, b.timestamp_bucket);
    assert(s.subrange(12 + m, 44 + m) =~= a.ephemeral_signing_key);
    assert(s.subrange(12 + m, 44 + m) =~= b.ephemeral_signing_key);
    assert(s.subrange(44 + m, 76 + m) =~= a.nonce);
    assert(s.subrange(44 + m, 76 + m) =~= b.nonce);
}

/// The request signing bytes are length-injective: equal signing bytes
/// mean every signed field is equal.
pub proof fn lemma_request_signing_injective(a: RequestView, b: RequestView)
    requires
        a.wire_safe(),
        b.wire_safe(),
        request_signing_spec(a) == request_signing_spec(b),
    ensures
        a == b,
{
    let ha = request_head_spec(a);
    let hb = request_head_spec(b);
    let wa = operation_wire(a.operation);
    let wb = operation_wire(b.operation);
    let ta = request_tail_spec(a);
    let tb = request_tail_spec(b);
    assert(request_signing_spec(a) =~= REQUEST_DOMAIN@ + (ha + (wa + ta)));
    assert(request_signing_spec(b) =~= REQUEST_DOMAIN@ + (hb + (wb + tb)));
    lemma_split_equal(REQUEST_DOMAIN@, ha + (wa + ta), REQUEST_DOMAIN@, hb + (wb + tb));
    // The head is self-delimiting: read the DID length first.
    let n = a.requesting_device_did.len() as int;
    let s = ha + (wa + ta);
    assert(s.subrange(18, 22) =~= be_u32(a.requesting_device_did.len() as u32));
    assert(s.subrange(18, 22) =~= be_u32(b.requesting_device_did.len() as u32));
    lemma_be_u32_injective(
        a.requesting_device_did.len() as u32,
        b.requesting_device_did.len() as u32,
    );
    assert(ha.len() == hb.len());
    lemma_split_equal(ha, wa + ta, hb, wb + tb);
    lemma_request_head_injective(a, b);
    lemma_operation_wire_self_delimiting(a.operation, b.operation, ta, tb);
    lemma_request_tail_injective(a, b);
}

/// The grant signing bytes are length-injective: equal signing bytes mean
/// every signed field is equal.
pub proof fn lemma_grant_signing_injective(a: GrantView, b: GrantView)
    requires
        a.wire_safe(),
        b.wire_safe(),
        grant_signing_spec(a) == grant_signing_spec(b),
    ensures
        a == b,
{
    let s = grant_signing_spec(a);
    assert(s[34] == a.aad_version && s[34] == b.aad_version);
    assert(s[35] == a.version && s[35] == b.version);
    assert(s.subrange(36, 52) =~= a.request_id);
    assert(s.subrange(36, 52) =~= b.request_id);
    assert(s.subrange(52, 60) =~= be_u64(a.granted_at_bucket));
    assert(s.subrange(52, 60) =~= be_u64(b.granted_at_bucket));
    lemma_be_u64_injective(a.granted_at_bucket, b.granted_at_bucket);
    assert(s.subrange(60, 68) =~= be_u64(a.valid_until));
    assert(s.subrange(60, 68) =~= be_u64(b.valid_until));
    lemma_be_u64_injective(a.valid_until, b.valid_until);
    assert(s.subrange(68, 100) =~= a.audit_node_cid);
    assert(s.subrange(68, 100) =~= b.audit_node_cid);
    assert(s.subrange(100, 104) =~= be_u32(a.operation_result.len() as u32));
    assert(s.subrange(100, 104) =~= be_u32(b.operation_result.len() as u32));
    lemma_be_u32_injective(a.operation_result.len() as u32, b.operation_result.len() as u32);
    assert(s.subrange(104, s.len() as int) =~= a.operation_result);
    assert(s.subrange(104, s.len() as int) =~= b.operation_result);
}

/// The `ExecuteWorkflow` rented-compute constraint binding. The AAD binds
/// exactly `(executor_did, max_decrypt_count, result_recipient_pubkey)`.
#[derive(Clone, Debug)]
pub struct ExecuteWorkflow {
    /// The workflow subgraph CID.
    pub workflow_cid: [u8; 32],
    /// Input Node CIDs the workflow reads.
    pub input_node_cids: Vec<[u8; 32]>,
    /// The maximum number of decrypts the rented executor is granted.
    pub max_decrypt_count: u32,
    /// The pubkey the result must be encrypted to.
    pub result_recipient_pubkey: [u8; 32],
    /// The rented executor's DID (string bytes).
    pub executor_did: Vec<u8>,
}

/// The frozen constraint AAD over the three constraint fields.
pub open spec fn constraint_aad_spec(executor_did: Seq<u8>, max_decrypt_count: u32, recipient: Seq<
    u8,
>) -> Seq<u8> {
    EXEC_WORKFLOW_AAD_DOMAIN@ + be_u32(executor_did.len() as u32) + executor_did + be_u32(
        max_decrypt_count,
    ) + recipient
}

impl ExecuteWorkflow {
    /// The frozen constraint binding: the intra-variant domain tag, then the
    /// length-prefixed executor DID, the BE decrypt budget and the result
    /// recipient's public key.
    pub fn constraint_aad(&self) -> (aad: Vec<u8>)
        ensures
            aad@ == constraint_aad_spec(
                self.executor_did@,
                self.max_decrypt_count,
                self.result_recipient_pubkey@,
            ),
    {
        let mut aad: Vec<u8> = Vec::new();
        push_bytes(&mut aad, &EXEC_WORKFLOW_AAD_DOMAIN);
        push_len_prefixed(&mut aad, self.executor_did.as_slice());
        push_be_u32(&mut aad, self.max_decrypt_count);
        push_bytes(&mut aad, &self.result_recipient_pubkey);
        aad
    }
}

/// The constraint AAD binds its three fields: two workflows whose AADs are
/// equal agree on executor DID, decrypt budget and result recipient, so
/// mutating any constraint field changes the AAD.
pub proof fn lemma_constraint_aad_binds_fields(
    did_a: Seq<u8>,
    max_a: u32,
    rcpt_a: Seq<u8>,
    did_b: Seq<u8>,
    max_b: u32,
    rcpt_b: Seq<u8>,
)
    requires
        did_a.len() <= u32::MAX,
        did_b.len() <= u32::MAX,
        constraint_aad_spec(did_a, max_a, rcpt_a) == constraint_aad_spec(did_b, max_b, rcpt_b),
    ensures
        did_a == did_b,
        max_a == max_b,
        rcpt_a == rcpt_b,
{
    let s = constraint_aad_spec(did_a, max_a, rcpt_a);
    let n = did_a.len() as int;
    assert(s.subrange(24, 28) =~= be_u32(did_a.len() as u32));
    assert(s.subrange(24, 28) =~= be_u32(did_b.len() as u32));
    lemma_be_u32_injective(did_a.len() as u32, did_b.len() as u32);
    assert(s.subrange(28, 28 + n) =~= did_a);
    assert(s.subrange(28, 28 + n) =~= did_b);
    assert(s.subrange(28 + n, 32 + n) =~= be_u32(max_a));
    assert(s.subrange(28 + n, 32 + n) =~= be_u32(max_b));
    lemma_be_u32_injective(max_a, max_b);
    assert(s.subrange(32 + n, s.len() as int) =~= rcpt_a);
    assert(s.subrange(32 + n, s.len() as int) =~= rcpt_b);
}

/// An out-of-band RemotePermission codepoint (typed reject).
#[derive(Debug, Clone, Copy, PartialEq, Eq)]
pub struct UnsupportedOperationCodepoint(pub u16);

/// Dispatch a raw RemotePermission codepoint: integers outside the
/// `0x6320..=0x632F` band typed-reject (fail-closed).
pub fn dispatch_remote_permission_codepoint(cp: u16) -> (r: Result<(), UnsupportedOperationCodepoint>)
    ensures
        r is Ok <==> REMOTE_PERMISSION_BAND_BASE <= cp <= REMOTE_PERMISSION_BAND_END,
        r matches Err(e) ==> e.0 == cp,
{
    if REMOTE_PERMISSION_BAND_BASE <= cp && cp <= REMOTE_PERMISSION_BAND_END {
        Ok(())
    } else {
        Err(UnsupportedOperationCodepoint(cp))
    }
}

} // verus!
