//! Layer-D multi-device key-wrap-on-device-link (codepoint band
//! `0x6310..=0x631F`).
//!
//! Device B publishes a [`ProvisioningOffer`]; device A HPKE-seals a
//! [`ProvisioningInnerPayload`] to B's recipient key and signs it with the
//! user-DID key. This module owns the canonical big-endian bytes of the
//! inner payload, their bounded decoder, the bytes the offer signature
//! covers, the open path's checks in order (signature, unwrap, session
//! binding), the recipient fingerprint and the band dispatcher.

use vstd::prelude::*;

use crate::bytes::{
    be_u32, be_u32_value, be_u64, be_u64_value, concat_chunks, lemma_be_u32_round_trip,
    lemma_be_u64_round_trip, push_be_u32, push_be_u64, push_bytes,
};
use crate::crypto::{blake3_digest, blake3_hash, ed25519_signature_valid, verify_canonical};

verus! {

/// Provisioning wire-format version (V2 from the first commit).
pub const PROVISIONING_WIRE_VERSION: u8 = 2;

/// DeviceLink band base.
pub const DEVICE_LINK_BAND_BASE: u16 = 0x6310;

/// DeviceLink band end (inclusive).
pub const DEVICE_LINK_BAND_END: u16 = 0x631F;

/// What device B publishes in its QR code.
#[derive(Clone, Debug)]
pub struct ProvisioningOffer {
    /// Provisioning wire version (V2).
    pub version: u8,
    /// Device fingerprint A confirms out-of-band: BLAKE3 over the recipient
    /// public material (reserved seam; enforcement deferred).
    pub device_b_fingerprint: [u8; 32],
    /// The provisioning session id (replay and session binding).
    pub provisioning_session_id: [u8; 32],
}

/// The secret payload A seals to B's public key. Carries the
/// identity-equivalent `K_principal`; it has no `Debug` so the key
/// material cannot leak through a log surface.
#[derive(Clone)]
pub struct ProvisioningInnerPayload {
    /// The principal root key.
    pub k_principal: [u8; 32],
    /// The user-DID signing key.
    pub user_did_signing_key: [u8; 32],
    /// The user-DID public key.
    pub user_did_pubkey: [u8; 32],
    /// The Atrium membership-set CIDs B is being granted.
    pub atrium_memberships: Vec<[u8; 32]>,
    /// The provisioning session id bound into the inner payload.
    pub provisioning_session_id: [u8; 32],
    /// Coarse one-hour bucket of grant time.
    pub granted_at_bucket: u64,
}

/// Mathematical model of a [`ProvisioningInnerPayload`].
pub struct InnerPayloadView {
    pub k_principal: Seq<u8>,
    pub user_did_signing_key: Seq<u8>,
    pub user_did_pubkey: Seq<u8>,
    pub atrium_memberships: Seq<Seq<u8>>,
    pub provisioning_session_id: Seq<u8>,
    pub granted_at_bucket: u64,
}

impl View for ProvisioningInnerPayload {
    type V = InnerPayloadView;

    open spec fn view(&self) -> InnerPayloadView {
        InnerPayloadView {
            k_principal: self.k_principal@,
            user_did_signing_key: self.user_did_signing_key@,
            user_did_pubkey: self.user_did_pubkey@,
            atrium_memberships: self.atrium_memberships@.map_values(|m: [u8; 32]| m@),
            provisioning_session_id: self.provisioning_session_id@,
            granted_at_bucket: self.granted_at_bucket,
        }
    }
}

impl InnerPayloadView {
    /// Every key, id and membership CID holds 32 bytes and the membership
    /// count fits its `u32` prefix.
    pub open spec fn wire_safe(self) -> bool {
        &&& self.k_principal.len() == 32
        &&& self.user_did_signing_key.len() == 32
        &&& self.user_did_pubkey.len() == 32
        &&& self.provisioning_session_id.len() == 32
        &&& self.atrium_memberships.len() <= u32::MAX
        &&& forall|i: int|
            0 <= i < self.atrium_memberships.len() ==> #[trigger] self.atrium_memberships[i].len()
                == 32
    }
}

/// Canonical big-endian bytes of an inner payload: the three keys, the BE
/// `u32` membership count, every membership CID, the session id and the BE
/// grant bucket.
pub open spec fn inner_canonical(p: InnerPayloadView) -> Seq<u8> {
    p.k_principal + p.user_did_signing_key + p.user_did_pubkey + be_u32(
        p.atrium_memberships.len() as u32,
    ) + concat_chunks(p.atrium_memberships) + p.provisioning_session_id + be_u64(
        p.granted_at_bucket,
    )
}

/// The membership count declared at bytes `96..100`.
pub open spec fn declared_count(b: Seq<u8>) -> u32 {
    be_u32_value(b.subrange(96, 100))
}

/// The bounded decoder accepts `b` exactly when it holds the three keys,
/// the count, the declared number of membership CIDs, the session id and
/// the bucket (trailing bytes are ignored).
pub open spec fn inner_parse_ok(b: Seq<u8>) -> bool {
    b.len() >= 100 && 140 + 32 * declared_count(b) <= b.len()
}

/// The payload the bounded decoder reads from `b`.
pub open spec fn inner_parsed(b: Seq<u8>) -> InnerPayloadView {
    let c = declared_count(b) as int;
    InnerPayloadView {
        k_principal: b.subrange(0, 32),
        user_did_signing_key: b.subrange(32, 64),
        user_did_pubkey: b.subrange(64, 96),
        atrium_memberships: Seq::new(c as nat, |i: int| b.subrange(100 + 32 * i, 132 + 32 * i)),
        provisioning_session_id: b.subrange(100 + 32 * c, 132 + 32 * c),
        granted_at_bucket: be_u64_value(b.subrange(132 + 32 * c, 140 + 32 * c)),
    }
}

impl ProvisioningInnerPayload {
    /// Canonical BE bytes for HPKE sealing (length-injective).
    pub fn to_canonical_be(&self) -> (b: Vec<u8>)
        ensures
            b@ == inner_canonical(self@),
    {
        let mut b: Vec<u8> = Vec::new();
        push_bytes(&mut b, &self.k_principal);
        push_bytes(&mut b, &self.user_did_signing_key);
        push_bytes(&mut b, &self.user_did_pubkey);
        #[verifier::truncate]
        let count: u32 = self.atrium_memberships.len() as u32;
        push_be_u32(&mut b, count);
        let ghost head = b@;
        let ghost ms = self@.atrium_memberships;
        let n = self.atrium_memberships.len();
        let mut i: usize = 0;
        while i < n
            invariant
                n == self.atrium_memberships@.len(),
                ms == self@.atrium_memberships,
                i <= n,
                b@ == head + concat_chunks(ms.subrange(0, i as int)),
            decreases n - i,
        {
            push_bytes(&mut b, &self.atrium_memberships[i]);
            assert(ms.subrange(0, i + 1).drop_last() =~= ms.subrange(0, i as int));
            i += 1;
        }
        assert(ms.subrange(0, n as int) =~= ms);
        push_bytes(&mut b, &self.provisioning_session_id);
        push_be_u64(&mut b, self.granted_at_bucket);
        b
    }
}

/// A concatenation of 32-byte chunks is 32 bytes per chunk long and holds
/// chunk `i` at bytes `32 * i .. 32 * i + 32`.
pub proof fn lemma_concat_chunks_32(ms: Seq<Seq<u8>>)
    requires
        forall|i: int| 0 <= i < ms.len() ==> #[trigger] ms[i].len() == 32,
    ensures
        concat_chunks(ms).len() == 32 * ms.len(),
        forall|i: int|
            0 <= i < ms.len() ==> #[trigger] concat_chunks(ms).subrange(32 * i, 32 * i + 32)
                == ms[i],
    decreases ms.len(),
{
    if ms.len() > 0 {
        let front = ms.drop_last();
        lemma_concat_chunks_32(front);
        let c = concat_chunks(ms);
        assert(c == concat_chunks(front) + ms.last());
        assert forall|i: int| 0 <= i < ms.len() implies #[trigger] c.subrange(32 * i, 32 * i + 32)
            == ms[i] by {
            if i < front.len() {
                assert(c.subrange(32 * i, 32 * i + 32) =~= concat_chunks(front).subrange(
                    32 * i,
                    32 * i + 32,
                ));
                assert(front[i] == ms[i]);
            } else {
                assert(c.subrange(32 * i, 32 * i + 32) =~= ms.last());
            }
        }
    }
}

/// Round trip: the bounded decoder accepts the canonical bytes of every
/// well-formed inner payload and reads back exactly that payload.
pub proof fn lemma_inner_round_trip(p: InnerPayloadView)
    requires
        p.wire_safe(),
    ensures
        inner_parse_ok(inner_canonical(p)),
        inner_parsed(inner_canonical(p)) == p,
{
    let b = inner_canonical(p);
    let ms = p.atrium_memberships;
    let c = ms.len() as int;
    lemma_concat_chunks_32(ms);
    let chunks = concat_chunks(ms);
    assert(b.subrange(96, 100) =~= be_u32(ms.len() as u32));
    lemma_be_u32_round_trip(ms.len() as u32);
    assert(declared_count(b) == c);
    assert(b.len() == 140 + 32 * c);
    let q = inner_parsed(b);
    assert(q.k_principal =~= p.k_principal);
    assert(q.user_did_signing_key =~= p.user_did_signing_key);
    assert(q.user_did_pubkey =~= p.user_did_pubkey);
    assert forall|i: int| 0 <= i < c implies #[trigger] q.atrium_memberships[i] == ms[i] by {
        assert(b.subrange(100 + 32 * i, 132 + 32 * i) =~= chunks.subrange(32 * i, 32 * i + 32));
    }
    assert(q.atrium_memberships =~= ms);
    assert(q.provisioning_session_id =~= p.provisioning_session_id);
    assert(b.subrange(132 + 32 * c, 140 + 32 * c) =~= be_u64(p.granted_at_bucket));
    lemma_be_u64_round_trip(p.granted_at_bucket);
}

/// Copy the 32 bytes at `off`.
fn read32(bytes: &[u8], off: usize) -> (a: [u8; 32])
    requires
        off + 32 <= bytes@.len(),
    ensures
        a@ == bytes@.subrange(off as int, off + 32),
{
    let mut a = [0u8; 32];
    let mut i: usize = 0;
    while i < 32
        invariant
            i <= 32,
            off + 32 <= bytes@.len(),
            bytes@.len() == bytes.len(),
            a@.len() == 32,
            forall|j: int| 0 <= j < i ==> a@[j] == bytes@[off + j],
        decreases 32 - i,
    {
        a[i] = bytes[off + i];
        i += 1;
    }
    assert(a@ =~= bytes@.subrange(off as int, off + 32));
    a
}

/// Parse the canonical BE inner-payload bytes (inverse of
/// [`ProvisioningInnerPayload::to_canonical_be`]). Bounded decode: a
/// membership count that would over-run the buffer returns `None`.
pub fn parse_inner_be(bytes: &[u8]) -> (r: Option<ProvisioningInnerPayload>)
    ensures
        r is Some <==> inner_parse_ok(bytes@),
        r matches Some(p) ==> p@ == inner_parsed(bytes@),
{
    let len = bytes.len();
    if len < 100 {
        return None;
    }
    let count: u32 = ((bytes[96] as u32) << 24u32) | ((bytes[97] as u32) << 16u32) | ((
    bytes[98] as u32) << 8u32) | (bytes[99] as u32);
    assert(count == declared_count(bytes@));
    if (count as u64) * 32 + 140 > len as u64 {
        return None;
    }
    let k_principal = read32(bytes, 0);
    let user_did_signing_key = read32(bytes, 32);
    let user_did_pubkey = read32(bytes, 64);
    let c = count as usize;
    let ghost target = inner_parsed(bytes@);
    let mut atrium_memberships: Vec<[u8; 32]> = Vec::new();
    let mut i: usize = 0;
    while i < c
        invariant
            c == count,
            count == declared_count(bytes@),
            140 + 32 * c <= bytes@.len(),
            len == bytes@.len(),
            target == inner_parsed(bytes@),
            i <= c,
            atrium_memberships@.len() == i,
            forall|j: int|
                0 <= j < i ==> #[trigger] atrium_memberships@[j]@ == target.atrium_memberships[j],
        decreases c - i,
    {
        let m = read32(bytes, 100 + 32 * i);
        atrium_memberships.push(m);
        i += 1;
    }
    let sid_off = 100 + 32 * c;
    let provisioning_session_id = read32(bytes, sid_off);
    let o = sid_off + 32;
    let granted_at_bucket: u64 = ((bytes[o] as u64) << 56u64) | ((bytes[o + 1] as u64) << 48u64)
        | ((bytes[o + 2] as u64) << 40u64) | ((bytes[o + 3] as u64) << 32u64) | ((bytes[o
        + 4] as u64) << 24u64) | ((bytes[o + 5] as u64) << 16u64) | ((bytes[o + 6] as u64)
        << 8u64) | (bytes[o + 7] as u64);
    assert(granted_at_bucket == be_u64_value(bytes@.subrange(o as int, o + 8)));
    let p = ProvisioningInnerPayload {
        k_principal,
        user_did_signing_key,
        user_did_pubkey,
        atrium_memberships,
        provisioning_session_id,
        granted_at_bucket,
    };
    assert(p@.atrium_memberships =~= target.atrium_memberships);
    Some(p)
}

/// Errors raised on the device-link path.
#[derive(Debug, Clone, PartialEq, Eq)]
#[non_exhaustive]
pub enum DeviceLinkError {
    /// The user-DID signature on the provisioning offer did not verify.
    OfferSignatureForged,
    /// The HPKE unwrap failed (wrong recipient secret, or the recovered
    /// bytes do not decode as an inner payload).
    HpkeUnwrapFailed,
    /// The recovered inner payload's session id did not match the offer's.
    SessionIdMismatch,
    /// The provisioning session id was already consumed (replay defense).
    SessionIdReplayed,
}

/// The checks device B runs on the bytes the HPKE unwrap recovered: decode
/// them as an inner payload (a malformed payload counts as a failed
/// unwrap), then confirm the payload is bound to the offer's session id.
pub fn check_recovered_inner(recovered: &[u8], offer_session_id: &[u8; 32]) -> (r: Result<
    ProvisioningInnerPayload,
    DeviceLinkError,
>)
    ensures
        !inner_parse_ok(recovered@) ==> r == Err::<ProvisioningInnerPayload, DeviceLinkError>(
            DeviceLinkError::HpkeUnwrapFailed,
        ),
        inner_parse_ok(recovered@) && inner_parsed(recovered@).provisioning_session_id
            != offer_session_id@ ==> r == Err::<ProvisioningInnerPayload, DeviceLinkError>(
            DeviceLinkError::SessionIdMismatch,
        ),
        r is Ok <==> inner_parse_ok(recovered@) && inner_parsed(recovered@).provisioning_session_id
            == offer_session_id@,
        r matches Ok(p) ==> p@ == inner_parsed(recovered@),
{
    match parse_inner_be(recovered) {
        None => Err(DeviceLinkError::HpkeUnwrapFailed),
        Some(inner) => {
            if !crate::bytes::bytes32_eq(&inner.provisioning_session_id, offer_session_id) {
                Err(DeviceLinkError::SessionIdMismatch)
            } else {
                Ok(inner)
            }
        },
    }
}

/// The wire material of an HPKE-wrapped key: the suite codepoint, the two
/// encapsulated keys, and the AEAD envelope's wire bytes.
#[derive(Clone, Debug)]
pub struct WrappedKeyWire {
    /// The wrapping suite's codepoint.
    pub codepoint: u16,
    /// The X25519 encapsulated key.
    pub ek_x: Vec<u8>,
    /// The ML-KEM encapsulated key.
    pub ek_mlkem: Vec<u8>,
    /// The AEAD envelope's wire bytes.
    pub aead_wire: Vec<u8>,
}

/// The signed wire wrapper device A transmits: the wrapped inner payload
/// and A's user-DID signature over the provisioning signing bytes.
#[derive(Clone, Debug)]
pub struct ProvisioningPayload {
    /// Provisioning wire version.
    pub version: u8,
    /// The provisioning session id.
    pub provisioning_session_id: [u8; 32],
    /// The wrapped inner payload.
    pub wrapped: WrappedKeyWire,
    /// A's user-DID detached signature over the signing bytes.
    pub user_did_signature: Vec<u8>,
}

/// Big-endian bytes of a 16-bit value.
pub open spec fn be_u16(x: u16) -> Seq<u8> {
    seq![(x / 256) as u8, (x % 256) as u8]
}

/// The bytes the offer signature covers: the domain-separation prefix, the
/// session id, then the wrapped key's codepoint (big-endian), its two
/// encapsulated keys each after a 4-byte big-endian length, and the AEAD
/// envelope's wire bytes.
pub open spec fn provisioning_signing_spec(domain: Seq<u8>, session_id: Seq<u8>, w: WrappedKeyWire) -> Seq<u8> {
    domain + session_id + be_u16(w.codepoint) + be_u32(w.ek_x@.len() as u32) + w.ek_x@ + be_u32(
        w.ek_mlkem@.len() as u32,
    ) + w.ek_mlkem@ + w.aead_wire@
}

/// The canonical signing bytes of an offer; `domain` is the provisioning
/// domain-separation tag.
pub fn provisioning_signing_bytes(domain: &[u8], session_id: &[u8; 32], wrapped: &WrappedKeyWire) -> (b:
    Vec<u8>)
    ensures
        b@ == provisioning_signing_spec(domain@, session_id@, *wrapped),
{
    let mut b: Vec<u8> = Vec::new();
    push_bytes(&mut b, domain);
    push_bytes(&mut b, session_id);
    b.push((wrapped.codepoint / 256) as u8);
    b.push((wrapped.codepoint % 256) as u8);
    let ghost head = b@;
    crate::bytes::push_len_prefixed(&mut b, wrapped.ek_x.as_slice());
    crate::bytes::push_len_prefixed(&mut b, wrapped.ek_mlkem.as_slice());
    push_bytes(&mut b, wrapped.aead_wire.as_slice());
    assert(b@ =~= provisioning_signing_spec(domain@, session_id@, *wrapped));
    b
}

/// Whether the offer's signature is a 64-byte Ed25519 signature by
/// `user_did_pubkey` over its signing bytes.
pub open spec fn offer_signed(user_did_pubkey: Seq<u8>, domain: Seq<u8>, p: ProvisioningPayload) -> bool {
    p.user_did_signature@.len() == 64 && ed25519_signature_valid(
        user_did_pubkey,
        provisioning_signing_spec(domain, p.provisioning_session_id@, p.wrapped),
        p.user_did_signature@,
    )
}

/// What the post-unwrap checks answer on recovered bytes.
pub open spec fn recovered_verdict(recovered: Seq<u8>, session_id: Seq<u8>) -> Result<
    InnerPayloadView,
    DeviceLinkError,
> {
    if !inner_parse_ok(recovered) {
        Err(DeviceLinkError::HpkeUnwrapFailed)
    } else if inner_parsed(recovered).provisioning_session_id != session_id {
        Err(DeviceLinkError::SessionIdMismatch)
    } else {
        Ok(inner_parsed(recovered))
    }
}

/// Device B opens an offer: authenticate it first (A's user-DID signature
/// over the signing bytes; a forged or unsigned offer is refused before
/// any unwrap), then `unwrap` the inner payload with B's recipient secret
/// (`None`: the unwrap failed), then decode it and confirm its session id.
/// `unwrap` need only be callable once the signature verified.
pub fn open_provisioning_payload<F: FnOnce() -> Option<Vec<u8>>>(
    user_did_pubkey: &[u8; 32],
    domain: &[u8],
    payload: &ProvisioningPayload,
    unwrap: F,
) -> (r: Result<ProvisioningInnerPayload, DeviceLinkError>)
    requires
        offer_signed(user_did_pubkey@, domain@, *payload) ==> unwrap.requires(()),
    ensures
        !offer_signed(user_did_pubkey@, domain@, *payload) ==> r == Err::<
            ProvisioningInnerPayload,
            DeviceLinkError,
        >(DeviceLinkError::OfferSignatureForged),
        offer_signed(user_did_pubkey@, domain@, *payload) ==> exists|rec: Option<Vec<u8>>|
            #![trigger unwrap.ensures((), rec)]
            unwrap.ensures((), rec) && match rec {
                None => r == Err::<ProvisioningInnerPayload, DeviceLinkError>(
                    DeviceLinkError::HpkeUnwrapFailed,
                ),
                Some(b) => match recovered_verdict(b@, payload.provisioning_session_id@) {
                    Ok(v) => r matches Ok(p) && p@ == v,
                    Err(e) => r == Err::<ProvisioningInnerPayload, DeviceLinkError>(e),
                },
            },
{
    let n = payload.user_did_signature.len();
    if n != 64 {
        return Err(DeviceLinkError::OfferSignatureForged);
    }
    let mut sig = [0u8; 64];
    let mut i: usize = 0;
    while i < 64
        invariant
            i <= 64,
            payload.user_did_signature@.len() == 64,
            sig@.len() == 64,
            forall|j: int| 0 <= j < i ==> sig@[j] == payload.user_did_signature@[j],
        decreases 64 - i,
    {
        sig[i] = payload.user_did_signature[i];
        i += 1;
    }
    assert(sig@ =~= payload.user_did_signature@);
    let signing = provisioning_signing_bytes(domain, &payload.provisioning_session_id, &payload.wrapped);
    if verify_canonical(user_did_pubkey, signing.as_slice(), &sig).is_err() {
        return Err(DeviceLinkError::OfferSignatureForged);
    }
    let recovered = unwrap();
    match recovered {
        None => Err(DeviceLinkError::HpkeUnwrapFailed),
        Some(b) => check_recovered_inner(b.as_slice(), &payload.provisioning_session_id),
    }
}

/// Fingerprint over a recipient's public material (BLAKE3), which A
/// confirms out-of-band before sealing (reserved seam).
pub fn fingerprint_recipient(recipient_pub_bytes: &[u8]) -> (f: [u8; 32])
    ensures
        f@ == blake3_digest(recipient_pub_bytes@),
{
    blake3_hash(recipient_pub_bytes)
}

/// Dispatch a raw DeviceLink codepoint: integers outside the
/// `0x6310..=0x631F` band typed-reject with the codepoint.
pub fn dispatch_device_link_codepoint(cp: u16) -> (r: Result<(), u16>)
    ensures
        r is Ok <==> DEVICE_LINK_BAND_BASE <= cp <= DEVICE_LINK_BAND_END,
        r matches Err(e) ==> e == cp,
{
    if DEVICE_LINK_BAND_BASE <= cp && cp <= DEVICE_LINK_BAND_END {
        Ok(())
    } else {
        Err(cp)
    }
}

} // verus!
