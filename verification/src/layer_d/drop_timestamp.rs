//! Layer-D timestamp postures.
//!
//! - [`DropToRecipient`] (sealed-sender drop) carries no timestamp: drops
//!   are forever-valid; freshness rides `recipient_key_generation` and the
//!   nonce-cache.
//! - [`DeviceLinkEpoch`] / remote-permission carry a coarse one-hour bucket
//!   ([`LAYER_D_BUCKET_SECS`]), Layer-D only.
//! - The bucket is [`round_down_to_bucket`]: round down, no jitter.

use vstd::prelude::*;

use crate::bytes::{be_u32, push_be_u32, push_bytes};

verus! {

/// One-hour bucket width (device-link and remote-permission only).
pub const LAYER_D_BUCKET_SECS: u64 = 3600;

/// Sealed-sender drop. Its field set is exactly `{version,
/// recipient_key_generation, hpke_ciphertext}`: no timestamp by
/// construction.
#[derive(Clone, Debug)]
pub struct DropToRecipient {
    /// Wire version (V2).
    pub version: u8,
    /// The recipient key generation freshness rides on.
    pub recipient_key_generation: u32,
    /// The HPKE-wrapped ciphertext.
    pub hpke_ciphertext: Vec<u8>,
}

/// Canonical wire bytes of a drop: the version byte, the BE recipient key
/// generation, the BE `u32` ciphertext length and the ciphertext.
pub open spec fn drop_wire(version: u8, recipient_key_generation: u32, hpke_ciphertext: Seq<u8>) -> Seq<
    u8,
> {
    seq![version] + be_u32(recipient_key_generation) + be_u32(hpke_ciphertext.len() as u32)
        + hpke_ciphertext
}

impl DropToRecipient {
    /// Canonical wire bytes (V2, BE). Only the three fields reach the
    /// wire, so two drops with identical fields serialize identically
    /// whenever they were built.
    pub fn to_wire_be(&self) -> (b: Vec<u8>)
        ensures
            b@ == drop_wire(self.version, self.recipient_key_generation, self.hpke_ciphertext@),
    {
        let mut b: Vec<u8> = Vec::new();
        b.push(self.version);
        push_be_u32(&mut b, self.recipient_key_generation);
        #[verifier::truncate]
        let len: u32 = self.hpke_ciphertext.len() as u32;
        push_be_u32(&mut b, len);
        push_bytes(&mut b, self.hpke_ciphertext.as_slice());
        assert(b@ =~= drop_wire(
            self.version,
            self.recipient_key_generation,
            self.hpke_ciphertext@,
        ));
        b
    }

    /// The wire field-name set the struct serializes; `sealed_at` and
    /// `valid_until` do not appear.
    pub fn wire_field_names() -> (names: [&'static str; 3])
        ensures
            names@.len() == 3,
            names@[0]@ == "version"@,
            names@[1]@ == "recipient_key_generation"@,
            names@[2]@ == "hpke_ciphertext"@,
    {
        ["version", "recipient_key_generation", "hpke_ciphertext"]
    }
}

/// Device-link / remote-permission epoch: a coarse one-hour bucket.
#[derive(Clone, Debug)]
pub struct DeviceLinkEpoch {
    /// Wire version (V2).
    pub version: u8,
    /// The coarse one-hour bucket of grant time (a multiple of 3600).
    pub granted_at_bucket: u64,
}

/// Round a raw unix-seconds time down to the one-hour bucket, with no
/// jitter: the largest multiple of 3600 not above `now_secs`.
pub fn round_down_to_bucket(now_secs: u64) -> (b: u64)
    ensures
        b % 3600 == 0,
        b <= now_secs < b + 3600,
{
    (now_secs / LAYER_D_BUCKET_SECS) * LAYER_D_BUCKET_SECS
}

/// Bucketing is idempotent and monotone: a bucket is its own bucket, and a
/// later time never falls in an earlier bucket.
pub proof fn lemma_bucket_idempotent_monotone(a: u64, b: u64)
    requires
        a <= b,
    ensures
        (a - a % 3600) % 3600 == 0,
        a - a % 3600 <= b - b % 3600,
{
}

} // verus!
