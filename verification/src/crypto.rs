//! The outside cryptographic primitives the library calls: BLAKE3 hashing
//! and Ed25519 signature verification.

use vstd::prelude::*;

verus! {

/// The 32-byte BLAKE3 digest of `data`, as the `blake3` crate computes it.
pub uninterp spec fn blake3_digest(data: Seq<u8>) -> Seq<u8>;

/// Calls `blake3::hash` on `data` and returns its 32 digest bytes.
/// Trusted: the result is the named BLAKE3 digest of the argument; that
/// the digest is BLAKE3 (and so collision-resistant) is not proved here.
#[verifier::external_body]
pub(crate) fn blake3_hash(data: &[u8]) -> (d: [u8; 32])
    ensures
        d@ == blake3_digest(data@),
{
    *blake3::hash(data).as_bytes()
}

/// Whether `sig` is a valid Ed25519 signature by the public key `pk` over
/// `msg`, as `ed25519_dalek` judges it (public-key decoding followed by
/// `Verifier::verify`).
pub uninterp spec fn ed25519_signature_valid(pk: Seq<u8>, msg: Seq<u8>, sig: Seq<u8>) -> bool;

#[verifier::external_type_specification]
#[verifier::external_body]
pub struct ExSignatureError(ed25519_dalek::SignatureError);

/// Verify a detached Ed25519 signature over arbitrary canonical bytes.
/// Calls `ed25519_dalek::VerifyingKey::from_bytes` on the key, then
/// `Verifier::verify` with `Signature::from_bytes(sig)`. Trusted: `Ok`
/// exactly when the named predicate [`ed25519_signature_valid`] holds of
/// the arguments; which keys and signatures are valid is not stated.
#[verifier::external_body]
pub fn verify_canonical(pubkey: &[u8; 32], bytes: &[u8], sig: &[u8; 64]) -> (r: Result<
    (),
    ed25519_dalek::SignatureError,
>)
    ensures
        r is Ok <==> ed25519_signature_valid(pubkey@, bytes@, sig@),
{
    let vk = ed25519_dalek::VerifyingKey::from_bytes(pubkey)?;
    ed25519_dalek::Verifier::verify(&vk, bytes, &ed25519_dalek::Signature::from_bytes(sig))
}

/// The 64-byte Ed25519 signature (RFC 8032, deterministic) that the
/// 32-byte secret key `secret` makes over `msg`, as `ed25519_dalek`
/// computes it.
pub uninterp spec fn ed25519_signature(secret: Seq<u8>, msg: Seq<u8>) -> Seq<u8>;

/// The 32-byte Ed25519 public key of the secret key `secret`, as
/// `ed25519_dalek` derives it.
pub uninterp spec fn ed25519_public_key(secret: Seq<u8>) -> Seq<u8>;

/// Whether `pk` decodes as an Ed25519 public key
/// (`ed25519_dalek::VerifyingKey::from_bytes` succeeds).
pub uninterp spec fn ed25519_key_decodes(pk: Seq<u8>) -> bool;

/// Sign `msg` with the secret key `secret`. Calls
/// `ed25519_dalek::SigningKey::from_bytes` and `Signer::sign`. Trusted:
/// the result is the named signature of the arguments, and (Ed25519
/// correctness) it verifies under the key's own public key.
#[verifier::external_body]
pub(crate) fn ed25519_sign(secret: &[u8; 32], msg: &[u8]) -> (sig: [u8; 64])
    ensures
        sig@ == ed25519_signature(secret@, msg@),
        ed25519_signature_valid(ed25519_public_key(secret@), msg@, sig@),
{
    let sk = ed25519_dalek::SigningKey::from_bytes(secret);
    ed25519_dalek::Signer::sign(&sk, msg).to_bytes()
}

/// The public key of the secret key `secret`. Calls
/// `ed25519_dalek::SigningKey::from_bytes`, `SigningKey::verifying_key`
/// and `VerifyingKey::to_bytes`. Trusted: the result is the named public
/// key of the argument.
#[verifier::external_body]
pub(crate) fn ed25519_public_key_of(secret: &[u8; 32]) -> (pk: [u8; 32])
    ensures
        pk@ == ed25519_public_key(secret@),
{
    ed25519_dalek::SigningKey::from_bytes(secret).verifying_key().to_bytes()
}

/// Whether `pk` decodes as an Ed25519 public key. Calls
/// `ed25519_dalek::VerifyingKey::from_bytes`. Trusted: the result is the
/// named predicate of the argument.
#[verifier::external_body]
pub(crate) fn ed25519_key_valid(pk: &[u8; 32]) -> (r: bool)
    ensures
        r == ed25519_key_decodes(pk@),
{
    ed25519_dalek::VerifyingKey::from_bytes(pk).is_ok()
}

/// Constant-time equality of two 32-byte strings. Calls
/// `subtle::ConstantTimeEq::ct_eq` on the two slices and
/// `Choice::unwrap_u8`. Trusted: `true` exactly when the bytes are equal,
/// as `ct_eq` documents.
#[verifier::external_body]
pub(crate) fn ct_eq_32(a: &[u8; 32], b: &[u8; 32]) -> (r: bool)
    ensures
        r == (a@ == b@),
{
    subtle::ConstantTimeEq::ct_eq(&a[..], &b[..]).unwrap_u8() == 1
}

} // verus!
