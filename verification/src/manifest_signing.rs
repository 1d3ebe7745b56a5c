//! Manifest signing and verification.
//!
//! A manifest's Ed25519 signature covers its canonical bytes with the
//! `signature` field cleared (the application layer's DAG-CBOR encoder
//! produces those bytes). Verification follows the operator's policy:
//!
//! - `Unsigned` skips verification (development only);
//! - `Any` needs at least one of a UCAN delegation chain or a
//!   publisher-registry key, and every path presented must verify;
//! - `All` needs both, and both must verify.
//!
//! The UCAN path always runs before the registry path, so a UCAN failure
//! is the one reported when both fail. Registry mutations need a UCAN
//! delegation rooted at the registry's admin DID.

use vstd::prelude::*;
use vstd::string::StringExecFns;
use vstd::utf8::encode_utf8;

use crate::base64::{
    ascii_chars, base64_decode, base64_encode, base64_error_text, decode_spec, encode_spec,
    lemma_base64_round_trip, lemma_encoded_text_bytes,
};
use crate::crypto::{
    ed25519_key_decodes, ed25519_key_valid, ed25519_public_key, ed25519_public_key_of, ed25519_sign,
    ed25519_signature,
    ed25519_signature_valid, verify_canonical,
};
use crate::error::{EngineError, ErrorCode};
use crate::module_manifest::{ManifestSignature, ModuleManifest};
use crate::property::PropertyValue;
use crate::text::{decimal, push_decimal, str_eq};

verus! {

/// Verification policy for installing a module manifest.
#[derive(Clone, Copy, Debug, PartialEq, Eq, Structural)]
pub enum ManifestVerifyMode {
    /// Skip signature verification entirely (development only).
    Unsigned,
    /// Either path suffices; every path presented must verify. With
    /// neither path present the answer is `NoPathPresent`.
    Any,
    /// Both the UCAN path and the registry path are required.
    All,
}

impl Default for ManifestVerifyMode {
    /// The default policy is [`ManifestVerifyMode::Any`].
    fn default() -> (m: Self)
        ensures
            m == ManifestVerifyMode::Any,
    {
        ManifestVerifyMode::Any
    }
}

/// The variant of a [`ManifestVerifyError`], without its detail.
#[derive(Clone, Copy, Debug, PartialEq, Eq, Structural)]
pub enum VerifyErrorKind {
    /// See [`ManifestVerifyError::Unsigned`].
    Unsigned,
    /// See [`ManifestVerifyError::SignatureMalformed`].
    SignatureMalformed,
    /// See [`ManifestVerifyError::UcanInvalid`].
    UcanInvalid,
    /// See [`ManifestVerifyError::RegistryInvalid`].
    RegistryInvalid,
    /// See [`ManifestVerifyError::UcanRequiredByModeAll`].
    UcanRequiredByModeAll,
    /// See [`ManifestVerifyError::RegistryRequiredByModeAll`].
    RegistryRequiredByModeAll,
    /// See [`ManifestVerifyError::NoPathPresent`].
    NoPathPresent,
}

/// Errors produced by manifest signing / verification; the variant names
/// which check failed.
#[derive(Debug, Clone, PartialEq, Eq)]
#[non_exhaustive]
pub enum ManifestVerifyError {
    /// The manifest carries no signature and the policy requires one.
    Unsigned,
    /// The signature does not decode (bad base64, not 64 bytes).
    SignatureMalformed(String),
    /// The UCAN chain does not verify.
    UcanInvalid(String),
    /// The signature does not verify under the registry key.
    RegistryInvalid,
    /// Mode `All` without a UCAN chain.
    UcanRequiredByModeAll,
    /// Mode `All` without a registry key.
    RegistryRequiredByModeAll,
    /// Mode `Any` with neither path.
    NoPathPresent,
}

impl View for ManifestVerifyError {
    type V = (VerifyErrorKind, Seq<char>);

    /// The variant and the characters of its detail (empty when the
    /// variant carries none).
    open spec fn view(&self) -> (VerifyErrorKind, Seq<char>) {
        match self {
            ManifestVerifyError::Unsigned => (VerifyErrorKind::Unsigned, Seq::empty()),
            ManifestVerifyError::SignatureMalformed(s) => (VerifyErrorKind::SignatureMalformed, s@),
            ManifestVerifyError::UcanInvalid(s) => (VerifyErrorKind::UcanInvalid, s@),
            ManifestVerifyError::RegistryInvalid => (VerifyErrorKind::RegistryInvalid, Seq::empty()),
            ManifestVerifyError::UcanRequiredByModeAll => (
                VerifyErrorKind::UcanRequiredByModeAll,
                Seq::empty(),
            ),
            ManifestVerifyError::RegistryRequiredByModeAll => (
                VerifyErrorKind::RegistryRequiredByModeAll,
                Seq::empty(),
            ),
            ManifestVerifyError::NoPathPresent => (VerifyErrorKind::NoPathPresent, Seq::empty()),
        }
    }
}

/// A failure of `kind` with no detail.
pub open spec fn failure(kind: VerifyErrorKind) -> (VerifyErrorKind, Seq<char>) {
    (kind, Seq::empty())
}

/// A malformed-signature failure with `detail`.
pub open spec fn malformed(detail: Seq<char>) -> (VerifyErrorKind, Seq<char>) {
    (VerifyErrorKind::SignatureMalformed, detail)
}

/// A UCAN failure with `detail`.
pub open spec fn ucan_invalid(detail: Seq<char>) -> (VerifyErrorKind, Seq<char>) {
    (VerifyErrorKind::UcanInvalid, detail)
}

/// The stable catalog code of each verification failure.
pub open spec fn verify_error_code(kind: VerifyErrorKind) -> Seq<char> {
    match kind {
        VerifyErrorKind::Unsigned => "E_MODULE_MANIFEST_UNSIGNED"@,
        VerifyErrorKind::SignatureMalformed => "E_MODULE_MANIFEST_SIGNATURE_MALFORMED"@,
        VerifyErrorKind::UcanInvalid => "E_MODULE_MANIFEST_UCAN_INVALID"@,
        VerifyErrorKind::RegistryInvalid => "E_MODULE_MANIFEST_REGISTRY_INVALID"@,
        VerifyErrorKind::UcanRequiredByModeAll => "E_MODULE_MANIFEST_UCAN_REQUIRED"@,
        VerifyErrorKind::RegistryRequiredByModeAll => "E_MODULE_MANIFEST_REGISTRY_REQUIRED"@,
        VerifyErrorKind::NoPathPresent => "E_MODULE_MANIFEST_NO_PATH_PRESENT"@,
    }
}

/// The operator-readable text of each verification failure.
pub open spec fn verify_error_text(e: (VerifyErrorKind, Seq<char>)) -> Seq<char> {
    match e.0 {
        VerifyErrorKind::Unsigned => "module manifest is unsigned (signature: None)"@,
        VerifyErrorKind::SignatureMalformed => "module manifest signature is malformed: "@ + e.1,
        VerifyErrorKind::UcanInvalid => "module manifest UCAN chain invalid: "@ + e.1,
        VerifyErrorKind::RegistryInvalid => "module manifest registry-key signature invalid"@,
        VerifyErrorKind::UcanRequiredByModeAll =>
            "manifest verify mode 'All' requires a UCAN proof chain"@,
        VerifyErrorKind::RegistryRequiredByModeAll =>
            "manifest verify mode 'All' requires a publisher-registry public key"@,
        VerifyErrorKind::NoPathPresent =>
            "manifest verify mode 'Any' requires at least one of UCAN chain or registry key"@,
    }
}

impl ManifestVerifyError {
    /// Stable error code for cross-language surfacing.
    pub fn code(&self) -> (c: ErrorCode)
        ensures
            c matches ErrorCode::Unknown(s) && s@ == verify_error_code(self@.0),
    {
        let s = match self {
            ManifestVerifyError::Unsigned => "E_MODULE_MANIFEST_UNSIGNED",
            ManifestVerifyError::SignatureMalformed(_) => "E_MODULE_MANIFEST_SIGNATURE_MALFORMED",
            ManifestVerifyError::UcanInvalid(_) => "E_MODULE_MANIFEST_UCAN_INVALID",
            ManifestVerifyError::RegistryInvalid => "E_MODULE_MANIFEST_REGISTRY_INVALID",
            ManifestVerifyError::UcanRequiredByModeAll => "E_MODULE_MANIFEST_UCAN_REQUIRED",
            ManifestVerifyError::RegistryRequiredByModeAll => "E_MODULE_MANIFEST_REGISTRY_REQUIRED",
            ManifestVerifyError::NoPathPresent => "E_MODULE_MANIFEST_NO_PATH_PRESENT",
        };
        ErrorCode::Unknown(String::from_str(s))
    }

    /// The operator-readable text of this error.
    pub fn message(&self) -> (s: String)
        ensures
            s@ == verify_error_text(self@),
    {
        match self {
            ManifestVerifyError::Unsigned => String::from_str(
                "module manifest is unsigned (signature: None)",
            ),
            ManifestVerifyError::SignatureMalformed(d) => {
                let mut s = String::from_str("module manifest signature is malformed: ");
                s.append(d.as_str());
                s
            },
            ManifestVerifyError::UcanInvalid(d) => {
                let mut s = String::from_str("module manifest UCAN chain invalid: ");
                s.append(d.as_str());
                s
            },
            ManifestVerifyError::RegistryInvalid => String::from_str(
                "module manifest registry-key signature invalid",
            ),
            ManifestVerifyError::UcanRequiredByModeAll => String::from_str(
                "manifest verify mode 'All' requires a UCAN proof chain",
            ),
            ManifestVerifyError::RegistryRequiredByModeAll => String::from_str(
                "manifest verify mode 'All' requires a publisher-registry public key",
            ),
            ManifestVerifyError::NoPathPresent => String::from_str(
                "manifest verify mode 'Any' requires at least one of UCAN chain or registry key",
            ),
        }
    }
}

/// Errors produced by publisher-registry mutations.
#[derive(Debug, Clone, PartialEq, Eq)]
#[non_exhaustive]
pub enum PublisherRegistryError {
    /// Mutation attempted without a UCAN delegation.
    UcanRequired,
    /// The UCAN delegation does not authorize the mutation.
    UcanInvalid(String),
}

/// The stable catalog code of a registry error (`true`: UCAN required).
pub open spec fn registry_error_code(required: bool) -> Seq<char> {
    if required {
        "E_PUBLISHER_REGISTRY_UCAN_REQUIRED"@
    } else {
        "E_PUBLISHER_REGISTRY_UCAN_INVALID"@
    }
}

/// The text of [`PublisherRegistryError::UcanRequired`].
pub open spec fn ucan_required_text() -> Seq<char> {
    "publisher-registry mutation requires UCAN delegation"@
}

impl PublisherRegistryError {
    /// Stable error code.
    pub fn code(&self) -> (c: ErrorCode)
        ensures
            c matches ErrorCode::Unknown(s) && s@ == registry_error_code(
                *self is UcanRequired,
            ),
    {
        match self {
            PublisherRegistryError::UcanRequired => ErrorCode::Unknown(
                String::from_str("E_PUBLISHER_REGISTRY_UCAN_REQUIRED"),
            ),
            PublisherRegistryError::UcanInvalid(_) => ErrorCode::Unknown(
                String::from_str("E_PUBLISHER_REGISTRY_UCAN_INVALID"),
            ),
        }
    }

    /// The operator-readable text of this error.
    pub fn message(&self) -> (s: String)
        ensures
            s@ == match self {
                PublisherRegistryError::UcanRequired => ucan_required_text(),
                PublisherRegistryError::UcanInvalid(d) =>
                    "publisher-registry UCAN delegation invalid: "@ + d@,
            },
    {
        match self {
            PublisherRegistryError::UcanRequired => String::from_str(
                "publisher-registry mutation requires UCAN delegation",
            ),
            PublisherRegistryError::UcanInvalid(d) => {
                let mut s = String::from_str("publisher-registry UCAN delegation invalid: ");
                s.append(d.as_str());
                s
            },
        }
    }
}

/// The detail of a signature whose decoded length is `n`.
pub open spec fn decoded_length_text(n: nat) -> Seq<char> {
    "ed25519 signature must be 64 bytes; got "@ + decimal(n)
}

/// The detail of a raw signature of length `n`.
pub open spec fn raw_length_text(n: nat) -> Seq<char> {
    "ed25519 signature MUST be 64 bytes; got "@ + decimal(n)
}

/// The signature bytes a manifest carries: its base64 `ed25519` field,
/// decoded and required to be 64 bytes long.
pub open spec fn decode_signature_spec(m: ModuleManifest) -> Result<
    Seq<u8>,
    (VerifyErrorKind, Seq<char>),
> {
    match m.signature {
        None => Err(failure(VerifyErrorKind::Unsigned)),
        Some(sig) => match sig.ed25519 {
            None => Err(failure(VerifyErrorKind::Unsigned)),
            Some(b64) => match decode_spec(encode_utf8(b64@)) {
                Err(e) => Err(malformed("base64: "@ + base64_error_text(e))),
                Ok(bytes) => if bytes.len() != 64 {
                    Err(malformed(decoded_length_text(bytes.len())))
                } else {
                    Ok(bytes)
                },
            },
        },
    }
}

/// The verdict of a function returning `Result<T, ManifestVerifyError>`,
/// with the error by its view.
pub open spec fn verdict<T>(r: Result<T, ManifestVerifyError>) -> Result<
    (),
    (VerifyErrorKind, Seq<char>),
> {
    match r {
        Ok(_) => Ok(()),
        Err(e) => Err(e@),
    }
}

/// Decode the manifest's signature field into its 64 raw bytes.
pub fn decode_signature(manifest: &ModuleManifest) -> (r: Result<Vec<u8>, ManifestVerifyError>)
    ensures
        match decode_signature_spec(*manifest) {
            Ok(bytes) => r matches Ok(v) && v@ == bytes,
            Err(e) => r matches Err(x) && x@ == e,
        },
{
    let sig = match &manifest.signature {
        Some(sig) => sig,
        None => {
            return Err(ManifestVerifyError::Unsigned);
        },
    };
    let b64 = match &sig.ed25519 {
        Some(b64) => b64,
        None => {
            return Err(ManifestVerifyError::Unsigned);
        },
    };
    let bytes = match base64_decode(b64.as_str()) {
        Ok(bytes) => bytes,
        Err(e) => {
            let mut detail = String::from_str("base64: ");
            let text = e.message();
            detail.append(text.as_str());
            return Err(ManifestVerifyError::SignatureMalformed(detail));
        },
    };
    if bytes.len() != 64 {
        let mut detail = String::from_str("ed25519 signature must be 64 bytes; got ");
        push_decimal(&mut detail, bytes.len());
        return Err(ManifestVerifyError::SignatureMalformed(detail));
    }
    Ok(bytes)
}

/// Read 64 raw signature bytes into an Ed25519 signature array.
pub fn signature_from_bytes(bytes: &[u8]) -> (r: Result<[u8; 64], ManifestVerifyError>)
    ensures
        bytes@.len() == 64 ==> (r matches Ok(a) && a@ == bytes@),
        bytes@.len() != 64 ==> (r matches Err(e) && e@ == malformed(
            raw_length_text(bytes@.len()),
        )),
{
    if bytes.len() != 64 {
        let mut detail = String::from_str("ed25519 signature MUST be 64 bytes; got ");
        push_decimal(&mut detail, bytes.len());
        return Err(ManifestVerifyError::SignatureMalformed(detail));
    }
    let mut a = [0u8; 64];
    let mut i: usize = 0;
    while i < 64
        invariant
            i <= 64,
            bytes@.len() == 64,
            a@.len() == 64,
            forall|j: int| 0 <= j < i ==> a@[j] == bytes@[j],
        decreases 64 - i,
    {
        a[i] = bytes[i];
        i += 1;
    }
    assert(a@ =~= bytes@);
    Ok(a)
}

/// What verifying `sig_bytes` over `signed_bytes` under the registry key
/// `pk` yields.
pub open spec fn registry_verdict(sig_bytes: Seq<u8>, signed_bytes: Seq<u8>, pk: Seq<u8>) -> Result<
    (),
    (VerifyErrorKind, Seq<char>),
> {
    if sig_bytes.len() != 64 {
        Err(malformed(raw_length_text(sig_bytes.len())))
    } else if ed25519_signature_valid(pk, signed_bytes, sig_bytes) {
        Ok(())
    } else {
        Err(failure(VerifyErrorKind::RegistryInvalid))
    }
}

/// Verify the signature directly against the publisher registry's key.
pub fn verify_via_registry_key(sig_bytes: &[u8], signed_bytes: &[u8], registry_pk: &[u8; 32]) -> (r:
    Result<(), ManifestVerifyError>)
    ensures
        verdict(r) == registry_verdict(sig_bytes@, signed_bytes@, registry_pk@),
{
    let sig = match signature_from_bytes(sig_bytes) {
        Ok(sig) => sig,
        Err(e) => {
            return Err(e);
        },
    };
    match verify_canonical(registry_pk, signed_bytes, &sig) {
        Ok(()) => Ok(()),
        Err(_) => Err(ManifestVerifyError::RegistryInvalid),
    }
}

/// What the UCAN library reported about a presented delegation chain:
/// the audience the chain validation bound the leaf to, that validation,
/// each link's time-window check in chain order, and the resolution of
/// the leaf issuer's DID to an Ed25519 public key. Each failure carries
/// the library's own text.
#[derive(Debug)]
pub struct UcanChainCheck {
    /// The audience DID the chain validation bound the leaf to.
    pub audience: String,
    /// Audience-bound validation of the whole chain.
    pub chain: Result<(), String>,
    /// The `nbf` / `exp` check of each link, in chain order.
    pub time_windows: Vec<Result<(), String>>,
    /// The leaf issuer's public key, or why its DID did not resolve.
    pub leaf_issuer_key: Result<[u8; 32], String>,
}

/// The text of the first failing time-window check, if any.
pub open spec fn first_window_failure(ws: Seq<Result<(), String>>) -> Option<Seq<char>>
    decreases ws.len(),
{
    if ws.len() == 0 {
        None
    } else {
        match ws[0] {
            Err(e) => Some(e@),
            Ok(_) => first_window_failure(ws.subrange(1, ws.len() as int)),
        }
    }
}

/// Whether a chain validated for `audience` is bound to the engine's
/// audience DID (there is none to bind to when it is absent).
pub open spec fn audience_bound(audience: Seq<char>, engine_audience: Option<Seq<char>>) -> bool {
    engine_audience matches Some(e) && e == audience
}

/// The text of a chain validated for another audience than the engine's.
pub open spec fn audience_mismatch_text(audience: Seq<char>) -> Seq<char> {
    "chain: audience "@ + audience + " is not the engine audience"@
}

/// What the UCAN path yields: chain validation, then the binding of the
/// validated audience to the engine's audience DID, then each link's time
/// window, then the leaf issuer's key, then the signature under that key.
pub open spec fn ucan_verdict(
    c: UcanChainCheck,
    engine_audience: Option<Seq<char>>,
    sig: Seq<u8>,
    signed_bytes: Seq<u8>,
) -> Result<(), (VerifyErrorKind, Seq<char>)> {
    match c.chain {
        Err(e) => Err(ucan_invalid("chain: "@ + e@)),
        Ok(_) => if !audience_bound(c.audience@, engine_audience) {
            Err(ucan_invalid(audience_mismatch_text(c.audience@)))
        } else { match first_window_failure(c.time_windows@) {
            Some(e) => Err(ucan_invalid("time-window: "@ + e)),
            None => match c.leaf_issuer_key {
                Err(e) => Err(ucan_invalid("issuer DID resolve: "@ + e@)),
                Ok(pk) => if ed25519_signature_valid(pk@, signed_bytes, sig) {
                    Ok(())
                } else {
                    Err(ucan_invalid("signature does not verify"@))
                },
            },
        } },
    }
}

/// What verifying a manifest under `mode` yields, given its signed bytes,
/// the UCAN chain check (if a chain was presented), the registry key (if
/// one was configured) and the engine's audience DID (if one was given).
/// Under [`ManifestVerifyMode::Any`] with neither path present the answer
/// is `NoPathPresent`, whatever the manifest carries.
pub open spec fn manifest_verdict(
    m: ModuleManifest,
    signed_bytes: Seq<u8>,
    ucan: Option<UcanChainCheck>,
    registry: Option<Seq<u8>>,
    engine_audience: Option<Seq<char>>,
    mode: ManifestVerifyMode,
) -> Result<(), (VerifyErrorKind, Seq<char>)> {
    if mode == ManifestVerifyMode::Unsigned {
        Ok(())
    } else if mode == ManifestVerifyMode::Any && ucan is None && registry is None {
        Err(failure(VerifyErrorKind::NoPathPresent))
    } else {
        match decode_signature_spec(m) {
            Err(e) => Err(e),
            Ok(sig) => if mode == ManifestVerifyMode::All && ucan is None {
                Err(failure(VerifyErrorKind::UcanRequiredByModeAll))
            } else if mode == ManifestVerifyMode::All && registry is None {
                Err(failure(VerifyErrorKind::RegistryRequiredByModeAll))
            } else {
                match ucan {
                    Some(c) if ucan_verdict(c, engine_audience, sig, signed_bytes) is Err => ucan_verdict(
                        c,
                        engine_audience,
                        sig,
                        signed_bytes,
                    ),
                    _ => match registry {
                        Some(pk) => registry_verdict(sig, signed_bytes, pk),
                        None => Ok(()),
                    },
                }
            },
        }
    }
}

/// Run the UCAN path: chain validation, each link's time window, the leaf
/// issuer's key, then the signature under that key.
fn verify_via_ucan_chain(
    chain: &UcanChainCheck,
    engine_audience_did: Option<&str>,
    sig_bytes: &[u8],
    signed_bytes: &[u8],
) -> (r: Result<(), ManifestVerifyError>)
    requires
        sig_bytes@.len() == 64,
    ensures
        verdict(r) == ucan_verdict(
            *chain,
            match engine_audience_did {
                Some(a) => Some(a@),
                None => None,
            },
            sig_bytes@,
            signed_bytes@,
        ),
{
    if let Err(e) = &chain.chain {
        let mut detail = String::from_str("chain: ");
        detail.append(e.as_str());
        return Err(ManifestVerifyError::UcanInvalid(detail));
    }
    let bound = match engine_audience_did {
        Some(a) => str_eq(a, chain.audience.as_str()),
        None => false,
    };
    if !bound {
        let mut detail = String::from_str("chain: audience ");
        detail.append(chain.audience.as_str());
        detail.append(" is not the engine audience");
        proof {
            reveal_strlit("chain: audience ");
            reveal_strlit(" is not the engine audience");
        }
        return Err(ManifestVerifyError::UcanInvalid(detail));
    }
    let ws = &chain.time_windows;
    let n = ws.len();
    let mut i: usize = 0;
    assert(ws@.subrange(0, n as int) =~= ws@);
    while i < n
        invariant
            chain.chain is Ok,
            audience_bound(
                chain.audience@,
                match engine_audience_did {
                    Some(a) => Some(a@),
                    None => None,
                },
            ),
            ws == &chain.time_windows,
            n == ws@.len(),
            i <= n,
            first_window_failure(ws@) == first_window_failure(ws@.subrange(i as int, n as int)),
        decreases n - i,
    {
        let ghost rest = ws@.subrange(i as int, n as int);
        assert(rest.subrange(1, rest.len() as int) =~= ws@.subrange(i + 1, n as int));
        assert(rest[0] == ws@[i as int]);
        if let Err(e) = &ws[i] {
            let mut detail = String::from_str("time-window: ");
            detail.append(e.as_str());
            return Err(ManifestVerifyError::UcanInvalid(detail));
        }
        i += 1;
    }
    assert(ws@.subrange(n as int, n as int).len() == 0);
    let pk = match &chain.leaf_issuer_key {
        Ok(pk) => pk,
        Err(e) => {
            let mut detail = String::from_str("issuer DID resolve: ");
            detail.append(e.as_str());
            return Err(ManifestVerifyError::UcanInvalid(detail));
        },
    };
    let sig = match signature_from_bytes(sig_bytes) {
        Ok(sig) => sig,
        Err(e) => {
            return Err(e);
        },
    };
    match verify_canonical(pk, signed_bytes, &sig) {
        Ok(()) => Ok(()),
        Err(_) => Err(ManifestVerifyError::UcanInvalid(String::from_str("signature does not verify"))),
    }
}

/// Verify a manifest's signature under `mode`.
///
/// `signed_bytes` are the manifest's canonical bytes with its signature
/// cleared; `ucan_chain` is the check of the presented UCAN chain (time
/// windows at the install time), `None` when no chain was presented, and
/// the chain must have been validated for `engine_audience_did`;
/// `registry_pubkey` is the publisher-registry key, `None` when none is
/// configured. When both paths are present the UCAN path runs first.
pub fn verify_manifest_with_mode(
    manifest: &ModuleManifest,
    signed_bytes: &[u8],
    ucan_chain: Option<&UcanChainCheck>,
    registry_pubkey: Option<&[u8; 32]>,
    engine_audience_did: &str,
    mode: ManifestVerifyMode,
) -> (r: Result<(), ManifestVerifyError>)
    ensures
        verdict(r) == manifest_verdict(
            *manifest,
            signed_bytes@,
            match ucan_chain {
                Some(c) => Some(*c),
                None => None,
            },
            match registry_pubkey {
                Some(k) => Some(k@),
                None => None,
            },
            Some(engine_audience_did@),
            mode,
        ),
{
    verify_for_audience(manifest, signed_bytes, ucan_chain, registry_pubkey, Some(engine_audience_did), mode)
}

fn verify_for_audience(
    manifest: &ModuleManifest,
    signed_bytes: &[u8],
    ucan_chain: Option<&UcanChainCheck>,
    registry_pubkey: Option<&[u8; 32]>,
    engine_audience_did: Option<&str>,
    mode: ManifestVerifyMode,
) -> (r: Result<(), ManifestVerifyError>)
    ensures
        verdict(r) == manifest_verdict(
            *manifest,
            signed_bytes@,
            match ucan_chain {
                Some(c) => Some(*c),
                None => None,
            },
            match registry_pubkey {
                Some(k) => Some(k@),
                None => None,
            },
            match engine_audience_did {
                Some(a) => Some(a@),
                None => None,
            },
            mode,
        ),
{
    if mode == ManifestVerifyMode::Unsigned {
        return Ok(());
    }
    let has_ucan = ucan_chain.is_some();
    let has_registry = registry_pubkey.is_some();
    if mode == ManifestVerifyMode::Any && !has_ucan && !has_registry {
        return Err(ManifestVerifyError::NoPathPresent);
    }
    let sig_bytes = match decode_signature(manifest) {
        Ok(b) => b,
        Err(e) => {
            return Err(e);
        },
    };
    if mode == ManifestVerifyMode::All {
        if !has_ucan {
            return Err(ManifestVerifyError::UcanRequiredByModeAll);
        }
        if !has_registry {
            return Err(ManifestVerifyError::RegistryRequiredByModeAll);
        }
    }
    if let Some(chain) = ucan_chain {
        let u = verify_via_ucan_chain(chain, engine_audience_did, sig_bytes.as_slice(), signed_bytes);
        if let Err(e) = u {
            return Err(e);
        }
    }
    if let Some(pk) = registry_pubkey {
        return verify_via_registry_key(sig_bytes.as_slice(), signed_bytes, pk);
    }
    Ok(())
}

/// What verifying a manifest yields when its signed bytes had to be
/// encoded first and the encoding may have failed (`Err` with the
/// encoder's text): the mode and path checks and the signature decoding
/// come before an encoding failure is reported.
pub open spec fn encoded_manifest_verdict(
    m: ModuleManifest,
    signed_bytes: Result<Seq<u8>, Seq<char>>,
    ucan: Option<UcanChainCheck>,
    registry: Option<Seq<u8>>,
    engine_audience: Option<Seq<char>>,
    mode: ManifestVerifyMode,
) -> Result<(), (VerifyErrorKind, Seq<char>)> {
    match signed_bytes {
        Ok(b) => manifest_verdict(m, b, ucan, registry, engine_audience, mode),
        Err(t) => if mode == ManifestVerifyMode::Unsigned {
            Ok(())
        } else if mode == ManifestVerifyMode::Any && ucan is None && registry is None {
            Err(failure(VerifyErrorKind::NoPathPresent))
        } else {
            match decode_signature_spec(m) {
                Err(e) => Err(e),
                Ok(_) => Err(malformed("encode: "@ + t)),
            }
        },
    }
}

/// Verify a manifest whose signed bytes were encoded by the caller, the
/// encoding's failure included (its text in `Err`).
pub fn verify_manifest_encoded(
    manifest: &ModuleManifest,
    signed_bytes: Result<Vec<u8>, String>,
    ucan_chain: Option<&UcanChainCheck>,
    registry_pubkey: Option<&[u8; 32]>,
    engine_audience_did: &str,
    mode: ManifestVerifyMode,
) -> (r: Result<(), ManifestVerifyError>)
    ensures
        verdict(r) == encoded_manifest_verdict(
            *manifest,
            match signed_bytes {
                Ok(b) => Ok(b@),
                Err(t) => Err(t@),
            },
            match ucan_chain {
                Some(c) => Some(*c),
                None => None,
            },
            match registry_pubkey {
                Some(k) => Some(k@),
                None => None,
            },
            Some(engine_audience_did@),
            mode,
        ),
{
    match signed_bytes {
        Ok(b) => verify_manifest_with_mode(
            manifest,
            b.as_slice(),
            ucan_chain,
            registry_pubkey,
            engine_audience_did,
            mode,
        ),
        Err(t) => {
            if mode == ManifestVerifyMode::Unsigned {
                return Ok(());
            }
            if mode == ManifestVerifyMode::Any && ucan_chain.is_none() && registry_pubkey.is_none() {
                return Err(ManifestVerifyError::NoPathPresent);
            }
            if let Err(e) = decode_signature(manifest) {
                return Err(e);
            }
            let mut detail = String::from_str("encode: ");
            detail.append(t.as_str());
            proof {
                reveal_strlit("encode: ");
            }
            Err(ManifestVerifyError::SignatureMalformed(detail))
        },
    }
}

/// What an install hands the manifest verification: the checked UCAN
/// chain (if presented), the registry key (if configured), the engine's
/// audience DID the chain was checked against, the policy, and the time
/// (seconds) the chain's windows were checked at.
#[derive(Debug, Clone, Copy)]
pub struct ManifestVerifyArgs<'a> {
    /// The check of the presented UCAN chain.
    pub ucan_chain: Option<&'a UcanChainCheck>,
    /// The publisher-registry key.
    pub registry_pubkey: Option<&'a [u8; 32]>,
    /// The engine's audience DID (required by the signed modes).
    pub engine_audience_did: Option<&'a str>,
    /// The verification policy.
    pub mode: ManifestVerifyMode,
    /// The time the UCAN windows were checked at.
    pub now: u64,
}

impl<'a> ManifestVerifyArgs<'a> {
    /// Development only: no verification, no signature required.
    pub fn unsigned_development() -> (a: Self)
        ensures
            a.ucan_chain is None,
            a.registry_pubkey is None,
            a.engine_audience_did is None,
            a.mode == ManifestVerifyMode::Unsigned,
            a.now == 0,
    {
        ManifestVerifyArgs {
            ucan_chain: None,
            registry_pubkey: None,
            engine_audience_did: None,
            mode: ManifestVerifyMode::Unsigned,
            now: 0,
        }
    }

    /// Registry-only verification under [`ManifestVerifyMode::Any`].
    pub fn registry(registry_pubkey: &'a [u8; 32], engine_audience_did: &'a str, now: u64) -> (a:
        Self)
        ensures
            a.ucan_chain is None,
            a.registry_pubkey == Some(registry_pubkey),
            a.engine_audience_did == Some(engine_audience_did),
            a.mode == ManifestVerifyMode::Any,
            a.now == now,
    {
        ManifestVerifyArgs {
            ucan_chain: None,
            registry_pubkey: Some(registry_pubkey),
            engine_audience_did: Some(engine_audience_did),
            mode: ManifestVerifyMode::Any,
            now,
        }
    }

    /// UCAN-only verification under [`ManifestVerifyMode::Any`].
    pub fn ucan_chain(ucan_chain: &'a UcanChainCheck, engine_audience_did: &'a str, now: u64) -> (a:
        Self)
        ensures
            a.ucan_chain == Some(ucan_chain),
            a.registry_pubkey is None,
            a.engine_audience_did == Some(engine_audience_did),
            a.mode == ManifestVerifyMode::Any,
            a.now == now,
    {
        ManifestVerifyArgs {
            ucan_chain: Some(ucan_chain),
            registry_pubkey: None,
            engine_audience_did: Some(engine_audience_did),
            mode: ManifestVerifyMode::Any,
            now,
        }
    }

    /// Both paths required, under [`ManifestVerifyMode::All`].
    pub fn dual(
        ucan_chain: &'a UcanChainCheck,
        registry_pubkey: &'a [u8; 32],
        engine_audience_did: &'a str,
        now: u64,
    ) -> (a: Self)
        ensures
            a.ucan_chain == Some(ucan_chain),
            a.registry_pubkey == Some(registry_pubkey),
            a.engine_audience_did == Some(engine_audience_did),
            a.mode == ManifestVerifyMode::All,
            a.now == now,
    {
        ManifestVerifyArgs {
            ucan_chain: Some(ucan_chain),
            registry_pubkey: Some(registry_pubkey),
            engine_audience_did: Some(engine_audience_did),
            mode: ManifestVerifyMode::All,
            now,
        }
    }
}

/// Verify a manifest under the policy and paths an install supplied.
pub fn verify_manifest_with_args(
    manifest: &ModuleManifest,
    signed_bytes: &[u8],
    args: &ManifestVerifyArgs<'_>,
) -> (r: Result<(), ManifestVerifyError>)
    ensures
        verdict(r) == manifest_verdict(
            *manifest,
            signed_bytes@,
            match args.ucan_chain {
                Some(c) => Some(*c),
                None => None,
            },
            match args.registry_pubkey {
                Some(k) => Some(k@),
                None => None,
            },
            match args.engine_audience_did {
                Some(a) => Some(a@),
                None => None,
            },
            args.mode,
        ),
{
    verify_for_audience(
        manifest,
        signed_bytes,
        args.ucan_chain,
        args.registry_pubkey,
        args.engine_audience_did,
        args.mode,
    )
}

/// The publisher's Ed25519 public key for the secret key `secret_key`:
/// the key a manifest signed with [`sign_manifest`] verifies under.
pub fn publisher_public_key(secret_key: &[u8; 32]) -> (pk: [u8; 32])
    ensures
        pk@ == ed25519_public_key(secret_key@),
{
    ed25519_public_key_of(secret_key)
}

/// Whether a UCAN chain check reports a chain that validated, bound to
/// `audience`, with every link inside its time window, and whose leaf
/// issuer resolved to the key `pk`.
pub open spec fn ucan_chain_sound(c: UcanChainCheck, audience: Seq<char>, pk: Seq<u8>) -> bool {
    &&& c.chain is Ok
    &&& c.audience@ == audience
    &&& forall|i: int| 0 <= i < c.time_windows@.len() ==> (#[trigger] c.time_windows@[i]) is Ok
    &&& c.leaf_issuer_key matches Ok(k) && k@ == pk
}

proof fn lemma_no_window_failure(ws: Seq<Result<(), String>>)
    requires
        forall|i: int| 0 <= i < ws.len() ==> (#[trigger] ws[i]) is Ok,
    ensures
        first_window_failure(ws) is None,
    decreases ws.len(),
{
    if ws.len() > 0 {
        let rest = ws.subrange(1, ws.len() as int);
        assert forall|i: int| 0 <= i < rest.len() implies (#[trigger] rest[i]) is Ok by {
            assert(rest[i] == ws[i + 1]);
        }
        lemma_no_window_failure(rest);
    }
}

/// Either path alone suffices under [`ManifestVerifyMode::Any`]: a
/// manifest whose signature verifies under the leaf key of a sound UCAN
/// chain bound to the engine audience is accepted with no registry key;
/// and under [`ManifestVerifyMode::All`] it is accepted when the registry
/// key verifies the signature too.
pub proof fn lemma_ucan_path_accepts(
    m: ModuleManifest,
    signed_bytes: Seq<u8>,
    c: UcanChainCheck,
    audience: Seq<char>,
    pk: Seq<u8>,
    registry: Seq<u8>,
)
    requires
        decode_signature_spec(m) is Ok,
        ucan_chain_sound(c, audience, pk),
        ed25519_signature_valid(pk, signed_bytes, decode_signature_spec(m)->Ok_0),
    ensures
        manifest_verdict(m, signed_bytes, Some(c), None, Some(audience), ManifestVerifyMode::Any)
            is Ok,
        decode_signature_spec(m)->Ok_0.len() == 64 && ed25519_signature_valid(
            registry,
            signed_bytes,
            decode_signature_spec(m)->Ok_0,
        ) ==> manifest_verdict(
            m,
            signed_bytes,
            Some(c),
            Some(registry),
            Some(audience),
            ManifestVerifyMode::All,
        ) is Ok,
{
    lemma_no_window_failure(c.time_windows@);
}

/// Whether `m` carries, as its signature field, the base64 text of the
/// Ed25519 signature by `secret` over `signed_bytes`.
pub open spec fn signed_by(m: ModuleManifest, signed_bytes: Seq<u8>, secret: Seq<u8>) -> bool {
    m.signature matches Some(s) && s.ed25519 matches Some(b64) && b64@ == ascii_chars(
        encode_spec(ed25519_signature(secret, signed_bytes)),
    )
}

/// Sign a manifest: the Ed25519 signature by `secret_key` over
/// `signed_bytes` (the manifest's canonical bytes with its signature
/// cleared), base64-encoded into the `ed25519` signature field. Every
/// other field is kept.
pub fn sign_manifest(manifest: ModuleManifest, signed_bytes: &[u8], secret_key: &[u8; 32]) -> (signed:
    ModuleManifest)
    ensures
        signed.name == manifest.name,
        signed.version == manifest.version,
        signed.modules == manifest.modules,
        signed.migrations == manifest.migrations,
        signed_by(signed, signed_bytes@, secret_key@),
        decode_signature_spec(signed) == Ok::<Seq<u8>, (VerifyErrorKind, Seq<char>)>(
            ed25519_signature(secret_key@, signed_bytes@),
        ),
        forall|audience: Option<Seq<char>>|
            #[trigger] manifest_verdict(
                signed,
                signed_bytes@,
                None,
                Some(ed25519_public_key(secret_key@)),
                audience,
                ManifestVerifyMode::Any,
            ) is Ok,
        forall|c: UcanChainCheck, audience: Seq<char>|
            ucan_chain_sound(c, audience, ed25519_public_key(secret_key@)) ==> #[trigger] manifest_verdict(
                signed,
                signed_bytes@,
                Some(c),
                None,
                Some(audience),
                ManifestVerifyMode::Any,
            ) is Ok,
{
    let sig = ed25519_sign(secret_key, signed_bytes);
    let mut signed = manifest;
    signed.signature = Some(ManifestSignature { ed25519: Some(base64_encode(&sig)) });
    proof {
        lemma_encoded_text_bytes(sig@);
        lemma_base64_round_trip(sig@);
        assert forall|c: UcanChainCheck, audience: Seq<char>|
            ucan_chain_sound(c, audience, ed25519_public_key(secret_key@)) implies #[trigger] manifest_verdict(
                signed,
                signed_bytes@,
                Some(c),
                None,
                Some(audience),
                ManifestVerifyMode::Any,
            ) is Ok by {
            lemma_ucan_path_accepts(signed, signed_bytes@, c, audience, ed25519_public_key(secret_key@), Seq::empty());
        }
    }
    signed
}

/// Label of durable publisher-registry entries.
pub const PUBLISHER_REGISTRY_LABEL: &'static str = "system:PublisherRegistry";

/// One stored publisher-registry entry: its `publisher_did` and
/// `publisher_pubkey` properties, each absent when the entry lacks it.
#[derive(Debug)]
pub struct RegistryRecord {
    /// The `publisher_did` property.
    pub publisher_did: Option<PropertyValue>,
    /// The `publisher_pubkey` property.
    pub publisher_pubkey: Option<PropertyValue>,
}

/// One capability a UCAN delegates.
#[derive(Debug)]
pub struct RegistryCapability {
    /// The resource (e.g. `registry:publishers`).
    pub resource: String,
    /// The ability (e.g. `add`, or `*` for every ability).
    pub ability: String,
}

/// What the UCAN library reported about a registry-mutation delegation:
/// the chain validation against the registry's own audience, the time
/// window at the mutation time, and the delegation's issuer and
/// capabilities.
#[derive(Debug)]
pub struct UcanDelegation {
    /// The audience DID the chain validation bound the delegation to.
    pub audience: String,
    /// Audience-bound validation of the delegation.
    pub chain: Result<(), String>,
    /// The `nbf` / `exp` check.
    pub time_window: Result<(), String>,
    /// The issuer DID (`iss`).
    pub issuer: String,
    /// The delegated capabilities (`att`).
    pub capabilities: Vec<RegistryCapability>,
}

/// Durable publisher registry: publisher DIDs mapped to their trusted
/// Ed25519 keys. Mutations need a UCAN delegation issued by the admin
/// DID, audience-bound to the registry's own audience DID.
#[derive(Debug)]
pub struct PublisherRegistry {
    admin_did: String,
    registry_audience_did: String,
    records: Vec<RegistryRecord>,
}

/// Whether some capability delegates `ability` on `registry:publishers`
/// (or every ability, `*`).
pub open spec fn delegates(caps: Seq<RegistryCapability>, ability: Seq<char>) -> bool {
    exists|i: int|
        0 <= i < caps.len() && #[trigger] caps[i].resource@ == "registry:publishers"@ && (
        caps[i].ability@ == ability || caps[i].ability@ == "*"@)
}

/// A registry mutation is authorized exactly by a delegation that the
/// chain check accepted, bound to the registry's audience, inside its time
/// window, issued by the admin DID, and carrying a `registry:publishers`
/// capability for that very ability or for every ability (`*`): a
/// capability naming the exact ability suffices on its own, and a
/// capability on any other resource or for another ability never does.
pub proof fn lemma_authorization_law(
    admin: Seq<char>,
    registry_audience: Seq<char>,
    d: UcanDelegation,
    ability: Seq<char>,
    i: int,
)
    ensures
        (d.chain is Ok && d.audience@ == registry_audience && d.time_window is Ok && d.issuer@
            == admin && 0 <= i < d.capabilities@.len() && d.capabilities@[i].resource@
            == "registry:publishers"@ && d.capabilities@[i].ability@ == ability) ==> authorization(
            admin,
            registry_audience,
            Some(d),
            ability,
        ) is Ok,
        authorization(admin, registry_audience, Some(d), ability) is Ok ==> (d.chain is Ok
            && d.audience@ == registry_audience && d.time_window is Ok && d.issuer@ == admin
            && exists|j: int|
            0 <= j < d.capabilities@.len() && #[trigger] d.capabilities@[j].resource@
                == "registry:publishers"@ && (d.capabilities@[j].ability@ == ability
                || d.capabilities@[j].ability@ == "*"@)),
        authorization(admin, registry_audience, None, ability) is Err,
{
}

/// What authorizing a registry mutation yields: `Ok`, or the error's
/// catalog code and message.
pub open spec fn authorization(
    admin: Seq<char>,
    registry_audience: Seq<char>,
    d: Option<UcanDelegation>,
    ability: Seq<char>,
) -> Result<(), (Seq<char>, Seq<char>)> {
    match d {
        None => Err((registry_error_code(true), ucan_required_text())),
        Some(d) => match d.chain {
            Err(e) => Err(
                (registry_error_code(false), "publisher-registry UCAN chain invalid: "@ + e@),
            ),
            Ok(_) => if d.audience@ != registry_audience {
                Err(
                    (
                        registry_error_code(false),
                        "publisher-registry UCAN chain invalid: audience "@ + d.audience@
                            + " != "@ + registry_audience,
                    ),
                )
            } else { match d.time_window {
                Err(e) => Err(
                    (registry_error_code(false), "publisher-registry UCAN time-window: "@ + e@),
                ),
                Ok(_) => if d.issuer@ != admin {
                    Err(
                        (
                            registry_error_code(false),
                            "publisher-registry UCAN issuer "@ + d.issuer@ + " != admin "@ + admin,
                        ),
                    )
                } else if !delegates(d.capabilities@, ability) {
                    Err(
                        (
                            registry_error_code(false),
                            "publisher-registry UCAN does not delegate registry:publishers/"@
                                + ability,
                        ),
                    )
                } else {
                    Ok(())
                },
            } },
        },
    }
}

/// An engine error's catalog code (when it is an `Unknown` code) and
/// message.
pub open spec fn engine_error_view(e: EngineError) -> (Seq<char>, Seq<char>) {
    match e {
        EngineError::Other { code, message } => (
            match code {
                ErrorCode::Unknown(s) => s@,
                _ => Seq::empty(),
            },
            message@,
        ),
        _ => (Seq::empty(), Seq::empty()),
    }
}

/// The key an entry records for `did`, if it records a text DID equal to
/// `did` and a 32-byte key that decodes.
pub open spec fn record_key(r: RegistryRecord, did: Seq<char>) -> Option<Seq<u8>> {
    match r.publisher_did {
        Some(PropertyValue::Text(s)) => if s@ == did {
            match r.publisher_pubkey {
                Some(PropertyValue::Bytes(b)) => if b@.len() == 32 && ed25519_key_decodes(b@) {
                    Some(b@)
                } else {
                    None
                },
                _ => None,
            }
        } else {
            None
        },
        _ => None,
    }
}

/// The key of the first entry, in store order, that records one for
/// `did`.
pub open spec fn lookup_spec(rs: Seq<RegistryRecord>, did: Seq<char>) -> Option<Seq<u8>>
    decreases rs.len(),
{
    if rs.len() == 0 {
        None
    } else {
        match record_key(rs[0], did) {
            Some(k) => Some(k),
            None => lookup_spec(rs.subrange(1, rs.len() as int), did),
        }
    }
}

/// Whether `r` records the text DID `did` and the key bytes `pk`.
pub open spec fn stores(r: RegistryRecord, did: Seq<char>, pk: Seq<u8>) -> bool {
    &&& r.publisher_did matches Some(PropertyValue::Text(s)) && s@ == did
    &&& r.publisher_pubkey matches Some(PropertyValue::Bytes(b)) && b@ == pk
}

/// An error with an `Unknown` catalog code and a message.
fn registry_error(required: bool, message: String) -> (e: EngineError)
    ensures
        engine_error_view(e) == (registry_error_code(required), message@),
{
    let code = if required {
        PublisherRegistryError::UcanRequired.code()
    } else {
        PublisherRegistryError::UcanInvalid(String::new()).code()
    };
    EngineError::Other { code, message }
}

/// Whether some capability delegates `ability` on `registry:publishers`.
fn find_capability(caps: &Vec<RegistryCapability>, ability: &str) -> (r: bool)
    ensures
        r == delegates(caps@, ability@),
{
    let n = caps.len();
    let mut i: usize = 0;
    while i < n
        invariant
            n == caps@.len(),
            i <= n,
            forall|j: int|
                0 <= j < i ==> !(#[trigger] caps@[j].resource@ == "registry:publishers"@ && (
                caps@[j].ability@ == ability@ || caps@[j].ability@ == "*"@)),
        decreases n - i,
    {
        let c = &caps[i];
        if str_eq(c.resource.as_str(), "registry:publishers") && (str_eq(
            c.ability.as_str(),
            ability,
        ) || str_eq(c.ability.as_str(), "*")) {
            return true;
        }
        i += 1;
    }
    false
}

/// The key `r` records for `did`, when it records one.
fn record_key_of(r: &RegistryRecord, did: &str) -> (k: Option<[u8; 32]>)
    ensures
        match record_key(*r, did@) {
            Some(key) => k matches Some(a) && a@ == key,
            None => k is None,
        },
{
    match &r.publisher_did {
        Some(PropertyValue::Text(s)) => {
            if !str_eq(s.as_str(), did) {
                return None;
            }
        },
        _ => {
            return None;
        },
    }
    match &r.publisher_pubkey {
        Some(PropertyValue::Bytes(b)) => {
            if b.len() != 32 {
                return None;
            }
            let mut a = [0u8; 32];
            let mut i: usize = 0;
            while i < 32
                invariant
                    i <= 32,
                    b@.len() == 32,
                    a@.len() == 32,
                    forall|j: int| 0 <= j < i ==> a@[j] == b@[j],
                decreases 32 - i,
            {
                a[i] = b[i];
                i += 1;
            }
            assert(a@ =~= b@);
            if ed25519_key_valid(&a) {
                Some(a)
            } else {
                None
            }
        },
        _ => None,
    }
}

impl PublisherRegistry {
    /// An empty registry whose mutations need a delegation issued by
    /// `admin_did` and audience-bound to `registry_audience_did`.
    pub fn new(admin_did: &str, registry_audience_did: &str) -> (r: Self)
        ensures
            r.admin_did()@ == admin_did@,
            r.registry_audience_did()@ == registry_audience_did@,
            r.records()@.len() == 0,
    {
        PublisherRegistry {
            admin_did: String::from_str(admin_did),
            registry_audience_did: String::from_str(registry_audience_did),
            records: Vec::new(),
        }
    }

    /// The admin DID.
    pub closed spec fn admin_did(&self) -> String {
        self.admin_did
    }

    /// The audience DID every mutation delegation must be bound to.
    pub closed spec fn registry_audience_did(&self) -> String {
        self.registry_audience_did
    }

    /// The stored entries, in store order.
    pub closed spec fn records(&self) -> Vec<RegistryRecord> {
        self.records
    }

    /// Check that `delegation` authorizes the registry mutation `ability`:
    /// present, chain valid for the registry audience, within its time
    /// window, issued by the admin DID, and delegating
    /// `registry:publishers/<ability>` (or `*`).
    pub fn require_ucan_delegation(&self, delegation: Option<&UcanDelegation>, ability: &str) -> (r:
        Result<(), EngineError>)
        ensures
            match authorization(
                self.admin_did()@,
                self.registry_audience_did()@,
                match delegation {
                    Some(d) => Some(*d),
                    None => None,
                },
                ability@,
            ) {
                Ok(_) => r is Ok,
                Err(e) => r matches Err(x) && engine_error_view(x) == e,
            },
    {
        let d = match delegation {
            Some(d) => d,
            None => {
                let e = PublisherRegistryError::UcanRequired;
                return Err(registry_error(true, e.message()));
            },
        };
        if let Err(e) = &d.chain {
            let mut message = String::from_str("publisher-registry UCAN chain invalid: ");
            message.append(e.as_str());
            return Err(registry_error(false, message));
        }
        if !str_eq(d.audience.as_str(), self.registry_audience_did.as_str()) {
            let mut message = String::from_str("publisher-registry UCAN chain invalid: audience ");
            message.append(d.audience.as_str());
            message.append(" != ");
            message.append(self.registry_audience_did.as_str());
            return Err(registry_error(false, message));
        }
        if let Err(e) = &d.time_window {
            let mut message = String::from_str("publisher-registry UCAN time-window: ");
            message.append(e.as_str());
            return Err(registry_error(false, message));
        }
        if !str_eq(d.issuer.as_str(), self.admin_did.as_str()) {
            let mut message = String::from_str("publisher-registry UCAN issuer ");
            message.append(d.issuer.as_str());
            message.append(" != admin ");
            message.append(self.admin_did.as_str());
            return Err(registry_error(false, message));
        }
        if !find_capability(&d.capabilities, ability) {
            let mut message = String::from_str(
                "publisher-registry UCAN does not delegate registry:publishers/",
            );
            message.append(ability);
            return Err(registry_error(false, message));
        }
        Ok(())
    }

    /// Add a publisher: authorize the `add` mutation, then store an entry
    /// recording `publisher_did` and `publisher_pk`. A refused mutation
    /// leaves the registry unchanged.
    pub fn add_publisher(
        &mut self,
        publisher_did: &str,
        publisher_pk: &[u8; 32],
        delegation: Option<&UcanDelegation>,
    ) -> (r: Result<(), EngineError>)
        ensures
            final(self).admin_did() == old(self).admin_did(),
            final(self).registry_audience_did() == old(self).registry_audience_did(),
            match authorization(
                old(self).admin_did()@,
                old(self).registry_audience_did()@,
                match delegation {
                    Some(d) => Some(*d),
                    None => None,
                },
                "add"@,
            ) {
                Ok(_) => r is Ok && final(self).records()@ == old(self).records()@.push(
                    final(self).records()@.last(),
                ) && stores(final(self).records()@.last(), publisher_did@, publisher_pk@),
                Err(e) => r matches Err(x) && engine_error_view(x) == e && final(self).records()
                    == old(self).records(),
            },
    {
        let auth = self.require_ucan_delegation(delegation, "add");
        if let Err(e) = auth {
            return Err(e);
        }
        let mut pk: Vec<u8> = Vec::new();
        crate::bytes::push_bytes(&mut pk, publisher_pk);
        let record = RegistryRecord {
            publisher_did: Some(PropertyValue::Text(String::from_str(publisher_did))),
            publisher_pubkey: Some(PropertyValue::Bytes(pk)),
        };
        self.records.push(record);
        Ok(())
    }

    /// Adding a publisher without any delegation: always refused with
    /// [`PublisherRegistryError::UcanRequired`].
    pub fn add_publisher_unauthorized(&self, publisher_pk: &[u8; 32]) -> (r: Result<
        (),
        PublisherRegistryError,
    >)
        ensures
            r matches Err(e) && e is UcanRequired,
    {
        Err(PublisherRegistryError::UcanRequired)
    }

    /// The key of the first stored entry, in store order, that records a
    /// text DID equal to `publisher_did` and a 32-byte key that decodes;
    /// other entries are skipped.
    pub fn lookup(&self, publisher_did: &str) -> (k: Option<[u8; 32]>)
        ensures
            match lookup_spec(self.records()@, publisher_did@) {
                Some(key) => k matches Some(a) && a@ == key,
                None => k is None,
            },
    {
        let n = self.records.len();
        let mut i: usize = 0;
        assert(self.records@.subrange(0, n as int) =~= self.records@);
        while i < n
            invariant
                n == self.records@.len(),
                i <= n,
                lookup_spec(self.records@, publisher_did@) == lookup_spec(
                    self.records@.subrange(i as int, n as int),
                    publisher_did@,
                ),
            decreases n - i,
        {
            let ghost rest = self.records@.subrange(i as int, n as int);
            assert(rest.subrange(1, rest.len() as int) =~= self.records@.subrange(
                i + 1,
                n as int,
            ));
            assert(rest[0] == self.records@[i as int]);
            let k = record_key_of(&self.records[i], publisher_did);
            if k.is_some() {
                return k;
            }
            i += 1;
        }
        None
    }
}

/// Appending an entry changes no earlier answer: a lookup in the extended
/// store gives what the old store gives, and only where the old store has
/// no key for the DID does the new entry's key (if any) answer.
pub proof fn lemma_lookup_after_append(rs: Seq<RegistryRecord>, r: RegistryRecord, did: Seq<char>)
    ensures
        lookup_spec(rs.push(r), did) == match lookup_spec(rs, did) {
            Some(k) => Some(k),
            None => record_key(r, did),
        },
    decreases rs.len(),
{
    let ext = rs.push(r);
    if rs.len() == 0 {
        assert(ext.subrange(1, ext.len() as int) =~= Seq::<RegistryRecord>::empty());
        assert(ext[0] == r);
        assert(lookup_spec(Seq::<RegistryRecord>::empty(), did) is None);
    } else {
        let tail = rs.subrange(1, rs.len() as int);
        assert(ext.subrange(1, ext.len() as int) =~= tail.push(r));
        assert(ext[0] == rs[0]);
        lemma_lookup_after_append(tail, r, did);
        assert(lookup_spec(ext, did) == match record_key(rs[0], did) {
            Some(k) => Some(k),
            None => lookup_spec(tail.push(r), did),
        });
    }
}

/// After a publisher is added with a key that decodes, looking up its DID
/// gives that key, unless an earlier entry already records a key for it.
pub proof fn lemma_added_publisher_found(
    rs: Seq<RegistryRecord>,
    r: RegistryRecord,
    did: Seq<char>,
    pk: Seq<u8>,
)
    requires
        stores(r, did, pk),
        pk.len() == 32,
        ed25519_key_decodes(pk),
        lookup_spec(rs, did) is None,
    ensures
        lookup_spec(rs.push(r), did) == Some(pk),
{
    lemma_lookup_after_append(rs, r, did);
}

} // verus!
