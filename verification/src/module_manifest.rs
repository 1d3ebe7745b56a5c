//! Module manifest format and its one-line operator summary.
//!
//! The canonical encoding of a manifest is DAG-CBOR; the encoder (a serde
//! derive) lives with the application layer. This module owns the
//! manifest's shape, the summary embedded in CID-mismatch errors
//! (`<name> v<version> modules=<n> caps=<n>`, where `caps` counts the
//! distinct capability strings across all modules), and the manifest
//! CID computed from canonical bytes.

use vstd::prelude::*;
use vstd::string::StringExecFns;

use crate::cid::Cid;
use crate::crypto::{blake3_digest, blake3_hash};
use crate::text::{decimal, push_decimal, str_eq};

verus! {

/// One module entry inside a [`ModuleManifest`].
#[derive(Clone, Debug, PartialEq, Eq)]
pub struct ModuleManifestEntry {
    /// Module name.
    pub name: String,
    /// CIDv1 base32 string of the WebAssembly module bytes.
    pub cid: String,
    /// Capabilities the module's host-fn imports require.
    pub requires: Vec<String>,
}

/// Reserved manifest signature shape (base64 Ed25519 signature).
#[derive(Clone, Debug, PartialEq, Eq)]
pub struct ManifestSignature {
    /// Ed25519 signature bytes, base64-encoded.
    pub ed25519: Option<String>,
}

/// One declared migration step.
#[derive(Clone, Debug, PartialEq, Eq)]
pub struct MigrationStep {
    /// Stable migration id.
    pub id: String,
    /// Free-form description.
    pub description: Option<String>,
}

/// Module manifest.
#[derive(Clone, Debug, PartialEq, Eq)]
pub struct ModuleManifest {
    /// Manifest name (e.g. `acme.posts`).
    pub name: String,
    /// Manifest version string.
    pub version: String,
    /// Modules this manifest declares.
    pub modules: Vec<ModuleManifestEntry>,
    /// Migration declarations.
    pub migrations: Vec<MigrationStep>,
    /// Ed25519 signature surface; omitted from canonical bytes when `None`.
    pub signature: Option<ManifestSignature>,
}

/// One-line operator-readable summary of a [`ModuleManifest`].
#[derive(Clone, Debug, PartialEq, Eq)]
pub struct ManifestSummary {
    /// Manifest name.
    pub name: String,
    /// Manifest version.
    pub version: String,
    /// Module-entry count.
    pub modules: usize,
    /// Count of distinct `requires` capability strings.
    pub caps: usize,
}

/// Errors produced by manifest serialization / deserialization.
#[derive(Debug, Clone, PartialEq, Eq)]
#[non_exhaustive]
pub enum ManifestError {
    /// DAG-CBOR encode failure.
    Encode(String),
    /// DAG-CBOR decode failure.
    Decode(String),
}

/// The capability strings of each module, as characters.
pub open spec fn requires_of(modules: Seq<ModuleManifestEntry>) -> Seq<Seq<Seq<char>>> {
    modules.map_values(|m: ModuleManifestEntry| m.requires@.map_values(|s: String| s@))
}

/// The capability strings at positions `(i, j)` before `(mi, mj)` in
/// module-then-requirement order.
pub open spec fn caps_before(ms: Seq<Seq<Seq<char>>>, mi: int, mj: int) -> Set<Seq<char>> {
    Set::new(
        |c: Seq<char>|
            exists|i: int, j: int|
                0 <= i < ms.len() && 0 <= j < ms[i].len() && (i < mi || (i == mi && j < mj))
                    && #[trigger] ms[i][j] == c,
    )
}

/// Every capability string any module requires.
pub open spec fn all_caps(ms: Seq<Seq<Seq<char>>>) -> Set<Seq<char>> {
    caps_before(ms, ms.len() as int, 0)
}

/// The summary line `<name> v<version> modules=<n> caps=<n>`.
pub open spec fn summary_line(name: Seq<char>, version: Seq<char>, modules: nat, caps: nat) -> Seq<
    char,
> {
    name + " v"@ + version + " modules="@ + decimal(modules) + " caps="@ + decimal(caps)
}

impl ManifestSummary {
    /// The operator-readable line `<name> v<version> modules=<n> caps=<n>`.
    pub fn to_display_string(&self) -> (s: String)
        ensures
            s@ == summary_line(self.name@, self.version@, self.modules as nat, self.caps as nat),
    {
        let mut s = String::from_str(self.name.as_str());
        s.append(" v");
        s.append(self.version.as_str());
        s.append(" modules=");
        push_decimal(&mut s, self.modules);
        s.append(" caps=");
        push_decimal(&mut s, self.caps);
        s
    }
}

/// Whether `found` already holds `c`.
fn holds(found: &Vec<String>, c: &str) -> (r: bool)
    ensures
        r == found@.map_values(|s: String| s@).contains(c@),
{
    let n = found.len();
    let mut i: usize = 0;
    while i < n
        invariant
            n == found@.len(),
            i <= n,
            forall|j: int| 0 <= j < i ==> found@[j]@ != c@,
        decreases n - i,
    {
        if str_eq(found[i].as_str(), c) {
            assert(found@.map_values(|s: String| s@)[i as int] == c@);
            return true;
        }
        i += 1;
    }
    assert(!found@.map_values(|s: String| s@).contains(c@));
    false
}

impl ModuleManifest {
    /// Build the [`ManifestSummary`]: name, version, module count, and the
    /// number of distinct capability strings across every module entry.
    pub fn summary(&self) -> (s: ManifestSummary)
        ensures
            s.name@ == self.name@,
            s.version@ == self.version@,
            s.modules == self.modules@.len(),
            all_caps(requires_of(self.modules@)).finite(),
            s.caps == all_caps(requires_of(self.modules@)).len(),
    {
        let ghost ms = requires_of(self.modules@);
        let mut found: Vec<String> = Vec::new();
        let nm = self.modules.len();
        let mut mi: usize = 0;
        assert(found@.map_values(|s: String| s@).to_set() =~= caps_before(ms, 0, 0));
        while mi < nm
            invariant
                nm == self.modules@.len(),
                ms == requires_of(self.modules@),
                mi <= nm,
                found@.map_values(|s: String| s@).no_duplicates(),
                found@.map_values(|s: String| s@).to_set() == caps_before(ms, mi as int, 0),
            decreases nm - mi,
        {
            let reqs = &self.modules[mi].requires;
            let nr = reqs.len();
            let mut j: usize = 0;
            while j < nr
                invariant
                    nm == self.modules@.len(),
                    ms == requires_of(self.modules@),
                    mi < nm,
                    reqs == self.modules@[mi as int].requires,
                    nr == reqs@.len(),
                    j <= nr,
                    found@.map_values(|s: String| s@).no_duplicates(),
                    found@.map_values(|s: String| s@).to_set() == caps_before(
                        ms,
                        mi as int,
                        j as int,
                    ),
                decreases nr - j,
            {
                let c = reqs[j].as_str();
                let ghost before = found@.map_values(|s: String| s@);
                assert(ms[mi as int][j as int] == c@);
                if !holds(&found, c) {
                    found.push(c.to_owned());
                    assert(found@.map_values(|s: String| s@) =~= before.push(c@));
                    proof {
                        Seq::<Seq<char>>::lemma_to_set_insert_commutes(before, c@);
                        assert(before + seq![c@] =~= before.push(c@));
                    }
                }
                assert(found@.map_values(|s: String| s@).to_set() =~= caps_before(
                    ms,
                    mi as int,
                    j + 1,
                )) by {
                    let now = found@.map_values(|s: String| s@).to_set();
                    assert forall|x: Seq<char>| #[trigger] caps_before(
                        ms,
                        mi as int,
                        j + 1,
                    ).contains(x) implies now.contains(x) by {
                        let (i2, j2) = choose|i2: int, j2: int|
                            0 <= i2 < ms.len() && 0 <= j2 < ms[i2].len() && (i2 < mi || (i2
                                == mi && j2 < j + 1)) && #[trigger] ms[i2][j2] == x;
                        if i2 == mi && j2 == j {
                            assert(before.to_set().insert(c@).contains(x));
                        } else {
                            assert(caps_before(ms, mi as int, j as int).contains(x));
                        }
                    }
                    assert forall|x: Seq<char>| now.contains(x) implies #[trigger] caps_before(
                        ms,
                        mi as int,
                        j + 1,
                    ).contains(x) by {
                        if x != c@ {
                            assert(before.to_set().contains(x));
                            assert(caps_before(ms, mi as int, j as int).contains(x));
                        } else {
                            assert(ms[mi as int][j as int] == x);
                        }
                    }
                }
                j += 1;
            }
            assert(caps_before(ms, mi as int, nr as int) =~= caps_before(ms, mi + 1, 0)) by {
                assert forall|x: Seq<char>| #[trigger] caps_before(ms, mi + 1, 0).contains(x)
                    implies caps_before(ms, mi as int, nr as int).contains(x) by {
                    let (i2, j2) = choose|i2: int, j2: int|
                        0 <= i2 < ms.len() && 0 <= j2 < ms[i2].len() && (i2 < mi + 1 || (i2 == mi
                            + 1 && j2 < 0)) && #[trigger] ms[i2][j2] == x;
                    assert(ms[i2][j2] == x);
                }
            }
            mi += 1;
        }
        proof {
            found@.map_values(|s: String| s@).unique_seq_to_set();
        }
        ManifestSummary {
            name: self.name.clone(),
            version: self.version.clone(),
            modules: self.modules.len(),
            caps: found.len(),
        }
    }
}

/// The manifest CID of canonical DAG-CBOR bytes: BLAKE3 over the bytes,
/// in a CIDv1 envelope (dag-cbor codec, BLAKE3 multihash).
pub fn manifest_cid_from_canonical_bytes(bytes: &[u8]) -> (c: Cid)
    ensures
        c.digest@ == blake3_digest(bytes@),
{
    Cid::from_blake3_digest(blake3_hash(bytes))
}

/// Identical content has identical identity: two manifest CIDs computed
/// from the same canonical bytes are the same CID.
pub proof fn lemma_identical_content_identical_cid(b1: Seq<u8>, b2: Seq<u8>, c1: Cid, c2: Cid)
    requires
        c1.digest@ == blake3_digest(b1),
        c2.digest@ == blake3_digest(b2),
        b1 == b2,
    ensures
        c1 == c2,
{
    assert(c1.digest@ == c2.digest@);
    assert forall|i: int| 0 <= i < 32 implies c1.digest[i] == c2.digest[i] by {
        assert(c1.digest@[i] == c2.digest@[i]);
    }
    assert(c1.digest =~= c2.digest);
}

} // verus!
