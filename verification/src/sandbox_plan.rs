//! How a SANDBOX operation node's properties become the inputs of the
//! sandbox executor: the module CID text, the capability surface (a named
//! manifest, or an inline list of capabilities), and the per-handler
//! overrides of the executor's limits.

use vstd::prelude::*;
use vstd::string::StringExecFns;

use crate::cid::Cid;
use crate::property::PropertyValue;
use crate::text::str_eq;

verus! {

/// The capability surface a SANDBOX node declares.
#[derive(Debug, Clone, PartialEq, Eq)]
pub enum SandboxManifestRef {
    /// A manifest looked up by name.
    Named(String),
    /// An inline bundle of the listed capabilities.
    Inline(Vec<String>),
}

/// The text of a missing `module` property.
pub open spec fn module_missing_text() -> Seq<char> {
    "SANDBOX: `module` property missing — handler did not declare a module CID"@
}

/// The text of a non-text `module` property.
pub open spec fn module_not_text_text() -> Seq<char> {
    "SANDBOX: `module` property must be Text (base32 CID); got non-Text"@
}

/// The text of a node that declares no capability surface.
pub open spec fn no_surface_text() -> Seq<char> {
    "SANDBOX: neither `manifest` (named) nor `caps` (inline) property present — a SANDBOX node must declare its capability surface"@
}

/// Read the `module` property: its text (the module's CID), or why it
/// cannot be read.
pub fn sandbox_module_text(module: Option<&PropertyValue>) -> (r: Result<String, String>)
    ensures
        match module {
            None => r matches Err(e) && e@ == module_missing_text(),
            Some(PropertyValue::Text(s)) => r matches Ok(t) && t@ == s@,
            Some(_) => r matches Err(e) && e@ == module_not_text_text(),
        },
{
    match module {
        None => Err(
            String::from_str(
                "SANDBOX: `module` property missing — handler did not declare a module CID",
            ),
        ),
        Some(PropertyValue::Text(s)) => Ok(s.clone()),
        Some(_) => Err(
            String::from_str("SANDBOX: `module` property must be Text (base32 CID); got non-Text"),
        ),
    }
}

/// The text items of a list, in order (other items are skipped).
pub open spec fn text_items(items: Seq<PropertyValue>) -> Seq<Seq<char>>
    decreases items.len(),
{
    if items.len() == 0 {
        Seq::empty()
    } else {
        let front = text_items(items.drop_last());
        match items.last() {
            PropertyValue::Text(s) => front.push(s@),
            _ => front,
        }
    }
}

/// The characters of each string.
pub open spec fn strings_chars(v: Seq<String>) -> Seq<Seq<char>> {
    v.map_values(|s: String| s@)
}

/// Resolve the capability surface: a text `manifest` names a manifest;
/// otherwise a list `caps` is an inline bundle of its text items;
/// otherwise the node declares none.
pub fn sandbox_manifest_ref(manifest: Option<&PropertyValue>, caps: Option<&PropertyValue>) -> (r:
    Result<SandboxManifestRef, String>)
    ensures
        match (manifest, caps) {
            (Some(PropertyValue::Text(n)), _) => r matches Ok(SandboxManifestRef::Named(x)) && x@
                == n@,
            (_, Some(PropertyValue::List(items))) => r matches Ok(SandboxManifestRef::Inline(v))
                && strings_chars(v@) == text_items(items@),
            _ => r matches Err(e) && e@ == no_surface_text(),
        },
{
    if let Some(PropertyValue::Text(n)) = manifest {
        return Ok(SandboxManifestRef::Named(n.clone()));
    }
    if let Some(PropertyValue::List(items)) = caps {
        let mut out: Vec<String> = Vec::new();
        let n = items.len();
        let mut i: usize = 0;
        while i < n
            invariant
                n == items@.len(),
                i <= n,
                strings_chars(out@) == text_items(items@.subrange(0, i as int)),
            decreases n - i,
        {
            assert(items@.subrange(0, i + 1).drop_last() =~= items@.subrange(0, i as int));
            assert(items@.subrange(0, i + 1).last() == items@[i as int]);
            if let PropertyValue::Text(s) = &items[i] {
                let ghost before = out@;
                out.push(s.clone());
                assert(strings_chars(out@) =~= strings_chars(before).push(s@));
            }
            i += 1;
        }
        assert(items@.subrange(0, n as int) =~= items@);
        return Ok(SandboxManifestRef::Inline(out));
    }
    Err(
        String::from_str(
            "SANDBOX: neither `manifest` (named) nor `caps` (inline) property present — a SANDBOX node must declare its capability surface",
        ),
    )
}

/// A per-handler limit override (`fuel`, `output_limit`): a non-negative
/// integer property replaces `current`; a negative one or any other value
/// keeps it.
pub fn limit_override(value: Option<&PropertyValue>, current: u64) -> (r: u64)
    ensures
        r == match value {
            Some(PropertyValue::Int(i)) => if *i >= 0 {
                *i as u64
            } else {
                current
            },
            _ => current,
        },
{
    match value {
        Some(PropertyValue::Int(i)) => if *i >= 0 {
            *i as u64
        } else {
            current
        },
        _ => current,
    }
}

/// The per-handler wall-clock override (`wallclock_ms`): an integer
/// property asks for that many milliseconds (a negative one counts as
/// zero), checked against the executor's ceiling by its configuration; any
/// other value asks for none.
pub fn wallclock_override(value: Option<&PropertyValue>) -> (r: Option<u64>)
    ensures
        r == match value {
            Some(PropertyValue::Int(i)) => Some(
                if *i >= 0 {
                    *i as u64
                } else {
                    0u64
                },
            ),
            _ => None::<u64>,
        },
{
    match value {
        Some(PropertyValue::Int(i)) => Some(
            if *i >= 0 {
                *i as u64
            } else {
                0
            },
        ),
        _ => None,
    }
}

/// The sandbox depth a SANDBOX entry runs at: the dispatching call
/// frame's depth bumped by one (saturating at `u8::MAX`); the bumped depth
/// is what the frame keeps for nested calls. Outside any frame the entry
/// runs at depth 1.
pub fn sandbox_entry_depth(frame_depth: Option<u8>) -> (d: u8)
    ensures
        d == match frame_depth {
            Some(x) => if x < u8::MAX {
                (x + 1) as u8
            } else {
                u8::MAX
            },
            None => 1u8,
        },
{
    match frame_depth {
        Some(x) => x.saturating_add(1),
        None => 1,
    }
}

/// The live capability check a sandboxed host function consults: an
/// actor revoked since the SANDBOX entry holds no capability; otherwise a
/// capability is held when the granted snapshot names it.
pub fn live_cap_permits(revoked_actors: &Vec<Cid>, actor: &Cid, snapshot: &Vec<String>, cap: &str) -> (r:
    bool)
    ensures
        r == (!revoked_actors@.contains(*actor) && strings_chars(snapshot@).contains(cap@)),
{
    let mut i: usize = 0;
    while i < revoked_actors.len()
        invariant
            i <= revoked_actors.len(),
            forall|j: int| 0 <= j < i ==> revoked_actors@[j] != *actor,
        decreases revoked_actors.len() - i,
    {
        if revoked_actors[i].same_as(actor) {
            return false;
        }
        i += 1;
    }
    let mut k: usize = 0;
    while k < snapshot.len()
        invariant
            k <= snapshot.len(),
            !revoked_actors@.contains(*actor),
            forall|j: int| 0 <= j < k ==> snapshot@[j]@ != cap@,
        decreases snapshot.len() - k,
    {
        if str_eq(snapshot[k].as_str(), cap) {
            assert(strings_chars(snapshot@)[k as int] == cap@);
            return true;
        }
        k += 1;
    }
    assert forall|j: int| 0 <= j < strings_chars(snapshot@).len() implies strings_chars(snapshot@)[j]
        != cap@ by {
        assert(strings_chars(snapshot@)[j] == snapshot@[j]@);
    }
    false
}

} // verus!
