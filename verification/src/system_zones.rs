//! The frozen list of system-zone label prefixes and the zone classifier
//! the sync merge boundary consults.

use vstd::prelude::*;

use crate::text::{has_prefix, str_starts_with};

verus! {

/// The frozen list of system-zone label prefixes, in insertion order.
pub const SYSTEM_ZONE_PREFIXES: [&'static str; 16] = [
    "system:CapabilityGrant",
    "system:IVMView",
    "system:CapabilityRevocation",
    "system:Principal",
    "system:Grant",
    "system:WaitPending",
    "system:WaitResume",
    "system:ModuleManifest",
    "system:ModuleManifestRevocation",
    "system:ModuleBytes",
    "system:HandlerVersion",
    "system:PublisherRegistry",
    "system:Critical",
    "system:ivm:",
    "system:EventDispatch",
    "system:GovernanceInheritance",
];

/// Whether `zone` falls inside the system-zone prefix list.
pub open spec fn is_system_zone(zone: Seq<char>) -> bool {
    exists|i: int| 0 <= i < 16 && has_prefix(zone, #[trigger] SYSTEM_ZONE_PREFIXES@[i]@)
}

/// Row-4 split classifier: a zone is a system zone exactly when one of the
/// system-zone prefixes begins it.
pub fn zone_is_system_zone(zone: &str) -> (r: bool)
    ensures
        r == is_system_zone(zone@),
{
    let prefixes = SYSTEM_ZONE_PREFIXES;
    let mut i: usize = 0;
    while i < 16
        invariant
            i <= 16,
            prefixes == SYSTEM_ZONE_PREFIXES,
            forall|j: int| 0 <= j < i ==> !has_prefix(zone@, #[trigger] SYSTEM_ZONE_PREFIXES@[j]@),
        decreases 16 - i,
    {
        if str_starts_with(zone, prefixes[i]) {
            return true;
        }
        i += 1;
    }
    false
}

/// Whether `label` lies in the reserved `system:` zone.
pub open spec fn is_system_zone_label_spec(label: Seq<char>) -> bool {
    has_prefix(label, "system:"@)
}

/// Runtime probe: a label is privileged exactly when it starts with
/// `system:` (broader than the prefix list, so an unknown `system:` label
/// is still privileged).
pub fn is_system_zone_label(label: &str) -> (r: bool)
    ensures
        r == is_system_zone_label_spec(label@),
{
    str_starts_with(label, "system:")
}

/// Both classifications agree on what they deny: every zone the prefix
/// list classifies as a system zone is a `system:` label.
pub proof fn lemma_system_zones_are_system_labels(zone: Seq<char>)
    requires
        is_system_zone(zone),
    ensures
        is_system_zone_label_spec(zone),
{
    reveal_strlit("system:");
    reveal_strlit("system:CapabilityGrant");
    reveal_strlit("system:IVMView");
    reveal_strlit("system:CapabilityRevocation");
    reveal_strlit("system:Principal");
    reveal_strlit("system:Grant");
    reveal_strlit("system:WaitPending");
    reveal_strlit("system:WaitResume");
    reveal_strlit("system:ModuleManifest");
    reveal_strlit("system:ModuleManifestRevocation");
    reveal_strlit("system:ModuleBytes");
    reveal_strlit("system:HandlerVersion");
    reveal_strlit("system:PublisherRegistry");
    reveal_strlit("system:Critical");
    reveal_strlit("system:ivm:");
    reveal_strlit("system:EventDispatch");
    reveal_strlit("system:GovernanceInheritance");
    let i = choose|i: int| 0 <= i < 16 && has_prefix(zone, #[trigger] SYSTEM_ZONE_PREFIXES@[i]@);
    let p = SYSTEM_ZONE_PREFIXES@[i]@;
    assert(has_prefix(p, "system:"@)) by {
        assert(p.subrange(0, 7) =~= "system:"@);
    }
    assert(zone.subrange(0, 7) =~= p.subrange(0, 7));
}

} // verus!
