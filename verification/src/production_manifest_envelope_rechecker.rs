//! Production manifest-envelope rechecker: the synthesized-fallback
//! hardening. A synthesized `node-id:<N>` peer DID surfaces
//! `UnresolvedDeny`; resolvable peer DIDs stay `NotApplicable`.

use vstd::prelude::*;

use crate::manifest_envelope_recheck::{
    is_synthesized_node_id, is_synthesized_node_id_spec, ManifestEnvelopeRecheckOutcome,
    ManifestEnvelopeRechecker,
};

verus! {

/// Production rechecker installed by the production engine builder.
#[derive(Debug, Default, Clone, Copy)]
pub struct ProductionManifestEnvelopeRechecker {
    _private: (),
}

impl ProductionManifestEnvelopeRechecker {
    /// New production rechecker.
    pub fn new() -> (r: Self) {
        ProductionManifestEnvelopeRechecker { _private: () }
    }
}

impl ManifestEnvelopeRechecker for ProductionManifestEnvelopeRechecker {
    fn recheck_row(&self, peer_did_str: &str, zone: &str, key: &str) -> (r:
        ManifestEnvelopeRecheckOutcome)
        ensures
            r == if is_synthesized_node_id_spec(peer_did_str@) {
                ManifestEnvelopeRecheckOutcome::UnresolvedDeny
            } else {
                ManifestEnvelopeRecheckOutcome::NotApplicable
            },
    {
        if is_synthesized_node_id(peer_did_str) {
            return ManifestEnvelopeRecheckOutcome::UnresolvedDeny;
        }
        ManifestEnvelopeRecheckOutcome::NotApplicable
    }
}

} // verus!
