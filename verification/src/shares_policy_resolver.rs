//! Layer-3 plugin-manifest `shares`-envelope enforcement seam for runtime
//! capability delegation. Fail-closed: only an explicit `Admitted`, or a
//! source that is not a plugin principal, lets a delegation proceed.

use vstd::prelude::*;

use crate::error::ErrorCode;

verus! {

/// Outcome of resolving one delegation step against the source
/// principal's manifest `shares` policy.
#[derive(Debug, Clone, Copy, PartialEq, Eq, Structural)]
pub enum DelegationResolution {
    /// The source is the user-root (or otherwise not a plugin principal).
    NotPluginPrincipal,
    /// The source plugin's manifest `shares` policy permits the delegation.
    Admitted,
    /// The source plugin's manifest `shares` policy forbids it.
    Denied,
    /// The source looks like a plugin principal but no installed manifest
    /// could be resolved for it.
    NoManifest,
}

impl DelegationResolution {
    /// Map to the boundary `Result`: `Admitted` / `NotPluginPrincipal`
    /// proceed; `Denied` / `NoManifest` reject with
    /// `PluginDelegationOutsideManifestEnvelope`.
    pub fn into_result(self) -> (r: Result<(), ErrorCode>)
        ensures
            r is Ok <==> (self == DelegationResolution::NotPluginPrincipal || self
                == DelegationResolution::Admitted),
            r is Err ==> r == Err::<(), ErrorCode>(
                ErrorCode::PluginDelegationOutsideManifestEnvelope,
            ),
    {
        match self {
            DelegationResolution::NotPluginPrincipal | DelegationResolution::Admitted => Ok(()),
            DelegationResolution::Denied | DelegationResolution::NoManifest => Err(
                ErrorCode::PluginDelegationOutsideManifestEnvelope,
            ),
        }
    }
}

/// Seam the engine-adapter crate implements to resolve whether
/// `source_principal_did` may delegate `cap_pattern` to
/// `target_plugin_did` under its installed manifest `shares` policy.
pub trait SharesPolicyResolver {
    /// Resolve one delegation step.
    fn resolve_delegation(
        &self,
        source_principal_did: &str,
        cap_pattern: &str,
        target_plugin_did: &str,
    ) -> DelegationResolution;
}

/// Default resolver: classifies every principal as not a plugin
/// principal (no manifest gate is applied).
#[derive(Debug, Default, Clone, Copy)]
pub struct NoopSharesPolicyResolver;

impl SharesPolicyResolver for NoopSharesPolicyResolver {
    fn resolve_delegation(
        &self,
        source_principal_did: &str,
        cap_pattern: &str,
        target_plugin_did: &str,
    ) -> (r: DelegationResolution)
        ensures
            r == DelegationResolution::NotPluginPrincipal,
    {
        DelegationResolution::NotPluginPrincipal
    }
}

} // verus!
