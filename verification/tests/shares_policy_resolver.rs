use benten_engine::error::ErrorCode;
use benten_engine::shares_policy_resolver::{
    DelegationResolution, NoopSharesPolicyResolver, SharesPolicyResolver,
};

#[test]
fn noop_classifies_everything_not_plugin_principal() {
    let r = NoopSharesPolicyResolver;
    assert_eq!(
        r.resolve_delegation("did:key:zSource", "store:notes:read", "did:key:zTarget"),
        DelegationResolution::NotPluginPrincipal
    );
}

#[test]
fn into_result_admit_paths_ok() {
    assert!(DelegationResolution::NotPluginPrincipal.into_result().is_ok());
    assert!(DelegationResolution::Admitted.into_result().is_ok());
}

#[test]
fn into_result_deny_paths_fail_closed() {
    assert_eq!(
        DelegationResolution::Denied.into_result(),
        Err(ErrorCode::PluginDelegationOutsideManifestEnvelope)
    );
    assert_eq!(
        DelegationResolution::NoManifest.into_result(),
        Err(ErrorCode::PluginDelegationOutsideManifestEnvelope)
    );
}
