//! Typed error codes and the engine error shape the library's boundary
//! helpers produce.

use vstd::prelude::*;

use crate::cid::Cid;

verus! {

/// Stable error-code catalog discriminants the library surfaces.
#[derive(Debug, Clone, PartialEq, Eq)]
#[non_exhaustive]
pub enum ErrorCode {
    /// An install record was presented a second time (replay).
    PluginInstallRecordAlreadyApplied,
    /// An internal graph/engine invariant failed.
    GraphInternal,
    /// A delegation or merged row falls outside the plugin's manifest
    /// `shares` envelope.
    PluginDelegationOutsideManifestEnvelope,
    /// A device attestation or envelope ceiling was violated.
    DeviceAttestationForged,
    /// A sync merge targeted a system zone.
    SyncDivergentCidRejected,
    /// The sync session is not active.
    AtriumInactive,
    /// A sync frame would exceed the hop-depth cap.
    SyncHopDepthExceeded,
    /// A sync row's clock is too far ahead of the local clock.
    SyncHlcDrift,
    /// A sync entry's bytes do not hash to its declared CID.
    SyncHashMismatch,
    /// A handler id was registered twice.
    DuplicateHandler,
    /// Production mode without a capability policy.
    NoCapabilityPolicyConfigured,
    /// Production mode with capabilities switched off.
    ProductionRequiresCaps,
    /// The subsystem a call needs is disabled.
    SubsystemDisabled,
    /// A strict view read found the view stale.
    IvmViewStale,
    /// No view is known under the id.
    UnknownView,
    /// A user view declared strategy A.
    ViewStrategyARefused,
    /// A user view declared strategy C.
    ViewStrategyCReserved,
    /// A canonical view id was registered with another label.
    ViewLabelMismatch,
    /// Nested transactions are not supported.
    NestedTransactionNotSupported,
    /// The feature is not implemented.
    NotImplemented,
    /// A module manifest's bytes do not hash to the expected CID.
    ModuleManifestCidMismatch,
    /// Migrations were declared for a target without persistent storage.
    ModuleMigrationsRequirePersistence,
    /// Bytes did not decode.
    Serialize,
    /// A resume named a principal other than the one the suspended bytes
    /// bind.
    ResumeActorMismatch,
    /// A subgraph pinned at suspend time is no longer registered.
    ResumeSubgraphDrift,
    /// A suspended execution's WAIT metadata is missing.
    WaitMetadataMissing,
    /// A suspended execution's payload does not hash to the payload CID
    /// its envelope carries.
    ExecStateTampered,
    /// A catalog code carried by its stable string identifier.
    Unknown(String),
}

/// Engine-level errors.
#[derive(Debug, Clone, PartialEq, Eq)]
#[non_exhaustive]
pub enum EngineError {
    /// A handler id was registered twice.
    DuplicateHandler {
        /// The handler id.
        handler_id: String,
    },
    /// Production mode without a capability policy.
    NoCapabilityPolicyConfigured,
    /// Production mode with capabilities switched off.
    ProductionRequiresCaps,
    /// The subsystem a call needs is disabled.
    SubsystemDisabled {
        /// The subsystem.
        subsystem: &'static str,
    },
    /// A strict view read found the view stale.
    IvmViewStale {
        /// The view id.
        view_id: String,
    },
    /// No view is known under the id.
    UnknownView {
        /// The view id.
        view_id: String,
    },
    /// A user view declared strategy A (reserved for hand-written views).
    ViewStrategyARefused {
        /// The view id.
        view_id: String,
    },
    /// A user view declared strategy C (reserved).
    ViewStrategyCReserved {
        /// The view id.
        view_id: String,
    },
    /// A canonical view id was registered with a label other than its
    /// fixed one.
    ViewLabelMismatch {
        /// The view id.
        view_id: String,
        /// The canonical label.
        expected_label: String,
        /// The label supplied.
        got_label: String,
    },
    /// Nested transactions are not supported.
    NestedTransactionNotSupported,
    /// The feature is not implemented.
    NotImplemented {
        /// The feature.
        feature: &'static str,
    },
    /// A module manifest's bytes do not hash to the expected CID.
    ModuleManifestCidMismatch {
        /// The CID the caller expected.
        expected: Cid,
        /// The CID of the canonical bytes.
        computed: Cid,
        /// The manifest's one-line summary.
        summary: String,
    },
    /// Migrations were declared for a target without persistent storage.
    ModuleMigrationsRequirePersistence {
        /// How many migrations were declared.
        migration_count: usize,
    },
    /// A typed error code with an operator-readable message.
    Other {
        /// The catalog code.
        code: ErrorCode,
        /// The operator-readable message.
        message: String,
    },
}

/// The catalog code of each engine error.
pub open spec fn engine_error_code(e: EngineError) -> ErrorCode {
    match e {
        EngineError::DuplicateHandler { .. } => ErrorCode::DuplicateHandler,
        EngineError::NoCapabilityPolicyConfigured => ErrorCode::NoCapabilityPolicyConfigured,
        EngineError::ProductionRequiresCaps => ErrorCode::ProductionRequiresCaps,
        EngineError::SubsystemDisabled { .. } => ErrorCode::SubsystemDisabled,
        EngineError::IvmViewStale { .. } => ErrorCode::IvmViewStale,
        EngineError::UnknownView { .. } => ErrorCode::UnknownView,
        EngineError::ViewStrategyARefused { .. } => ErrorCode::ViewStrategyARefused,
        EngineError::ViewStrategyCReserved { .. } => ErrorCode::ViewStrategyCReserved,
        EngineError::ViewLabelMismatch { .. } => ErrorCode::ViewLabelMismatch,
        EngineError::NestedTransactionNotSupported => ErrorCode::NestedTransactionNotSupported,
        EngineError::NotImplemented { .. } => ErrorCode::NotImplemented,
        EngineError::ModuleManifestCidMismatch { .. } => ErrorCode::ModuleManifestCidMismatch,
        EngineError::ModuleMigrationsRequirePersistence { .. } =>
            ErrorCode::ModuleMigrationsRequirePersistence,
        EngineError::Other { code, .. } => code,
    }
}

impl EngineError {
    /// The catalog code of this error.
    pub fn error_code(&self) -> (c: ErrorCode)
        ensures
            c == engine_error_code(*self),
    {
        match self {
            EngineError::DuplicateHandler { .. } => ErrorCode::DuplicateHandler,
            EngineError::NoCapabilityPolicyConfigured => ErrorCode::NoCapabilityPolicyConfigured,
            EngineError::ProductionRequiresCaps => ErrorCode::ProductionRequiresCaps,
            EngineError::SubsystemDisabled { .. } => ErrorCode::SubsystemDisabled,
            EngineError::IvmViewStale { .. } => ErrorCode::IvmViewStale,
            EngineError::UnknownView { .. } => ErrorCode::UnknownView,
            EngineError::ViewStrategyARefused { .. } => ErrorCode::ViewStrategyARefused,
            EngineError::ViewStrategyCReserved { .. } => ErrorCode::ViewStrategyCReserved,
            EngineError::ViewLabelMismatch { .. } => ErrorCode::ViewLabelMismatch,
            EngineError::NestedTransactionNotSupported => ErrorCode::NestedTransactionNotSupported,
            EngineError::NotImplemented { .. } => ErrorCode::NotImplemented,
            EngineError::ModuleManifestCidMismatch { .. } => ErrorCode::ModuleManifestCidMismatch,
            EngineError::ModuleMigrationsRequirePersistence { .. } =>
                ErrorCode::ModuleMigrationsRequirePersistence,
            EngineError::Other { code, .. } => clone_code(code),
        }
    }

    /// The catalog code of this error (alias of [`Self::error_code`]).
    pub fn code(&self) -> (c: ErrorCode)
        ensures
            c == engine_error_code(*self),
    {
        self.error_code()
    }
}

/// A copy of an error code.
fn clone_code(c: &ErrorCode) -> (r: ErrorCode)
    ensures
        r == *c,
{
    match c {
        ErrorCode::PluginInstallRecordAlreadyApplied => ErrorCode::PluginInstallRecordAlreadyApplied,
        ErrorCode::GraphInternal => ErrorCode::GraphInternal,
        ErrorCode::PluginDelegationOutsideManifestEnvelope =>
            ErrorCode::PluginDelegationOutsideManifestEnvelope,
        ErrorCode::DeviceAttestationForged => ErrorCode::DeviceAttestationForged,
        ErrorCode::SyncDivergentCidRejected => ErrorCode::SyncDivergentCidRejected,
        ErrorCode::AtriumInactive => ErrorCode::AtriumInactive,
        ErrorCode::SyncHopDepthExceeded => ErrorCode::SyncHopDepthExceeded,
        ErrorCode::SyncHlcDrift => ErrorCode::SyncHlcDrift,
        ErrorCode::SyncHashMismatch => ErrorCode::SyncHashMismatch,
        ErrorCode::DuplicateHandler => ErrorCode::DuplicateHandler,
        ErrorCode::NoCapabilityPolicyConfigured => ErrorCode::NoCapabilityPolicyConfigured,
        ErrorCode::ProductionRequiresCaps => ErrorCode::ProductionRequiresCaps,
        ErrorCode::SubsystemDisabled => ErrorCode::SubsystemDisabled,
        ErrorCode::IvmViewStale => ErrorCode::IvmViewStale,
        ErrorCode::UnknownView => ErrorCode::UnknownView,
        ErrorCode::ViewStrategyARefused => ErrorCode::ViewStrategyARefused,
        ErrorCode::ViewStrategyCReserved => ErrorCode::ViewStrategyCReserved,
        ErrorCode::ViewLabelMismatch => ErrorCode::ViewLabelMismatch,
        ErrorCode::NestedTransactionNotSupported => ErrorCode::NestedTransactionNotSupported,
        ErrorCode::NotImplemented => ErrorCode::NotImplemented,
        ErrorCode::ModuleManifestCidMismatch => ErrorCode::ModuleManifestCidMismatch,
        ErrorCode::ModuleMigrationsRequirePersistence =>
            ErrorCode::ModuleMigrationsRequirePersistence,
        ErrorCode::Serialize => ErrorCode::Serialize,
        ErrorCode::ResumeActorMismatch => ErrorCode::ResumeActorMismatch,
        ErrorCode::ResumeSubgraphDrift => ErrorCode::ResumeSubgraphDrift,
        ErrorCode::WaitMetadataMissing => ErrorCode::WaitMetadataMissing,
        ErrorCode::ExecStateTampered => ErrorCode::ExecStateTampered,
        ErrorCode::Unknown(s) => ErrorCode::Unknown(s.clone()),
    }
}

} // verus!
