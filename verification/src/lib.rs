//! Benten engine: the verified core of the engine's wire encodings,
//! admission pipelines, replay stores, routing log, view and sync decision
//! rules, listing order, handler-version chains, and manifest signing.
//!
//! Every public function carries a contract over a mathematical model of
//! its inputs and result; the few calls into outside crates (BLAKE3,
//! Ed25519, constant-time comparison, the system clock) sit behind small
//! trusted wrappers in [`crypto`], [`clock`] and [`text`] whose contracts
//! state exactly what is relied on.

pub mod base64;
pub mod bytes;
pub mod capability_refresh;
pub mod cid;
pub mod clock;
pub mod crypto;
pub mod digest_set;
pub mod engine_sync;
pub mod engine_views;
pub mod engine_wait;
pub mod error;
pub mod handler_router;
pub mod handler_versions;
pub mod install_record_replay;
pub mod ivm_view_read_gate;
pub mod layer_d;
pub mod listing;
pub mod manifest_envelope_recheck;
pub mod manifest_signing;
pub mod module_manifest;
pub mod outcome;
pub mod production_manifest_envelope_rechecker;
pub mod property;
pub mod resume_protocol;
pub mod sandbox_plan;
pub mod shares_policy_resolver;
pub mod subgraph_cache;
pub mod subgraph_spec;
pub mod suspension_store;
pub mod system_zones;
pub mod text;
