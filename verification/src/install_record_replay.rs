//! InstallRecord replay defense: an install record, identified by the
//! BLAKE3 hash of its signing payload, is admitted at most once. The
//! check and the record happen in one step, so no caller can observe
//! "not yet applied" for a hash another caller is recording.

use vstd::prelude::*;

use crate::crypto::{blake3_digest, blake3_hash};
use crate::digest_set::DigestSet;
use crate::error::ErrorCode;

verus! {

/// Atomic record-and-check store for install-record replay defense (one
/// per engine, in memory).
#[derive(Debug, Default)]
pub struct InstallRecordReplayStore {
    consumed: DigestSet,
}

impl View for InstallRecordReplayStore {
    type V = Set<Seq<u8>>;

    /// The set of consumed payload hashes.
    closed spec fn view(&self) -> Set<Seq<u8>> {
        self.consumed@
    }
}

impl InstallRecordReplayStore {
    /// The store's invariant: the consumed set is well formed.
    pub closed spec fn wf(&self) -> bool {
        self.consumed.wf()
    }

    /// New empty store.
    pub fn new() -> (s: Self)
        ensures
            s.wf(),
            s@ == Set::<Seq<u8>>::empty(),
    {
        InstallRecordReplayStore { consumed: DigestSet::new() }
    }

    /// Check-and-record in one step: `Ok(())` and the hash recorded when
    /// it was not consumed before; otherwise
    /// `Err(PluginInstallRecordAlreadyApplied)` with the store unchanged.
    pub fn record_and_check(&mut self, signing_payload_hash: [u8; 32]) -> (r: Result<(), ErrorCode>)
        requires
            old(self).wf(),
        ensures
            final(self).wf(),
            r is Ok <==> !old(self)@.contains(signing_payload_hash@),
            r is Err ==> r == Err::<(), ErrorCode>(ErrorCode::PluginInstallRecordAlreadyApplied),
            final(self)@ == old(self)@.insert(signing_payload_hash@),
    {
        if self.consumed.contains(&signing_payload_hash) {
            assert(self@.insert(signing_payload_hash@) =~= self@);
            return Err(ErrorCode::PluginInstallRecordAlreadyApplied);
        }
        self.consumed.insert(signing_payload_hash);
        Ok(())
    }

    /// How many payload hashes have been consumed.
    pub fn consumed_count(&self) -> (n: usize)
        requires
            self.wf(),
        ensures
            self@.finite(),
            n == self@.len(),
    {
        proof {
            self.consumed.lemma_len_is_cardinality();
        }
        self.consumed.len()
    }

    /// Whether the given payload hash has been consumed.
    pub fn contains(&self, signing_payload_hash: &[u8; 32]) -> (r: bool)
        ensures
            r == self@.contains(signing_payload_hash@),
    {
        self.consumed.contains(signing_payload_hash)
    }
}

/// Replay law: once a payload hash has been recorded, presenting it again
/// is rejected and leaves the store unchanged; a fresh hash is admitted.
pub proof fn lemma_second_presentation_rejected(before: Set<Seq<u8>>, h: Seq<u8>)
    ensures
        before.insert(h).contains(h),
        before.insert(h).insert(h) == before.insert(h),
{
    assert(before.insert(h).insert(h) =~= before.insert(h));
}

/// The canonical identity hash of an install record's signing-payload
/// bytes: BLAKE3 over the payload.
pub fn signing_payload_hash(payload: &[u8]) -> (h: [u8; 32])
    ensures
        h@ == blake3_digest(payload@),
{
    blake3_hash(payload)
}

} // verus!
