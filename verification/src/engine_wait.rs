//! Handler identifiers accepted by the call surfaces, and the
//! historical-policy-metadata hint threaded from a suspended execution to
//! the capability policy consulted at resume.
//!
//! The hint lives in a slot owned by the resuming context. A resume drains
//! the slot when it starts (a stale hint left by an earlier resume cannot
//! leak forward) and again when it finishes (the slot is empty afterwards
//! whether or not the policy consumed the hint).

use vstd::prelude::*;
use vstd::string::StringExecFns;

verus! {

/// A value that names a registered handler.
pub trait HandlerRef {
    /// The handler-table key this value names.
    spec fn handler_key(&self) -> Seq<char>;

    /// Lower the value to the canonical handler-table key.
    fn as_handler_key(&self) -> (k: String)
        ensures
            k@ == self.handler_key(),
    ;
}

impl<'a> HandlerRef for &'a str {
    open spec fn handler_key(&self) -> Seq<char> {
        (*self)@
    }

    fn as_handler_key(&self) -> (k: String) {
        String::from_str(*self)
    }
}

impl<'a> HandlerRef for &'a String {
    open spec fn handler_key(&self) -> Seq<char> {
        (*self)@
    }

    fn as_handler_key(&self) -> (k: String) {
        (*self).clone()
    }
}

impl HandlerRef for String {
    open spec fn handler_key(&self) -> Seq<char> {
        self@
    }

    fn as_handler_key(&self) -> (k: String) {
        self.clone()
    }
}

/// The slot holding the historical policy-metadata blob captured at
/// suspend time, for the policy consulted at resume.
#[derive(Debug)]
pub struct HistoricalPolicyMetadataHint {
    hint: Option<Vec<u8>>,
}

impl HistoricalPolicyMetadataHint {
    /// The blob held, if any.
    pub closed spec fn held(&self) -> Option<Seq<u8>> {
        match self.hint {
            Some(v) => Some(v@),
            None => None,
        }
    }

    /// An empty slot.
    pub fn new() -> (s: Self)
        ensures
            s.held() is None,
    {
        HistoricalPolicyMetadataHint { hint: None }
    }

    /// Thread a blob to the resume-time policy.
    pub fn set(&mut self, blob: Vec<u8>)
        ensures
            final(self).held() == Some(blob@),
    {
        self.hint = Some(blob);
    }

    /// Whether the slot holds a blob.
    pub fn is_set(&self) -> (r: bool)
        ensures
            r == self.held() is Some,
    {
        self.hint.is_some()
    }
}

/// Read and clear the hint: the blob the slot held (if any); the slot is
/// empty afterwards.
pub fn historical_policy_metadata_hint(slot: &mut HistoricalPolicyMetadataHint) -> (r: Option<
    Vec<u8>,
>)
    ensures
        match r {
            Some(v) => old(slot).held() == Some(v@),
            None => old(slot).held() is None,
        },
        final(slot).held() is None,
{
    let r = slot.hint.take();
    r
}

/// The drain guard of one resume: it empties the hint slot when the
/// resume starts and again when it finishes.
#[derive(Debug)]
pub struct HistoricalPolicyMetadataHintGuard {
    finished: bool,
}

impl HistoricalPolicyMetadataHintGuard {
    /// Start a resume: empty the slot and return the guard.
    pub fn drain_on_entry_and_exit(slot: &mut HistoricalPolicyMetadataHint) -> (g: Self)
        ensures
            final(slot).held() is None,
    {
        slot.hint = None;
        HistoricalPolicyMetadataHintGuard { finished: false }
    }

    /// Finish the resume: empty the slot, whatever the policy consumed.
    pub fn finish(self, slot: &mut HistoricalPolicyMetadataHint)
        ensures
            final(slot).held() is None,
    {
        slot.hint = None;
    }
}

} // verus!
