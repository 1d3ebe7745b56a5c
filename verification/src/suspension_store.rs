//! Key layout and retention rule of the suspension store.
//!
//! Every record kind lives under its own three-byte prefix followed by the
//! binary CID it is keyed by, so keys of different kinds never collide and
//! a key determines its CID. A subscription cursor is exhausted once it is
//! older than the configured retention window; a zero window exhausts every
//! cursor.

use vstd::prelude::*;

use crate::cid::{Cid, CID_VERSION, CODEC_DAG_CBOR, DIGEST_LEN, MULTIHASH_BLAKE3};
use crate::bytes::push_bytes;

verus! {

/// Prefix of WAIT-metadata records (`sw:`).
pub const WAIT_PREFIX: [u8; 3] = [115, 119, 58];

/// Prefix of execution-state envelope records (`se:`).
pub const ENVELOPE_PREFIX: [u8; 3] = [115, 101, 58];

/// Prefix of subscription-cursor records (`sc:`).
pub const CURSOR_PREFIX: [u8; 3] = [115, 99, 58];

/// Prefix of subscription-cursor metadata records (`sm:`).
pub const CURSOR_META_PREFIX: [u8; 3] = [115, 109, 58];

/// Prefix of capability-snapshot records (`sx:`).
pub const CAP_SNAPSHOT_PREFIX: [u8; 3] = [115, 120, 58];

/// The kinds of suspension-store records.
#[derive(Debug, Clone, Copy, PartialEq, Eq, Structural)]
pub enum RecordKind {
    /// WAIT metadata, keyed by the state CID.
    Wait,
    /// Execution-state envelope, keyed by the state CID.
    Envelope,
    /// Subscription cursor, keyed by the subscriber CID.
    Cursor,
    /// Subscription-cursor metadata, keyed by the subscriber CID.
    CursorMeta,
    /// Capability snapshot, keyed by the envelope CID.
    CapSnapshot,
}

/// The prefix of each record kind.
pub open spec fn prefix_of(kind: RecordKind) -> Seq<u8> {
    match kind {
        RecordKind::Wait => WAIT_PREFIX@,
        RecordKind::Envelope => ENVELOPE_PREFIX@,
        RecordKind::Cursor => CURSOR_PREFIX@,
        RecordKind::CursorMeta => CURSOR_META_PREFIX@,
        RecordKind::CapSnapshot => CAP_SNAPSHOT_PREFIX@,
    }
}

/// The binary bytes of a CID.
pub open spec fn cid_bytes(c: Cid) -> Seq<u8> {
    seq![CID_VERSION, CODEC_DAG_CBOR, MULTIHASH_BLAKE3, DIGEST_LEN] + c.digest@
}

/// The key of the record of `kind` for `cid`.
pub open spec fn record_key_spec(kind: RecordKind, cid: Cid) -> Seq<u8> {
    prefix_of(kind) + cid_bytes(cid)
}

/// The storage key of the record of `kind` for `cid`: the kind's prefix,
/// then the CID's binary bytes.
pub fn record_key(kind: RecordKind, cid: &Cid) -> (k: Vec<u8>)
    ensures
        k@ == record_key_spec(kind, *cid),
{
    let prefix = match kind {
        RecordKind::Wait => WAIT_PREFIX,
        RecordKind::Envelope => ENVELOPE_PREFIX,
        RecordKind::Cursor => CURSOR_PREFIX,
        RecordKind::CursorMeta => CURSOR_META_PREFIX,
        RecordKind::CapSnapshot => CAP_SNAPSHOT_PREFIX,
    };
    let mut k: Vec<u8> = Vec::new();
    push_bytes(&mut k, &prefix);
    let b = cid.to_bytes();
    push_bytes(&mut k, b.as_slice());
    k
}

/// Keys never collide: two records share a key only when they are of the
/// same kind and for the same CID.
pub proof fn lemma_record_keys_injective(k1: RecordKind, c1: Cid, k2: RecordKind, c2: Cid)
    requires
        record_key_spec(k1, c1) == record_key_spec(k2, c2),
    ensures
        k1 == k2,
        c1 == c2,
{
    let a = record_key_spec(k1, c1);
    let b = record_key_spec(k2, c2);
    assert(a[1] == prefix_of(k1)[1]);
    assert(b[1] == prefix_of(k2)[1]);
    assert(k1 == k2);
    assert(c1.digest@ =~= a.subrange(7, 39));
    assert(c2.digest@ =~= b.subrange(7, 39));
    assert(c1.digest@ == c2.digest@);
    assert(c1.digest == c2.digest);
}

/// Whether a subscription cursor registered at `registered_at` (Unix
/// seconds; absent when its metadata is missing) is exhausted at `now`
/// under a retention window of `window_ms` milliseconds (absent when none
/// is configured).
pub open spec fn retention_exhausted_spec(
    window_ms: Option<u64>,
    registered_at: Option<u64>,
    now: u64,
) -> bool {
    match window_ms {
        None => false,
        Some(w) => match registered_at {
            None => false,
            Some(r) => if w / 1000 == 0 {
                true
            } else if r == 0 {
                false
            } else {
                (if now >= r {
                    now - r
                } else {
                    0
                }) > w / 1000
            },
        },
    }
}

/// Decide whether a subscription cursor is exhausted: never without a
/// configured window or without cursor metadata (read failures count as
/// absent); always under a window of less than a second; never for a
/// cursor with no registration time; otherwise once its age exceeds the
/// window's whole seconds.
pub fn is_retention_exhausted(window_ms: Option<u64>, registered_at: Option<u64>, now: u64) -> (r:
    bool)
    ensures
        r == retention_exhausted_spec(window_ms, registered_at, now),
{
    let w = match window_ms {
        None => {
            return false;
        },
        Some(w) => w,
    };
    let registered = match registered_at {
        None => {
            return false;
        },
        Some(r) => r,
    };
    let window_secs = w / 1000;
    if window_secs == 0 {
        return true;
    }
    if registered == 0 {
        return false;
    }
    now.saturating_sub(registered) > window_secs
}

} // verus!
