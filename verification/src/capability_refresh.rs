//! The capability re-check cadence of an in-flight call: at each iterate
//! batch boundary the call's iteration count grows by one; the policy
//! re-check is due at the first boundary and then whenever the monotonic
//! clock has advanced by at least [`WALLCLOCK_REFRESH_CEILING_NANOS`] since
//! the last one; a revocation scheduled for an iteration the call has
//! passed refuses the boundary.

use vstd::prelude::*;

verus! {

/// Monotonic interval (five minutes, in nanoseconds) after which a batch
/// boundary re-checks the capability policy.
pub const WALLCLOCK_REFRESH_CEILING_NANOS: u128 = 300_000_000_000;

/// The per-call state a batch boundary reads and advances.
#[derive(Debug, Clone, Copy, PartialEq, Eq, Structural)]
pub struct CallFrame {
    /// Boundaries passed so far.
    pub iteration: u64,
    /// Monotonic time (nanoseconds since the call started) of the last
    /// policy re-check, if any.
    pub last_refresh_nanos: Option<u128>,
}

/// What a batch boundary decided.
#[derive(Debug, Clone, Copy, PartialEq, Eq, Structural)]
pub struct BoundaryVerdict {
    /// The call's iteration count after this boundary (0 without a call).
    pub iteration: u64,
    /// Whether the policy re-check was due at this boundary.
    pub refresh_due: bool,
    /// Whether a scheduled revocation has come due (the capability check
    /// then fails as revoked mid-evaluation).
    pub revocation_due: bool,
}

impl CallFrame {
    /// A fresh call: no boundary passed, no re-check yet.
    pub fn new() -> (f: Self)
        ensures
            f.iteration == 0,
            f.last_refresh_nanos is None,
    {
        CallFrame { iteration: 0, last_refresh_nanos: None }
    }
}

/// Whether some scheduled target iteration is below `iteration`.
pub open spec fn revocation_due_spec(targets: Seq<u64>, iteration: u64) -> bool {
    exists|i: int| 0 <= i < targets.len() && iteration > #[trigger] targets[i]
}

/// Whether the re-check is due at monotonic time `elapsed` after the last
/// one at `last`.
pub open spec fn refresh_due_spec(last: Option<u128>, elapsed: u128) -> bool {
    match last {
        None => true,
        Some(l) => (if elapsed >= l {
            elapsed - l
        } else {
            0
        }) >= WALLCLOCK_REFRESH_CEILING_NANOS,
    }
}

/// Pass one batch boundary of the in-flight call `frame` (`None`: no call
/// in flight) at monotonic time `elapsed_nanos`, against the scheduled
/// revocation target iterations.
pub fn batch_boundary(
    frame: &mut Option<CallFrame>,
    elapsed_nanos: u128,
    revocation_targets: &Vec<u64>,
) -> (v: BoundaryVerdict)
    ensures
        match *old(frame) {
            None => *final(frame) is None && v == BoundaryVerdict {
                iteration: 0,
                refresh_due: false,
                revocation_due: false,
            },
            Some(f) => {
                let it = if f.iteration == u64::MAX {
                    u64::MAX
                } else {
                    (f.iteration + 1) as u64
                };
                let due = refresh_due_spec(f.last_refresh_nanos, elapsed_nanos);
                &&& v.iteration == it
                &&& v.refresh_due == due
                &&& v.revocation_due == revocation_due_spec(revocation_targets@, it)
                &&& *final(frame) == Some(
                    CallFrame {
                        iteration: it,
                        last_refresh_nanos: if due {
                            Some(elapsed_nanos)
                        } else {
                            f.last_refresh_nanos
                        },
                    },
                )
            },
        },
{
    let mut f = match *frame {
        None => {
            return BoundaryVerdict { iteration: 0, refresh_due: false, revocation_due: false };
        },
        Some(f) => f,
    };
    f.iteration = f.iteration.saturating_add(1);
    let due = match f.last_refresh_nanos {
        None => true,
        Some(last) => elapsed_nanos.saturating_sub(last) >= WALLCLOCK_REFRESH_CEILING_NANOS,
    };
    if due {
        f.last_refresh_nanos = Some(elapsed_nanos);
    }
    let n = revocation_targets.len();
    let mut i: usize = 0;
    let mut revocation_due = false;
    while i < n
        invariant
            n == revocation_targets@.len(),
            i <= n,
            revocation_due == exists|j: int|
                0 <= j < i && f.iteration > #[trigger] revocation_targets@[j],
        decreases n - i,
    {
        if f.iteration > revocation_targets[i] {
            revocation_due = true;
        }
        i += 1;
    }
    *frame = Some(f);
    BoundaryVerdict { iteration: f.iteration, refresh_due: due, revocation_due }
}

} // verus!
