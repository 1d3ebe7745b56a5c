//! Materialization-time per-row READ gate for IVM-materialized views.
//!
//! When a view is read, every row in the materialised list is rechecked
//! against the actor's capability set before it is yielded; a row the
//! actor cannot READ does not appear. The recheck itself is the
//! engine's capability-recheck seam ([`CapRecheck`]), threaded with the
//! actor principal, the view's label hint and the row's CID.

use vstd::prelude::*;

use crate::cid::Cid;

verus! {

/// The principal (actor) a read is performed for, identified by its actor
/// CID.
#[derive(Clone, Copy, Debug, PartialEq, Eq, Hash, PartialOrd, Ord)]
pub struct PrincipalId {
    /// The actor's CID.
    pub actor: Cid,
}

impl PrincipalId {
    /// The principal identified by `actor`.
    pub fn from_actor_cid(actor: Cid) -> (p: PrincipalId)
        ensures
            p.actor == actor,
    {
        PrincipalId { actor }
    }
}

/// The capability-recheck seam: whether `principal` may READ the row
/// `row_cid` under `label_hint`. Implementations answer deterministically
/// by [`CapRecheck::permits`].
pub trait CapRecheck {
    /// The policy the recheck implements.
    spec fn permits(&self, principal: PrincipalId, label_hint: String, row_cid: Cid) -> bool;

    /// Recheck one row.
    fn recheck(&self, principal: &PrincipalId, label_hint: &String, row_cid: &Cid) -> (r: bool)
        ensures
            r == self.permits(*principal, *label_hint, *row_cid),
    ;
}

/// The default posture (no capability policy configured): every row is
/// permitted.
#[derive(Clone, Copy, Debug, Default)]
pub struct AllowAll;

impl CapRecheck for AllowAll {
    open spec fn permits(&self, principal: PrincipalId, label_hint: String, row_cid: Cid) -> bool {
        true
    }

    fn recheck(&self, principal: &PrincipalId, label_hint: &String, row_cid: &Cid) -> (r: bool) {
        true
    }
}

/// The closed posture: no row is permitted.
#[derive(Clone, Copy, Debug, Default)]
pub struct DenyAll;

impl CapRecheck for DenyAll {
    open spec fn permits(&self, principal: PrincipalId, label_hint: String, row_cid: Cid) -> bool {
        false
    }

    fn recheck(&self, principal: &PrincipalId, label_hint: &String, row_cid: &Cid) -> (r: bool) {
        false
    }
}

/// The rows of `rows` that `gate` admits, in order.
pub open spec fn admitted_rows<C: CapRecheck>(
    cap: C,
    principal: PrincipalId,
    label_hint: String,
    rows: Seq<Cid>,
) -> Seq<Cid>
    decreases rows.len(),
{
    if rows.len() == 0 {
        Seq::empty()
    } else {
        let front = admitted_rows(cap, principal, label_hint, rows.drop_last());
        if cap.permits(principal, label_hint, rows.last()) {
            front.push(rows.last())
        } else {
            front
        }
    }
}

/// Per-row READ gate fired at IVM-view materialization time, for one
/// actor and one view label hint.
#[derive(Clone, Debug)]
pub struct IvmViewReadGate<C: CapRecheck> {
    principal: PrincipalId,
    label_hint: String,
    cap_recheck: C,
}

impl<C: CapRecheck> IvmViewReadGate<C> {
    /// The principal whose rows are filtered.
    pub closed spec fn spec_principal(&self) -> PrincipalId {
        self.principal
    }

    /// The view label hint handed to each recheck.
    pub closed spec fn spec_label_hint(&self) -> String {
        self.label_hint
    }

    /// The capability recheck consulted per row.
    pub closed spec fn spec_cap_recheck(&self) -> C {
        self.cap_recheck
    }

    /// Construct a per-row READ gate for `principal` and view `label_hint`.
    pub fn new(principal: PrincipalId, label_hint: &str, cap_recheck: C) -> (g: Self)
        ensures
            g.spec_principal() == principal,
            g.spec_label_hint()@ == label_hint@,
            g.spec_cap_recheck() == cap_recheck,
    {
        IvmViewReadGate { principal, label_hint: label_hint.to_owned(), cap_recheck }
    }

    /// Whether the row `row_cid` is admitted into the materialised list.
    pub fn admits(&self, row_cid: &Cid) -> (r: bool)
        ensures
            r == self.spec_cap_recheck().permits(
                self.spec_principal(),
                self.spec_label_hint(),
                *row_cid,
            ),
    {
        self.cap_recheck.recheck(&self.principal, &self.label_hint, row_cid)
    }

    /// Filter `rows`, keeping exactly the admitted rows, in order.
    pub fn filter_rows(&self, rows: Vec<Cid>) -> (out: Vec<Cid>)
        ensures
            out@ == admitted_rows(
                self.spec_cap_recheck(),
                self.spec_principal(),
                self.spec_label_hint(),
                rows@,
            ),
    {
        let mut out: Vec<Cid> = Vec::new();
        let n = rows.len();
        let mut i: usize = 0;
        while i < n
            invariant
                n == rows@.len(),
                i <= n,
                out@ == admitted_rows(
                    self.spec_cap_recheck(),
                    self.spec_principal(),
                    self.spec_label_hint(),
                    rows@.subrange(0, i as int),
                ),
            decreases n - i,
        {
            let row = rows[i];
            assert(rows@.subrange(0, i + 1).drop_last() =~= rows@.subrange(0, i as int));
            if self.admits(&row) {
                out.push(row);
            }
            i += 1;
        }
        assert(rows@.subrange(0, n as int) =~= rows@);
        out
    }

    /// The actor principal this gate filters for.
    pub fn principal(&self) -> (p: &PrincipalId)
        ensures
            *p == self.spec_principal(),
    {
        &self.principal
    }

    /// The label hint this gate composes against.
    pub fn label_hint(&self) -> (s: &str)
        ensures
            s@ == self.spec_label_hint()@,
    {
        self.label_hint.as_str()
    }
}

impl IvmViewReadGate<AllowAll> {
    /// The default no-policy posture: every row is admitted.
    pub fn allow_all_for(principal: PrincipalId, label_hint: &str) -> (g: Self)
        ensures
            g.spec_principal() == principal,
            g.spec_label_hint()@ == label_hint@,
    {
        Self::new(principal, label_hint, AllowAll)
    }
}

/// Under the allow-all posture every row is admitted; under deny-all none
/// is; and in general the admitted rows are exactly the permitted ones, in
/// order (never more, never fewer).
pub proof fn lemma_admitted_rows_bounds<C: CapRecheck>(
    cap: C,
    principal: PrincipalId,
    label_hint: String,
    rows: Seq<Cid>,
)
    ensures
        admitted_rows(AllowAll, principal, label_hint, rows) == rows,
        admitted_rows(DenyAll, principal, label_hint, rows) == Seq::<Cid>::empty(),
        admitted_rows(cap, principal, label_hint, rows).len() <= rows.len(),
        forall|k: int|
            0 <= k < admitted_rows(cap, principal, label_hint, rows).len() ==> cap.permits(
                principal,
                label_hint,
                #[trigger] admitted_rows(cap, principal, label_hint, rows)[k],
            ) && rows.contains(admitted_rows(cap, principal, label_hint, rows)[k]),
    decreases rows.len(),
{
    if rows.len() > 0 {
        lemma_admitted_rows_bounds(cap, principal, label_hint, rows.drop_last());
        assert(rows.drop_last().push(rows.last()) =~= rows);
        let front = admitted_rows(cap, principal, label_hint, rows.drop_last());
        assert forall|k: int| 0 <= k < front.len() implies rows.contains(#[trigger] front[k]) by {
            let j = choose|j: int| 0 <= j < rows.drop_last().len() && rows.drop_last()[j] == front[k];
            assert(rows[j] == front[k]);
        }
        assert(rows[rows.len() - 1] == rows.last());
    } else {
        assert(rows =~= Seq::<Cid>::empty());
    }
}

} // verus!
