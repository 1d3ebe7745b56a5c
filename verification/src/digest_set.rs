//! A finite set of 32-byte digests (nonces, key ids, content hashes),
//! kept as a duplicate-free vector.

use vstd::prelude::*;

use crate::bytes::bytes32_eq;

verus! {

/// A finite set of 32-byte digests. Invariant ([`DigestSet::wf`]): no
/// digest occurs twice.
///
/// vstd's `HashMap` / `HashSet` specifications hold only for key types
/// whose key model it proves (the primitive integers and `bool`), so the
/// entries are held in a `Vec` with the invariant stated here.
#[derive(Clone, Debug, Default)]
pub struct DigestSet {
    items: Vec<[u8; 32]>,
}

impl View for DigestSet {
    type V = Set<Seq<u8>>;

    closed spec fn view(&self) -> Set<Seq<u8>> {
        self.digests().to_set()
    }
}

impl DigestSet {
    /// The members, in insertion order.
    pub closed spec fn digests(&self) -> Seq<Seq<u8>> {
        self.items@.map_values(|a: [u8; 32]| a@)
    }

    /// No digest occurs twice.
    pub closed spec fn wf(&self) -> bool {
        self.digests().no_duplicates()
    }

    /// The number of digests held.
    pub closed spec fn spec_len(&self) -> nat {
        self.items@.len()
    }

    /// A well-formed set holds finitely many digests, as many as its
    /// length, and each of them is 32 bytes long.
    pub proof fn lemma_len_is_cardinality(&self)
        requires
            self.wf(),
        ensures
            self@.finite(),
            self@.len() == self.spec_len(),
            forall|d: Seq<u8>| #[trigger] self@.contains(d) ==> d.len() == 32,
    {
        self.digests().unique_seq_to_set();
        assert forall|d: Seq<u8>| #[trigger] self@.contains(d) implies d.len() == 32 by {
            let i = choose|i: int| 0 <= i < self.digests().len() && self.digests()[i] == d;
            assert(self.items@[i]@.len() == 32);
        }
    }

    /// An empty set.
    pub fn new() -> (s: Self)
        ensures
            s.wf(),
            s@ == Set::<Seq<u8>>::empty(),
            s.spec_len() == 0,
    {
        let s = DigestSet { items: Vec::new() };
        assert(s@ =~= Set::<Seq<u8>>::empty());
        s
    }

    /// Whether `d` is a member.
    pub fn contains(&self, d: &[u8; 32]) -> (r: bool)
        ensures
            r == self@.contains(d@),
    {
        let n = self.items.len();
        let mut i: usize = 0;
        while i < n
            invariant
                n == self.items@.len(),
                i <= n,
                forall|j: int| 0 <= j < i ==> self.items@[j]@ != d@,
            decreases n - i,
        {
            if bytes32_eq(&self.items[i], d) {
                assert(self.digests()[i as int] == d@);
                return true;
            }
            i += 1;
        }
        assert(!self.digests().contains(d@));
        false
    }

    /// Insert `d`; returns whether it was absent. The set afterwards is the
    /// old set plus `d`, one longer exactly when `d` was absent.
    pub fn insert(&mut self, d: [u8; 32]) -> (added: bool)
        requires
            old(self).wf(),
        ensures
            final(self).wf(),
            added == !old(self)@.contains(d@),
            final(self)@ == old(self)@.insert(d@),
            final(self).spec_len() == old(self).spec_len() + if added {
                1nat
            } else {
                0nat
            },
    {
        if self.contains(&d) {
            assert(self@.insert(d@) =~= self@);
            return false;
        }
        let ghost before = self.digests();
        self.items.push(d);
        assert(self.digests() =~= before + seq![d@]);
        proof {
            Seq::<Seq<u8>>::lemma_to_set_insert_commutes(before, d@);
        }
        true
    }

    /// The number of digests in the set.
    pub fn len(&self) -> (n: usize)
        ensures
            n == self.spec_len(),
    {
        self.items.len()
    }
}

} // verus!
