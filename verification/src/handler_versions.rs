//! Durable handler-version chains: the entry persisted for each
//! registration of a handler's subgraph, the newest-first chain rebuilt
//! from the stored entries, and the chain's view with its anchor.

use vstd::prelude::*;
use vstd::string::StringExecFns;

use crate::cid::Cid;
use crate::property::PropertyValue;
use crate::text::str_eq;

verus! {

broadcast use vstd::seq_lib::group_to_multiset_ensures;

/// Label of the durable handler-version entries.
pub const HANDLER_VERSION_LABEL: &'static str = "system:HandlerVersion";

/// Property carrying the handler id.
pub const HANDLER_ID_PROPERTY: &'static str = "handler_id";

/// Property carrying the registered subgraph CID.
pub const VERSION_CID_PROPERTY: &'static str = "version_cid";

/// Property carrying the predecessor CID; absent on a first registration.
pub const PREDECESSOR_CID_PROPERTY: &'static str = "predecessor_cid";

/// Property carrying the per-handler insertion sequence.
pub const SEQUENCE_PROPERTY: &'static str = "seq";

/// A handler's version chain: newest first, with the anchor rooted at the
/// first registered version.
#[derive(Debug, Clone)]
pub struct HandlerVersionChain {
    /// The head of the chain's anchor (its root version), if any.
    pub anchor: Option<Cid>,
    /// Newest-first list of registered version CIDs.
    pub versions: Vec<Cid>,
}

impl HandlerVersionChain {
    /// The most recently registered version, `None` for an empty chain.
    pub fn current_version_cid(&self) -> (r: Option<Cid>)
        ensures
            r == (if self.versions@.len() > 0 {
                Some(self.versions@[0])
            } else {
                None::<Cid>
            }),
    {
        if self.versions.len() > 0 {
            Some(self.versions[0])
        } else {
            None
        }
    }

    /// The head of the chain's anchor, if any.
    pub fn anchor_cid(&self) -> (r: Option<Cid>)
        ensures
            r == self.anchor,
    {
        self.anchor
    }

    /// Newest-first list of all registered versions.
    pub fn versions(&self) -> (r: &[Cid])
        ensures
            r@ == self.versions@,
    {
        self.versions.as_slice()
    }

    /// `cid` when the chain holds it, else `None`.
    pub fn fetch_version(&self, cid: &Cid) -> (r: Option<Cid>)
        ensures
            r == (if self.versions@.contains(*cid) {
                Some(*cid)
            } else {
                None::<Cid>
            }),
    {
        let mut i: usize = 0;
        while i < self.versions.len()
            invariant
                i <= self.versions.len(),
                forall|j: int| 0 <= j < i ==> self.versions@[j] != *cid,
            decreases self.versions.len() - i,
        {
            if self.versions[i].same_as(cid) {
                return Some(self.versions[i]);
            }
            i += 1;
        }
        None
    }
}

/// The chain view of a handler's newest-first versions: `None` when there
/// are none; else the anchor is rooted at the oldest version.
pub fn handler_version_chain_with_anchor(versions: Vec<Cid>) -> (r: Option<HandlerVersionChain>)
    ensures
        versions@.len() == 0 ==> r is None,
        versions@.len() > 0 ==> (r matches Some(c) && c.versions@ == versions@ && c.anchor == Some(
            versions@.last(),
        )),
{
    if versions.len() == 0 {
        return None;
    }
    let root = versions[versions.len() - 1];
    Some(HandlerVersionChain { anchor: Some(root), versions })
}

/// The entry persisted for one registration of a handler's subgraph.
#[derive(Debug, Clone)]
pub struct VersionNode {
    /// The handler id.
    pub handler_id: String,
    /// The registered subgraph's CID.
    pub version_cid: Cid,
    /// The previously current CID; absent on a first registration.
    pub predecessor_cid: Option<Cid>,
    /// The per-handler insertion sequence, saturated at `i64::MAX`.
    pub seq: i64,
}

/// The entry for registering `version_cid` as version `seq` of
/// `handler_id`, after `predecessor_cid`.
pub fn make_version_node(
    handler_id: &str,
    version_cid: &Cid,
    predecessor_cid: Option<&Cid>,
    seq: u64,
) -> (n: VersionNode)
    ensures
        n.handler_id@ == handler_id@,
        n.version_cid == *version_cid,
        n.predecessor_cid == (match predecessor_cid {
            Some(p) => Some(*p),
            None => None::<Cid>,
        }),
        n.seq == (if seq <= i64::MAX as u64 {
            seq as i64
        } else {
            i64::MAX
        }),
{
    let seq_signed: i64 = if seq <= 0x7fff_ffff_ffff_ffffu64 {
        seq as i64
    } else {
        i64::MAX
    };
    let predecessor = match predecessor_cid {
        Some(p) => Some(*p),
        None => None,
    };
    VersionNode {
        handler_id: String::from_str(handler_id),
        version_cid: *version_cid,
        predecessor_cid: predecessor,
        seq: seq_signed,
    }
}

/// A stored handler-version entry as the rebuild reads it: its
/// `handler_id` and `seq` properties, and its `version_cid` property
/// parsed (`None` when absent, not text, or not a CID).
#[derive(Debug)]
pub struct StoredVersionNode {
    /// The `handler_id` property.
    pub handler_id: Option<PropertyValue>,
    /// The parsed `version_cid` property.
    pub version_cid: Option<Cid>,
    /// The `seq` property.
    pub seq: Option<PropertyValue>,
}

/// The `(handler id, seq, version)` a stored entry contributes to the
/// rebuild, `None` for an entry it skips: one without a text handler id,
/// a version CID, or a non-negative integer `seq`.
pub open spec fn decoded_entry(n: StoredVersionNode) -> Option<(Seq<char>, u64, Cid)> {
    match n.handler_id {
        Some(PropertyValue::Text(h)) => match n.version_cid {
            Some(c) => match n.seq {
                Some(PropertyValue::Int(s)) => if s >= 0 {
                    Some((h@, s as u64, c))
                } else {
                    None
                },
                _ => None,
            },
            None => None,
        },
        _ => None,
    }
}

/// Decode a stored entry for the rebuild.
pub fn decode_version_entry(n: &StoredVersionNode) -> (r: Option<(String, u64, Cid)>)
    ensures
        match r {
            Some(e) => decoded_entry(*n) == Some((e.0@, e.1, e.2)),
            None => decoded_entry(*n) is None,
        },
{
    match &n.handler_id {
        Some(PropertyValue::Text(h)) => match &n.version_cid {
            Some(c) => match &n.seq {
                Some(PropertyValue::Int(s)) => {
                    if *s >= 0 {
                        Some((h.clone(), *s as u64, *c))
                    } else {
                        None
                    }
                },
                _ => None,
            },
            None => None,
        },
        _ => None,
    }
}

/// The `(seq, version)` entries the stored entries hold for handler `h`,
/// in store order.
pub open spec fn handler_entries(nodes: Seq<StoredVersionNode>, h: Seq<char>) -> Seq<(u64, Cid)>
    decreases nodes.len(),
{
    if nodes.len() == 0 {
        Seq::empty()
    } else {
        let prev = handler_entries(nodes.drop_last(), h);
        match decoded_entry(nodes.last()) {
            Some(e) => if e.0 == h {
                prev.push((e.1, e.2))
            } else {
                prev
            },
            None => prev,
        }
    }
}

/// The handler id a stored entry contributes, if it is not skipped.
pub open spec fn decoded_handler(n: StoredVersionNode) -> Option<Seq<char>> {
    match decoded_entry(n) {
        Some(e) => Some(e.0),
        None => None,
    }
}

/// Whether some stored entry contributes to handler `h`'s chain.
pub open spec fn has_entries(nodes: Seq<StoredVersionNode>, h: Seq<char>) -> bool {
    exists|j: int| 0 <= j < nodes.len() && #[trigger] decoded_handler(nodes[j]) == Some(h)
}

/// Rebuild handler `handler_id`'s newest-first chain from the stored
/// entries.
pub fn rehydrate_handler_chain(nodes: &Vec<StoredVersionNode>, handler_id: &str) -> (r: Vec<Cid>)
    ensures
        r@ == rebuilt_chain(handler_entries(nodes@, handler_id@)),
{
    let mut entries: Vec<(u64, Cid)> = Vec::new();
    let mut i: usize = 0;
    while i < nodes.len()
        invariant
            i <= nodes.len(),
            entries@ == handler_entries(nodes@.take(i as int), handler_id@),
        decreases nodes.len() - i,
    {
        assert(nodes@.take(i + 1).drop_last() =~= nodes@.take(i as int));
        match decode_version_entry(&nodes[i]) {
            Some(e) => {
                if str_eq(e.0.as_str(), handler_id) {
                    entries.push((e.1, e.2));
                }
            },
            None => {},
        }
        i += 1;
    }
    assert(nodes@.take(nodes.len() as int) =~= nodes@);
    rebuild_chain(&entries)
}

/// Rebuild every handler's chain from the stored entries: one pair per
/// handler with at least one entry, holding its newest-first chain. The
/// number of pairs is the number of chains rebuilt.
pub fn rehydrate_handler_version_chains(nodes: &Vec<StoredVersionNode>) -> (r: Vec<(String, Vec<Cid>)>)
    ensures
        forall|a: int, b: int| 0 <= a < b < r@.len() ==> (#[trigger] r@[a]).0@ != (#[trigger] r@[b]).0@,
        forall|a: int| 0 <= a < r@.len() ==> has_entries(nodes@, (#[trigger] r@[a]).0@) && r@[a].1@
            == rebuilt_chain(handler_entries(nodes@, r@[a].0@)),
        forall|h: Seq<char>| has_entries(nodes@, h) ==> exists|a: int| 0 <= a < r@.len() && (#[trigger] r@[a]).0@ == h,
{
    let mut ids: Vec<String> = Vec::new();
    let mut i: usize = 0;
    while i < nodes.len()
        invariant
            i <= nodes.len(),
            forall|a: int, b: int| 0 <= a < b < ids@.len() ==> (#[trigger] ids@[a])@ != (#[trigger] ids@[b])@,
            forall|a: int| 0 <= a < ids@.len() ==> has_entries(nodes@, (#[trigger] ids@[a])@),
            forall|j: int| 0 <= j < i && (#[trigger] decoded_handler(nodes@[j])) is Some ==> exists|a: int| 0 <= a < ids@.len() && (#[trigger] ids@[a])@ == decoded_handler(nodes@[j])->0,
        decreases nodes.len() - i,
    {
        match decode_version_entry(&nodes[i]) {
            Some(e) => {
                let mut k: usize = 0;
                let mut seen = false;
                while k < ids.len()
                    invariant
                        k <= ids.len(),
                        seen ==> exists|a: int| 0 <= a < ids@.len() && (#[trigger] ids@[a])@ == e.0@,
                        !seen ==> forall|a: int| 0 <= a < k ==> (#[trigger] ids@[a])@ != e.0@,
                    decreases ids.len() - k,
                {
                    if str_eq(ids[k].as_str(), e.0.as_str()) {
                        seen = true;
                    }
                    k += 1;
                }
                proof {
                    assert(decoded_handler(nodes@[i as int]) == Some(e.0@));
                }
                if !seen {
                    let ghost old_ids = ids@;
                    ids.push(e.0);
                    proof {
                        assert(ids@[old_ids.len() as int] == e.0);
                        assert forall|j: int| 0 <= j <= i && (#[trigger] decoded_handler(nodes@[j])) is Some implies exists|a: int| 0 <= a < ids@.len() && (#[trigger] ids@[a])@ == decoded_handler(nodes@[j])->0 by {
                            if j < i {
                                let h = decoded_handler(nodes@[j])->0;
                                let a = choose|a: int| 0 <= a < old_ids.len() && (#[trigger] old_ids[a])@ == h;
                                assert(ids@[a] == old_ids[a]);
                            } else {
                                assert(ids@[old_ids.len() as int]@ == e.0@);
                            }
                        }
                    }
                }
            },
            None => {},
        }
        i += 1;
    }
    let mut r: Vec<(String, Vec<Cid>)> = Vec::new();
    let mut a: usize = 0;
    while a < ids.len()
        invariant
            a <= ids.len(),
            r@.len() == a,
            forall|x: int| 0 <= x < a ==> (#[trigger] r@[x]).0@ == ids@[x]@ && r@[x].1@ == rebuilt_chain(handler_entries(nodes@, ids@[x]@)),
        decreases ids.len() - a,
    {
        let chain = rehydrate_handler_chain(nodes, ids[a].as_str());
        r.push((ids[a].clone(), chain));
        a += 1;
    }
    proof {
        assert forall|h: Seq<char>| has_entries(nodes@, h) implies exists|x: int| 0 <= x < r@.len() && (#[trigger] r@[x]).0@ == h by {
            let j = choose|j: int| 0 <= j < nodes@.len() && #[trigger] decoded_handler(nodes@[j]) == Some(h);
            let x = choose|x: int| 0 <= x < ids@.len() && (#[trigger] ids@[x])@ == h;
            assert(r@[x].0@ == ids@[x]@);
        }
    }
    r
}

/// The entries gathered for handler `h` are exactly those of the stored
/// entries whose decoded handler id equals `h`: each gathered entry is the
/// `(seq, version)` of such a stored entry, and each such stored entry is
/// gathered. Entries of another handler id (one that merely shares a
/// prefix with `h` included) are never gathered.
pub proof fn lemma_handler_entries_exact(nodes: Seq<StoredVersionNode>, h: Seq<char>)
    ensures
        forall|k: int| 0 <= k < handler_entries(nodes, h).len() ==> exists|j: int|
            0 <= j < nodes.len() && #[trigger] decoded_entry(nodes[j]) == Some(
                (h, (#[trigger] handler_entries(nodes, h)[k]).0, handler_entries(nodes, h)[k].1),
            ),
        forall|j: int|
            0 <= j < nodes.len() && (#[trigger] decoded_entry(nodes[j])) is Some && (decoded_entry(nodes[j])->0).0 == h
                ==> handler_entries(nodes, h).contains(((decoded_entry(nodes[j])->0).1, (decoded_entry(nodes[j])->0).2)),
    decreases nodes.len(),
{
    if nodes.len() > 0 {
        let init = nodes.drop_last();
        lemma_handler_entries_exact(init, h);
        let prev = handler_entries(init, h);
        let cur = handler_entries(nodes, h);
        assert forall|k: int| 0 <= k < cur.len() implies exists|j: int|
            0 <= j < nodes.len() && #[trigger] decoded_entry(nodes[j]) == Some(
                (h, (#[trigger] cur[k]).0, cur[k].1),
            ) by {
            if k < prev.len() {
                assert(cur[k] == prev[k]);
                let j = choose|j: int|
                    0 <= j < init.len() && #[trigger] decoded_entry(init[j]) == Some(
                        (h, (#[trigger] prev[k]).0, prev[k].1),
                    );
                assert(nodes[j] == init[j]);
            } else {
                assert(decoded_entry(nodes[nodes.len() - 1]) == Some((h, cur[k].0, cur[k].1)));
            }
        }
        assert forall|j: int|
            0 <= j < nodes.len() && (#[trigger] decoded_entry(nodes[j])) is Some && (decoded_entry(nodes[j])->0).0 == h
                implies cur.contains(((decoded_entry(nodes[j])->0).1, (decoded_entry(nodes[j])->0).2)) by {
            let e = decoded_entry(nodes[j])->0;
            if j < nodes.len() - 1 {
                assert(nodes[j] == init[j]);
                assert(prev.contains((e.1, e.2)));
                let q = choose|q: int| 0 <= q < prev.len() && prev[q] == (e.1, e.2);
                assert(cur[q] == prev[q]);
            } else {
                assert(cur[cur.len() - 1] == (e.1, e.2));
            }
        }
    }
}

/// Every version in handler `h`'s rebuilt chain is the version of a stored
/// entry whose decoded handler id equals `h`; so chains of different
/// handler ids never share a stored entry.
pub proof fn lemma_rebuilt_chain_of_handler(nodes: Seq<StoredVersionNode>, h: Seq<char>)
    ensures
        forall|k: int| 0 <= k < rebuilt_chain(handler_entries(nodes, h)).len() ==> exists|j: int|
            0 <= j < nodes.len() && (#[trigger] decoded_entry(nodes[j])) is Some && (decoded_entry(nodes[j])->0).0 == h
                && (decoded_entry(nodes[j])->0).2 == #[trigger] rebuilt_chain(handler_entries(nodes, h))[k],
{
    let es = handler_entries(nodes, h);
    lemma_handler_entries_exact(nodes, h);
    lemma_sort_by_seq(es);
    let sorted = sort_by_seq(es);
    let chain = rebuilt_chain(es);
    vstd::seq_lib::to_multiset_len(sorted);
    vstd::seq_lib::to_multiset_len(es);
    assert forall|k: int| 0 <= k < chain.len() implies exists|j: int|
        0 <= j < nodes.len() && (#[trigger] decoded_entry(nodes[j])) is Some && (decoded_entry(nodes[j])->0).0 == h
            && (decoded_entry(nodes[j])->0).2 == #[trigger] chain[k] by {
        let x = sorted[sorted.len() - 1 - k];
        assert(chain[k] == x.1);
        assert(sorted.contains(x));
        vstd::seq_lib::to_multiset_contains(sorted, x);
        vstd::seq_lib::to_multiset_contains(es, x);
        assert(es.contains(x));
        let q = choose|q: int| 0 <= q < es.len() && es[q] == x;
        let j = choose|j: int|
            0 <= j < nodes.len() && #[trigger] decoded_entry(nodes[j]) == Some(
                (h, (#[trigger] es[q]).0, es[q].1),
            );
        assert(decoded_entry(nodes[j]) == Some((h, x.0, x.1)));
    }
}

/// Insert `x` after every leading entry whose sequence is not above its
/// own (so among equal sequences the later input comes later).
pub open spec fn insert_by_seq(s: Seq<(u64, Cid)>, x: (u64, Cid)) -> Seq<(u64, Cid)>
    decreases s.len(),
{
    if s.len() == 0 {
        seq![x]
    } else if x.0 < s[0].0 {
        seq![x] + s
    } else {
        seq![s[0]] + insert_by_seq(s.drop_first(), x)
    }
}

/// The entries stably sorted by ascending sequence.
pub open spec fn sort_by_seq(s: Seq<(u64, Cid)>) -> Seq<(u64, Cid)>
    decreases s.len(),
{
    if s.len() == 0 {
        Seq::empty()
    } else {
        insert_by_seq(sort_by_seq(s.drop_last()), s.last())
    }
}

/// The newest-first chain rebuilt from a handler's stored entries.
pub open spec fn rebuilt_chain(s: Seq<(u64, Cid)>) -> Seq<Cid> {
    sort_by_seq(s).reverse().map_values(|e: (u64, Cid)| e.1)
}

/// Whether `s` is in ascending sequence order.
pub open spec fn seq_sorted(s: Seq<(u64, Cid)>) -> bool {
    forall|i: int, j: int| 0 <= i < j < s.len() ==> (#[trigger] s[i]).0 <= (#[trigger] s[j]).0
}

proof fn lemma_insert_by_seq_at(s: Seq<(u64, Cid)>, x: (u64, Cid), pos: int)
    requires
        0 <= pos <= s.len(),
        forall|k: int| 0 <= k < pos ==> (#[trigger] s[k]).0 <= x.0,
        pos < s.len() ==> x.0 < s[pos].0,
    ensures
        insert_by_seq(s, x) == s.insert(pos, x),
    decreases pos,
{
    if pos == 0 {
        assert(s.insert(0, x) =~= seq![x] + s);
    } else {
        assert(s[0].0 <= x.0);
        let t = s.drop_first();
        assert forall|k: int| 0 <= k < pos - 1 implies (#[trigger] t[k]).0 <= x.0 by {
            assert(t[k] == s[k + 1]);
        }
        if pos < s.len() {
            assert(t[pos - 1] == s[pos]);
        }
        lemma_insert_by_seq_at(t, x, pos - 1);
        assert(s.insert(pos, x) =~= seq![s[0]] + t.insert(pos - 1, x));
    }
}

proof fn lemma_insert_by_seq_props(s: Seq<(u64, Cid)>, x: (u64, Cid))
    requires
        seq_sorted(s),
    ensures
        seq_sorted(insert_by_seq(s, x)),
        insert_by_seq(s, x).to_multiset() == s.to_multiset().insert(x),
    decreases s.len(),
{
    let r = insert_by_seq(s, x);
    if s.len() == 0 {
        assert(r =~= Seq::<(u64, Cid)>::empty().push(x));
    } else if x.0 < s[0].0 {
        assert(r =~= s.insert(0, x));
        vstd::seq_lib::to_multiset_insert(s, 0, x);
        assert forall|i: int, j: int| 0 <= i < j < r.len() implies (#[trigger] r[i]).0 <= (
        #[trigger] r[j]).0 by {
            if i > 0 {
                assert(r[i] == s[i - 1] && r[j] == s[j - 1]);
            } else {
                assert(r[j] == s[j - 1]);
            }
        }
    } else {
        let t = s.drop_first();
        assert(seq_sorted(t)) by {
            assert forall|i: int, j: int| 0 <= i < j < t.len() implies (#[trigger] t[i]).0 <= (
            #[trigger] t[j]).0 by {
                assert(t[i] == s[i + 1] && t[j] == s[j + 1]);
            }
        }
        lemma_insert_by_seq_props(t, x);
        let u = insert_by_seq(t, x);
        assert(r == seq![s[0]] + u);
        assert(u.to_multiset().contains(x));
        assert forall|i: int, j: int| 0 <= i < j < r.len() implies (#[trigger] r[i]).0 <= (
        #[trigger] r[j]).0 by {
            if i == 0 {
                assert(r[j] == u[j - 1]);
                assert(u.to_multiset().count(u[j - 1]) > 0);
                assert(t.to_multiset().insert(x).count(u[j - 1]) > 0);
                if u[j - 1] != x {
                    assert(t.to_multiset().count(u[j - 1]) > 0);
                    assert(t.contains(u[j - 1]));
                    let k = choose|k: int| 0 <= k < t.len() && t[k] == u[j - 1];
                    assert(t[k] == s[k + 1]);
                }
            } else {
                assert(r[i] == u[i - 1] && r[j] == u[j - 1]);
            }
        }
        assert(s =~= seq![s[0]] + t);
        vstd::seq_lib::lemma_multiset_commutative(seq![s[0]], t);
        vstd::seq_lib::lemma_multiset_commutative(seq![s[0]], u);
        assert(seq![s[0]].to_multiset() =~= vstd::multiset::Multiset::empty().insert(s[0])) by {
            assert(seq![s[0]] =~= Seq::<(u64, Cid)>::empty().push(s[0]));
        }
        assert(r.to_multiset() =~= s.to_multiset().insert(x));
    }
}

/// The stable sort is in ascending sequence order and keeps every entry.
pub proof fn lemma_sort_by_seq(s: Seq<(u64, Cid)>)
    ensures
        seq_sorted(sort_by_seq(s)),
        sort_by_seq(s).to_multiset() == s.to_multiset(),
    decreases s.len(),
{
    if s.len() == 0 {
        assert(s.to_multiset() =~= vstd::multiset::Multiset::empty());
    } else {
        lemma_sort_by_seq(s.drop_last());
        lemma_insert_by_seq_props(sort_by_seq(s.drop_last()), s.last());
        assert(s =~= s.drop_last().push(s.last()));
    }
}

/// Rebuild one handler's newest-first chain from its stored
/// `(seq, version)` entries: stably sorted by ascending sequence, then
/// reversed.
pub fn rebuild_chain(entries: &Vec<(u64, Cid)>) -> (r: Vec<Cid>)
    ensures
        r@ == rebuilt_chain(entries@),
{
    let mut sorted: Vec<(u64, Cid)> = Vec::new();
    let mut i: usize = 0;
    while i < entries.len()
        invariant
            i <= entries.len(),
            sorted@ == sort_by_seq(entries@.take(i as int)),
        decreases entries.len() - i,
    {
        let x = entries[i];
        let mut pos: usize = 0;
        while pos < sorted.len() && sorted[pos].0 <= x.0
            invariant
                pos <= sorted.len(),
                forall|k: int| 0 <= k < pos ==> (#[trigger] sorted@[k]).0 <= x.0,
            decreases sorted.len() - pos,
        {
            pos += 1;
        }
        proof {
            lemma_insert_by_seq_at(sorted@, x, pos as int);
            assert(entries@.take(i + 1).drop_last() =~= entries@.take(i as int));
        }
        sorted.insert(pos, x);
        i += 1;
    }
    assert(entries@.take(entries.len() as int) =~= entries@);
    let mut r: Vec<Cid> = Vec::new();
    let mut k: usize = sorted.len();
    while k > 0
        invariant
            k <= sorted.len(),
            r@ == sorted@.subrange(k as int, sorted@.len() as int).reverse().map_values(
                |e: (u64, Cid)| e.1,
            ),
        decreases k,
    {
        k -= 1;
        r.push(sorted[k].1);
        assert(r@ =~= sorted@.subrange(k as int, sorted@.len() as int).reverse().map_values(
            |e: (u64, Cid)| e.1,
        ));
    }
    assert(sorted@.subrange(0, sorted@.len() as int) =~= sorted@);
    r
}

/// The versions a handler registered, oldest first, as the entries its
/// registrations persisted: version `i` under sequence `i`.
pub open spec fn registered_entries(versions: Seq<Cid>) -> Seq<(u64, Cid)> {
    Seq::new(versions.len(), |i: int| (i as u64, versions[i]))
}

/// Rebuilding the chain from the entries a handler's registrations
/// persisted, in whatever order the store hands them out, gives back the
/// registered versions newest first.
pub proof fn lemma_rebuild_round_trip(versions: Seq<Cid>, stored: Seq<(u64, Cid)>)
    requires
        versions.len() <= u64::MAX,
        stored.to_multiset() == registered_entries(versions).to_multiset(),
    ensures
        rebuilt_chain(stored) == versions.reverse(),
{
    let reg = registered_entries(versions);
    assert forall|i: int, j: int| 0 <= i < j < reg.len() implies (#[trigger] reg[i]).0 < (
    #[trigger] reg[j]).0 by {
        assert(reg[i].0 == i && reg[j].0 == j);
    }
    lemma_sort_by_seq(stored);
    let a = sort_by_seq(stored);
    lemma_sorted_equals_strict(a, reg);
    assert(rebuilt_chain(stored) =~= versions.reverse());
}

proof fn lemma_sorted_equals_strict(a: Seq<(u64, Cid)>, b: Seq<(u64, Cid)>)
    requires
        seq_sorted(a),
        forall|i: int, j: int| 0 <= i < j < b.len() ==> (#[trigger] b[i]).0 < (#[trigger] b[j]).0,
        a.to_multiset() == b.to_multiset(),
    ensures
        a == b,
    decreases a.len(),
{
    vstd::seq_lib::to_multiset_len(a);
    vstd::seq_lib::to_multiset_len(b);
    if a.len() == 0 {
        assert(a =~= b);
    } else {
        vstd::seq_lib::to_multiset_contains(a, a[0]);
        vstd::seq_lib::to_multiset_contains(b, a[0]);
        assert(a.contains(a[0]));
        assert(b.contains(a[0]));
        let k = choose|k: int| 0 <= k < b.len() && b[k] == a[0];
        vstd::seq_lib::to_multiset_contains(b, b[0]);
        vstd::seq_lib::to_multiset_contains(a, b[0]);
        assert(b.contains(b[0]));
        assert(a.contains(b[0]));
        let m = choose|m: int| 0 <= m < a.len() && a[m] == b[0];
        if m > 0 {
            assert(a[0].0 <= a[m].0);
        }
        if k > 0 {
            assert(b[0].0 < b[k].0);
        }
        assert(a[0] == b[0]);
        vstd::seq_lib::to_multiset_remove(a, 0);
        vstd::seq_lib::to_multiset_remove(b, 0);
        assert(a.remove(0) =~= a.drop_first());
        assert(b.remove(0) =~= b.drop_first());
        let ta = a.drop_first();
        let tb = b.drop_first();
        assert forall|i: int, j: int| 0 <= i < j < ta.len() implies (#[trigger] ta[i]).0 <= (
        #[trigger] ta[j]).0 by {
            assert(ta[i] == a[i + 1] && ta[j] == a[j + 1]);
        }
        assert forall|i: int, j: int| 0 <= i < j < tb.len() implies (#[trigger] tb[i]).0 < (
        #[trigger] tb[j]).0 by {
            assert(tb[i] == b[i + 1] && tb[j] == b[j + 1]);
        }
        lemma_sorted_equals_strict(ta, tb);
        assert forall|i: int| 0 <= i < a.len() implies a[i] == b[i] by {
            if i > 0 {
                assert(a[i] == ta[i - 1] && b[i] == tb[i - 1]);
            }
        }
        assert(a =~= b);
    }
}

} // verus!
