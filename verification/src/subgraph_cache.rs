//! The key under which a handler operation's transformed subgraph is
//! cached: the handler, the operation, and the CID of the registered
//! subgraph, so a re-registration under a new CID misses the cache; and
//! the cache of transformed-subgraph tags under that key.

use vstd::prelude::*;

use vstd::string::StringExecFns;

use crate::cid::Cid;
use crate::text::str_eq;

verus! {

/// Cache key of a transformed subgraph.
#[derive(Debug, Clone, PartialEq, Eq, Hash)]
pub struct SubgraphCacheKey {
    /// The handler id.
    pub handler_id: String,
    /// The operation.
    pub op: String,
    /// The CID of the registered subgraph.
    pub subgraph_cid: Cid,
}

impl SubgraphCacheKey {
    /// The key of `op` of `handler_id` registered as `subgraph_cid`.
    pub fn new(handler_id: String, op: String, subgraph_cid: Cid) -> (k: Self)
        ensures
            k.handler_id == handler_id,
            k.op == op,
            k.subgraph_cid == subgraph_cid,
    {
        SubgraphCacheKey { handler_id, op, subgraph_cid }
    }
}

/// The three axes of a cache key as plain values.
pub open spec fn key_view(k: SubgraphCacheKey) -> (Seq<char>, Seq<char>, Cid) {
    (k.handler_id@, k.op@, k.subgraph_cid)
}

/// What `entries` holds under `k`: the tag of the latest entry whose key
/// has the three axes of `k`.
pub open spec fn cache_lookup(
    entries: Seq<(SubgraphCacheKey, String)>,
    k: (Seq<char>, Seq<char>, Cid),
) -> Option<Seq<char>>
    decreases entries.len(),
{
    if entries.len() == 0 {
        None
    } else if key_view(entries.last().0) == k {
        Some(entries.last().1@)
    } else {
        cache_lookup(entries.drop_last(), k)
    }
}

/// A cache of transformed-subgraph tags keyed on [`SubgraphCacheKey`].
///
/// vstd's `HashMap` / `HashSet` specifications hold only for key types
/// whose key model it proves (the primitive integers and `bool`), so the
/// entries are held in a `Vec` whose latest entry for a key is the one read.
pub struct SubgraphCache {
    entries: Vec<(SubgraphCacheKey, String)>,
}

impl View for SubgraphCache {
    type V = Map<(Seq<char>, Seq<char>, Cid), Seq<char>>;

    closed spec fn view(&self) -> Map<(Seq<char>, Seq<char>, Cid), Seq<char>> {
        Map::new(
            |k: (Seq<char>, Seq<char>, Cid)| cache_lookup(self.entries@, k) is Some,
            |k: (Seq<char>, Seq<char>, Cid)| cache_lookup(self.entries@, k)->0,
        )
    }
}

impl SubgraphCache {
    /// An empty cache.
    pub fn new_for_test() -> (c: Self)
        ensures
            c@ == Map::<(Seq<char>, Seq<char>, Cid), Seq<char>>::empty(),
    {
        let c = SubgraphCache { entries: Vec::new() };
        assert(c@ =~= Map::<(Seq<char>, Seq<char>, Cid), Seq<char>>::empty());
        c
    }

    fn find(&self, handler_id: &str, op: &str, cid: &Cid) -> (r: Option<String>)
        ensures
            match r {
                Some(t) => cache_lookup(self.entries@, (handler_id@, op@, *cid)) == Some(t@),
                None => cache_lookup(self.entries@, (handler_id@, op@, *cid)) is None,
            },
    {
        let ghost k = (handler_id@, op@, *cid);
        let mut found: Option<String> = None;
        let mut i: usize = 0;
        while i < self.entries.len()
            invariant
                i <= self.entries.len(),
                k == (handler_id@, op@, *cid),
                match found {
                    Some(t) => cache_lookup(self.entries@.take(i as int), k) == Some(t@),
                    None => cache_lookup(self.entries@.take(i as int), k) is None,
                },
            decreases self.entries.len() - i,
        {
            assert(self.entries@.take(i + 1).drop_last() =~= self.entries@.take(i as int));
            let e = &self.entries[i];
            if str_eq(e.0.handler_id.as_str(), handler_id) && str_eq(e.0.op.as_str(), op)
                && e.0.subgraph_cid.same_as(cid) {
                found = Some(e.1.clone());
            }
            i += 1;
        }
        assert(self.entries@.take(self.entries.len() as int) =~= self.entries@);
        found
    }

    /// Whether the cache holds an entry under `key`.
    pub fn contains(&self, key: &SubgraphCacheKey) -> (r: bool)
        ensures
            r == self@.contains_key(key_view(*key)),
    {
        self.find(key.handler_id.as_str(), key.op.as_str(), &key.subgraph_cid).is_some()
    }

    /// Cache `ast_tag` under the key of `(handler_id, op, cid)`, replacing
    /// what was cached under it.
    pub fn insert_for_test(&mut self, handler_id: &str, op: &str, cid: &Cid, ast_tag: &str)
        ensures
            final(self)@ == old(self)@.insert((handler_id@, op@, *cid), ast_tag@),
    {
        let key = SubgraphCacheKey::new(
            String::from_str(handler_id),
            String::from_str(op),
            *cid,
        );
        let tag = String::from_str(ast_tag);
        let ghost old_entries = self.entries@;
        self.entries.push((key, tag));
        proof {
            assert(self.entries@.drop_last() =~= old_entries);
            assert(self@ =~= old(self)@.insert((handler_id@, op@, *cid), ast_tag@));
        }
    }

    /// The tag cached under the key of `(handler_id, op, cid)`.
    pub fn get_for_test(&self, handler_id: &str, op: &str, cid: &Cid) -> (r: Option<String>)
        ensures
            match r {
                Some(t) => self@.contains_key((handler_id@, op@, *cid)) && self@[(
                    handler_id@,
                    op@,
                    *cid,
                )] == t@,
                None => !self@.contains_key((handler_id@, op@, *cid)),
            },
    {
        self.find(handler_id, op, cid)
    }
}

impl Default for SubgraphCache {
    fn default() -> (c: Self)
        ensures
            c@ == Map::<(Seq<char>, Seq<char>, Cid), Seq<char>>::empty(),
    {
        Self::new_for_test()
    }
}

/// A tag cached under a key is what a read under the same three axes gives
/// back, and a key that differs in any axis (a re-registration under a new
/// CID among them) reads as it read before the insert.
pub proof fn lemma_cache_read_after_insert(
    before: SubgraphCache,
    after: SubgraphCache,
    k: (Seq<char>, Seq<char>, Cid),
    tag: Seq<char>,
    other: (Seq<char>, Seq<char>, Cid),
)
    requires
        after@ == before@.insert(k, tag),
        other != k,
    ensures
        after@.contains_key(k),
        after@[k] == tag,
        after@.contains_key(other) == before@.contains_key(other),
        before@.contains_key(other) ==> after@[other] == before@[other],
{
}

} // verus!
