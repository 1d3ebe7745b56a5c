//! How a label's listing is read: the view ids probed, the first view that
//! answers rows, the rows whose nodes could be loaded, and the backend
//! fallback ordered by creation time and then by content id.

use vstd::prelude::*;
use vstd::string::StringExecFns;

use crate::bytes::{bytes_lt, digest_lt, lemma_bytes_lt_asym, lemma_bytes_lt_total, lemma_bytes_lt_trans};
use crate::cid::Cid;
use crate::property::PropertyValue;

verus! {

broadcast use {vstd::seq_lib::group_to_multiset_ensures, vstd::array::group_array_axioms};

/// A row of the backend fallback: the creation time of a node labelled
/// with the listed label (`createdAt`, 0 when absent) and its content id.
#[derive(Clone, Copy, Debug, PartialEq, Eq)]
pub struct ListingRow {
    /// The node's `createdAt` timestamp.
    pub created_at: i64,
    /// The node's content id.
    pub cid: Cid,
}

/// The fallback order: by creation time, then by content id.
pub open spec fn row_lt(x: ListingRow, y: ListingRow) -> bool {
    ||| x.created_at < y.created_at
    ||| (x.created_at == y.created_at && bytes_lt(x.cid.digest@, y.cid.digest@))
}

/// Whether `s` is in fallback order.
pub open spec fn rows_sorted(s: Seq<ListingRow>) -> bool {
    forall|i: int, j: int| 0 <= i < j < s.len() ==> !row_lt(#[trigger] s[j], #[trigger] s[i])
}

/// `row_lt` is asymmetric, transitive and total on different rows.
pub proof fn lemma_row_order(x: ListingRow, y: ListingRow, z: ListingRow)
    ensures
        row_lt(x, y) ==> !row_lt(y, x),
        row_lt(x, y) && row_lt(y, z) ==> row_lt(x, z),
        x != y ==> row_lt(x, y) || row_lt(y, x),
{
    lemma_bytes_lt_asym(x.cid.digest@, y.cid.digest@);
    if row_lt(x, y) && row_lt(y, z) && x.created_at == y.created_at && y.created_at
        == z.created_at {
        lemma_bytes_lt_trans(x.cid.digest@, y.cid.digest@, z.cid.digest@);
    }
    if x != y && x.created_at == y.created_at {
        if x.cid.digest@ == y.cid.digest@ {
            assert forall|i: int| 0 <= i < 32 implies x.cid.digest[i] == y.cid.digest[i] by {
                assert(x.cid.digest@[i] == y.cid.digest@[i]);
            }
            assert(x.cid.digest =~= y.cid.digest);
        } else {
            lemma_bytes_lt_total(x.cid.digest@, y.cid.digest@);
        }
    }
}

/// Whether row `x` sorts before row `y`.
pub fn row_before(x: &ListingRow, y: &ListingRow) -> (r: bool)
    ensures
        r == row_lt(*x, *y),
{
    if x.created_at != y.created_at {
        x.created_at < y.created_at
    } else {
        digest_lt(&x.cid.digest, &y.cid.digest)
    }
}

/// The fallback sort key of a node's `createdAt` property: the integer it
/// holds, 0 for an absent or non-integer property.
pub fn created_at_key(value: Option<&PropertyValue>) -> (k: i64)
    ensures
        k == (match value {
            Some(PropertyValue::Int(i)) => *i,
            _ => 0,
        }),
{
    match value {
        Some(PropertyValue::Int(i)) => *i,
        _ => 0,
    }
}

/// Inserting `x` at `pos` into a sorted `s`, where everything before `pos`
/// sorts before `x` and `x` does not sort after `s[pos]`, keeps it sorted.
proof fn lemma_insert_sorted(s: Seq<ListingRow>, pos: int, x: ListingRow)
    requires
        rows_sorted(s),
        0 <= pos <= s.len(),
        forall|k: int| 0 <= k < pos ==> row_lt(#[trigger] s[k], x),
        pos < s.len() ==> !row_lt(s[pos], x),
    ensures
        rows_sorted(s.insert(pos, x)),
{
    let t = s.insert(pos, x);
    s.insert_ensures(pos, x);
    assert forall|i: int, j: int| 0 <= i < j < t.len() implies !row_lt(
        #[trigger] t[j],
        #[trigger] t[i],
    ) by {
        if j < pos {
            assert(t[i] == s[i] && t[j] == s[j]);
        } else if j == pos {
            assert(t[i] == s[i]);
            lemma_row_order(s[i], x, s[i]);
        } else if i < pos {
            assert(t[i] == s[i] && t[j] == s[j - 1]);
            lemma_row_order(s[i], x, s[i]);
            lemma_row_order(s[j - 1], s[i], x);
            if row_lt(s[j - 1], s[i]) {
                assert(!row_lt(s[j - 1], s[i]));
            }
        } else if i == pos {
            assert(t[j] == s[j - 1]);
            if j - 1 == pos {
            } else {
                assert(!row_lt(s[j - 1], s[pos]));
                lemma_row_order(s[j - 1], x, s[pos]);
                lemma_row_order(x, s[pos], s[j - 1]);
                lemma_row_order(s[pos], s[j - 1], x);
                lemma_row_order(s[j - 1], s[pos], x);
            }
        } else {
            assert(t[i] == s[i - 1] && t[j] == s[j - 1]);
        }
    }
}

/// Order the backend fallback rows by creation time, then by content id.
pub fn order_backend_rows(rows: Vec<ListingRow>) -> (r: Vec<ListingRow>)
    ensures
        rows_sorted(r@),
        r@.to_multiset() == rows@.to_multiset(),
{
    let mut out: Vec<ListingRow> = Vec::new();
    let mut i: usize = 0;
    while i < rows.len()
        invariant
            i <= rows.len(),
            rows_sorted(out@),
            out@.to_multiset() == rows@.take(i as int).to_multiset(),
        decreases rows.len() - i,
    {
        let x = rows[i];
        let mut pos: usize = 0;
        while pos < out.len() && row_before(&out[pos], &x)
            invariant
                pos <= out.len(),
                forall|k: int| 0 <= k < pos ==> row_lt(#[trigger] out@[k], x),
            decreases out.len() - pos,
        {
            pos += 1;
        }
        proof {
            lemma_insert_sorted(out@, pos as int, x);
            assert(rows@.take(i + 1) =~= rows@.take(i as int).push(x));
        }
        out.insert(pos, x);
        i += 1;
    }
    assert(rows@.take(rows.len() as int) =~= rows@);
    out
}

/// Two sorted arrangements of the same rows are the same sequence: the
/// fallback order does not depend on the order the backend hands the
/// rows out in.
pub proof fn lemma_sorted_rows_unique(a: Seq<ListingRow>, b: Seq<ListingRow>)
    requires
        rows_sorted(a),
        rows_sorted(b),
        a.to_multiset() == b.to_multiset(),
    ensures
        a == b,
    decreases a.len(),
{
    vstd::seq_lib::to_multiset_len(a);
    vstd::seq_lib::to_multiset_len(b);
    if a.len() == 0 {
        assert(b.len() == 0);
        assert(a =~= b);
    } else {
        assert(b.len() == a.len());
        assert(a.contains(a[0]));
        vstd::seq_lib::to_multiset_contains(a, a[0]);
        vstd::seq_lib::to_multiset_contains(b, a[0]);
        assert(b.contains(a[0]));
        let k = choose|k: int| 0 <= k < b.len() && b[k] == a[0];
        assert(b.contains(b[0]));
        vstd::seq_lib::to_multiset_contains(b, b[0]);
        vstd::seq_lib::to_multiset_contains(a, b[0]);
        assert(a.contains(b[0]));
        let m = choose|m: int| 0 <= m < a.len() && a[m] == b[0];
        if a[0] != b[0] {
            lemma_row_order(a[0], b[0], a[0]);
            if k > 0 {
                assert(!row_lt(b[k], b[0]));
            }
            if m > 0 {
                assert(!row_lt(a[m], a[0]));
            }
        }
        assert(a[0] == b[0]);
        vstd::seq_lib::to_multiset_remove(a, 0);
        vstd::seq_lib::to_multiset_remove(b, 0);
        assert(a.remove(0) =~= a.drop_first());
        assert(b.remove(0) =~= b.drop_first());
        assert(rows_sorted(a.drop_first())) by {
            assert forall|i: int, j: int| 0 <= i < j < a.drop_first().len() implies !row_lt(
                #[trigger] a.drop_first()[j],
                #[trigger] a.drop_first()[i],
            ) by {
                assert(a.drop_first()[j] == a[j + 1] && a.drop_first()[i] == a[i + 1]);
            }
        }
        assert(rows_sorted(b.drop_first())) by {
            assert forall|i: int, j: int| 0 <= i < j < b.drop_first().len() implies !row_lt(
                #[trigger] b.drop_first()[j],
                #[trigger] b.drop_first()[i],
            ) by {
                assert(b.drop_first()[j] == b[j + 1] && b.drop_first()[i] == b[i + 1]);
            }
        }
        lemma_sorted_rows_unique(a.drop_first(), b.drop_first());
        assert forall|i: int| 0 <= i < a.len() implies a[i] == b[i] by {
            if i > 0 {
                assert(a[i] == a.drop_first()[i - 1] && b[i] == b.drop_first()[i - 1]);
            }
        }
        assert(a =~= b);
    }
}

/// The view ids a listing of `label` probes, in order: the per-label view
/// `content_listing_<label>`, then the default `content_listing`.
pub fn listing_view_candidates(label: &str) -> (c: Vec<String>)
    ensures
        c@.len() == 2,
        c@[0]@ == "content_listing_"@ + label@,
        c@[1]@ == "content_listing"@,
{
    let per_label = String::from_str("content_listing_").concat(label);
    let default_view = String::from_str("content_listing");
    let mut c: Vec<String> = Vec::new();
    c.push(per_label);
    c.push(default_view);
    c
}

/// One content id a listing view answered with, and whether the node under
/// it could be loaded from the backend.
#[derive(Clone, Copy, Debug, PartialEq, Eq)]
pub struct ViewListingEntry {
    /// The listed content id.
    pub cid: Cid,
    /// Whether the node was found.
    pub loaded: bool,
}

/// Whether a view's answer holds rows. `None` stands for a read that
/// failed, a view not registered under that id, or an answer that is not a
/// list of ids.
pub open spec fn answer_has_rows(a: Option<Vec<ViewListingEntry>>) -> bool {
    a is Some && a->0@.len() > 0
}

/// Whether `i` is the first answer that holds rows.
pub open spec fn first_with_rows(answers: Seq<Option<Vec<ViewListingEntry>>>, i: int) -> bool {
    &&& 0 <= i < answers.len()
    &&& answer_has_rows(answers[i])
    &&& forall|j: int| 0 <= j < i ==> !answer_has_rows(#[trigger] answers[j])
}

/// The ids of a view answer whose nodes were loaded, in the view's order.
pub open spec fn loaded_cids(entries: Seq<ViewListingEntry>) -> Seq<Cid>
    decreases entries.len(),
{
    if entries.len() == 0 {
        Seq::empty()
    } else {
        let prev = loaded_cids(entries.drop_last());
        if entries.last().loaded {
            prev.push(entries.last().cid)
        } else {
            prev
        }
    }
}

/// The ids of a view answer whose nodes were loaded; the others are left
/// out and the view's order is kept.
pub fn loaded_view_rows(entries: &Vec<ViewListingEntry>) -> (r: Vec<Cid>)
    ensures
        r@ == loaded_cids(entries@),
{
    let mut r: Vec<Cid> = Vec::new();
    let mut i: usize = 0;
    while i < entries.len()
        invariant
            i <= entries.len(),
            r@ == loaded_cids(entries@.take(i as int)),
        decreases entries.len() - i,
    {
        assert(entries@.take(i + 1).drop_last() =~= entries@.take(i as int));
        if entries[i].loaded {
            r.push(entries[i].cid);
        }
        i += 1;
    }
    assert(entries@.take(entries.len() as int) =~= entries@);
    r
}

/// The first view answer that holds rows, if any.
pub fn first_listing_view(answers: &Vec<Option<Vec<ViewListingEntry>>>) -> (r: Option<usize>)
    ensures
        match r {
            Some(i) => first_with_rows(answers@, i as int),
            None => forall|j: int| 0 <= j < answers@.len() ==> !answer_has_rows(#[trigger] answers@[j]),
        },
{
    let mut i: usize = 0;
    while i < answers.len()
        invariant
            i <= answers.len(),
            forall|j: int| 0 <= j < i ==> !answer_has_rows(#[trigger] answers@[j]),
        decreases answers.len() - i,
    {
        match &answers[i] {
            Some(rows) => {
                if rows.len() > 0 {
                    return Some(i);
                }
            },
            None => {},
        }
        i += 1;
    }
    None
}

/// The listing of a label. `answers` holds what the candidate views
/// answered, in the order of `listing_view_candidates` (empty where the
/// view subsystem is off); `backend_rows` the label index of the backend.
///
/// The first view that answers rows is the listing, in the view's order,
/// without the ids whose nodes could not be loaded. Where no view answers
/// rows, the backend rows are listed by creation time, then by content id.
pub fn resolve_listing(
    answers: &Vec<Option<Vec<ViewListingEntry>>>,
    backend_rows: Vec<ListingRow>,
) -> (r: Vec<Cid>)
    ensures
        forall|i: int| #[trigger]
            first_with_rows(answers@, i) ==> r@ == loaded_cids(answers@[i]->0@),
        (forall|j: int| 0 <= j < answers@.len() ==> !answer_has_rows(#[trigger] answers@[j]))
            ==> exists|s: Seq<ListingRow>|
            rows_sorted(s) && s.to_multiset() == backend_rows@.to_multiset() && r@ == s.map_values(
                |x: ListingRow| x.cid,
            ),
{
    match first_listing_view(answers) {
        Some(i) => {
            let rows = answers[i].as_ref().unwrap();
            let r = loaded_view_rows(rows);
            proof {
                assert forall|k: int| #[trigger] first_with_rows(answers@, k) implies k == i by {
                    if k < i {
                        assert(!answer_has_rows(answers@[k]));
                    } else if k > i {
                        assert(!answer_has_rows(answers@[i as int]));
                    }
                }
            }
            r
        },
        None => {
            let ordered = order_backend_rows(backend_rows);
            let mut r: Vec<Cid> = Vec::new();
            let mut k: usize = 0;
            while k < ordered.len()
                invariant
                    k <= ordered.len(),
                    r@ == ordered@.take(k as int).map_values(|x: ListingRow| x.cid),
                decreases ordered.len() - k,
            {
                r.push(ordered[k].cid);
                k += 1;
                assert(r@ =~= ordered@.take(k as int).map_values(|x: ListingRow| x.cid));
            }
            assert(ordered@.take(ordered.len() as int) =~= ordered@);
            r
        },
    }
}

} // verus!
