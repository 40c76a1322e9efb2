//! Laws of the catalogue, each stated over the views that the store
//! operations' contracts use, and proved once and for all.

use vstd::prelude::*;
use crate::movie::MovieView;
use crate::store::{contains_id, idx_of, unique_ids, lemma_idx_of, lemma_remove_keeps_unique};

verus! {

/// Appending a record whose id no held record carries keeps ids unique.
pub proof fn lemma_push_keeps_unique(s: Seq<MovieView>, m: MovieView)
    requires
        unique_ids(s),
        !contains_id(s, m.id),
    ensures
        unique_ids(s.push(m)),
{
    let t = s.push(m);
    assert forall|a: int, b: int|
        0 <= a < b < t.len() implies #[trigger] t[a].id != #[trigger] t[b].id by {
        if b == t.len() - 1 {
            assert(s[a].id != m.id);
        } else {
            assert(s[a].id != s[b].id);
        }
    }
}

/// A created record's id is distinct from the id of every record the
/// store held at the moment of creation: a create can never answer with
/// an id already in use.
pub proof fn lemma_created_id_fresh(pre: Seq<MovieView>, m: MovieView)
    requires
        !contains_id(pre, m.id),
    ensures
        forall|i: int| 0 <= i < pre.len() ==> #[trigger] pre[i].id != m.id,
{
}

/// After a create appends record `m`, a get of `m`'s id finds exactly
/// `m`: the same id, title and director that the create answered with.
pub proof fn lemma_get_after_create(pre: Seq<MovieView>, m: MovieView)
    requires
        unique_ids(pre),
        !contains_id(pre, m.id),
    ensures
        unique_ids(pre.push(m)),
        contains_id(pre.push(m), m.id),
        pre.push(m)[idx_of(pre.push(m), m.id)] == m,
{
    let post = pre.push(m);
    lemma_push_keeps_unique(pre, m);
    lemma_idx_of(post, m.id, post.len() - 1);
}

/// A delete of a held id removes exactly one record: the collection
/// shrinks by one, a get of that id then finds nothing, and every other
/// id is held afterwards exactly when it was held before.
pub proof fn lemma_delete_removes_exactly_one(pre: Seq<MovieView>, id: u128)
    requires
        unique_ids(pre),
        contains_id(pre, id),
    ensures
        ({
            let post = pre.remove(idx_of(pre, id));
            &&& post.len() == pre.len() - 1
            &&& !contains_id(post, id)
            &&& unique_ids(post)
            &&& forall|x: u128|
                x != id ==> (#[trigger] contains_id(pre, x) <==> contains_id(post, x))
        }),
{
    let k = idx_of(pre, id);
    assert(0 <= k < pre.len() && pre[k].id == id);
    let post = pre.remove(k);
    lemma_remove_keeps_unique(pre, k);
    assert forall|x: u128| x != id implies (#[trigger] contains_id(pre, x) <==> contains_id(
        post,
        x,
    )) by {
        if contains_id(pre, x) {
            let j = choose|j: int| 0 <= j < pre.len() && #[trigger] pre[j].id == x;
            let j1: int = if j < k {
                j
            } else {
                j - 1
            };
            assert(post[j1].id == x);
        }
        if contains_id(post, x) {
            let j = choose|j: int| 0 <= j < post.len() && #[trigger] post[j].id == x;
            let j0: int = if j < k {
                j
            } else {
                j + 1
            };
            assert(pre[j0].id == x);
        }
    }
}

/// The issue log only grows: what it contains before a create logs one
/// more id, it contains afterwards, together with the logged id.
pub proof fn lemma_issued_log_grows(s: Seq<u128>, x: u128)
    ensures
        forall|y: u128| s.contains(y) ==> s.push(x).contains(y),
        s.push(x).contains(x),
{
    assert forall|y: u128| s.contains(y) implies s.push(x).contains(y) by {
        let i = choose|i: int| 0 <= i < s.len() && s[i] == y;
        assert(s.push(x)[i] == y);
    }
    assert(s.push(x)[s.len() as int] == x);
}

/// Ids returned by successful creates never repeat within a process:
/// right after a create its id stands in the issue log, no operation
/// ever drops a log entry, and a later create only returns an id absent
/// from the log it drew against.
pub proof fn lemma_created_ids_never_repeat(
    issued_then: Seq<u128>,
    id1: u128,
    issued_now: Seq<u128>,
    id2: u128,
)
    requires
        issued_then.contains(id1),
        forall|y: u128| issued_then.contains(y) ==> issued_now.contains(y),
        !issued_now.contains(id2),
    ensures
        id1 != id2,
{
}

/// Absent mutation, a list answers the same records in the same order
/// every time: each snapshot equals the store's record sequence, so any
/// two snapshots of the same store are equal.
pub proof fn lemma_list_stable(s: Seq<MovieView>, r1: Seq<MovieView>, r2: Seq<MovieView>)
    requires
        r1 == s,
        r2 == s,
    ensures
        r1 == r2,
{
}

} // verus!
