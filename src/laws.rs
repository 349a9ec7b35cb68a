//! Laws of the patch model that relate its functions: what every projected
//! patch satisfies, and what a creation event yields.

use vstd::prelude::*;

use crate::doc::{Entry, Node};
use crate::error::ValidationError;
use crate::creation::{created_patch, creation_doc_projects};
use crate::events::{created_change, distinct_names};
use crate::projection::{labels_spec, patch_spec, revision_spec, revisions_spec};
use crate::engine::{change_parses, decoded_entries, history_tree, replayed_tree};
use crate::error::Error;
use crate::store::{history_patch, rebuilt};
use crate::types::{parsed_oid, patch_view_wf, trimmed, valid_target, Patch};

verus! {

proof fn lemma_revision_version(n: Node, ix: int)
    requires
        ix >= 0,
    ensures
        revision_spec(n, ix) matches Ok(r) ==> r.version == ix,
{
}

proof fn lemma_revisions_numbered(items: Seq<Node>, k: int)
    requires
        k >= 0,
    ensures
        revisions_spec(items, k) matches Ok(rs) ==> rs.len() == k && forall|i: int|
            0 <= i < rs.len() ==> #[trigger] rs[i].version == i,
    decreases k,
{
    if k > 0 {
        lemma_revisions_numbered(items, k - 1);
        lemma_revision_version(items[k - 1], k - 1);
    }
}

proof fn lemma_labels_distinct(es: Seq<Entry>, k: int)
    ensures
        labels_spec(es, k) matches Ok(ls) ==> forall|i: int, j: int|
            0 <= i < ls.len() && 0 <= j < ls.len() && i != j ==> ls[i] != ls[j],
    decreases k,
{
    if k > 0 {
        lemma_labels_distinct(es, k - 1);
        if let Ok(ls) = labels_spec(es, k - 1) {
            if let Some(name) = crate::types::label_named(es[k - 1].key@) {
                if !ls.contains(name) {
                    let ls2 = ls.push(name);
                    assert forall|i: int, j: int| 0 <= i < ls2.len() && 0 <= j < ls2.len() && i != j implies ls2[i] != ls2[j] by {
                        if i == ls.len() as int {
                            assert(ls[j] != name);
                        } else if j == ls.len() as int {
                            assert(ls[i] != name);
                        }
                    }
                }
            }
        }
    }
}

/// Every patch that a document describes has a first revision, numbers each
/// revision by its position (a document whose stored version disagrees with
/// the position describes no patch), and holds each label name once.
pub proof fn projected_patch_wf(doc: Node)
    ensures
        patch_spec(doc) matches Ok(p) ==> patch_view_wf(p),
{
    if let Node::Object(root) = doc {
        if let Ok(es) = crate::projection::object_spec(root@, "patch"@, crate::error::Field::Patch) {
            if let Ok(items) = crate::projection::array_spec(es, "revisions"@, crate::error::Field::Revisions) {
                lemma_revisions_numbered(items, items.len() as int);
            }
            if let Ok(les) = crate::projection::object_spec(es, "labels"@, crate::error::Field::Labels) {
                lemma_labels_distinct(les, les.len() as int);
            }
        }
    }
}

/// Creating a patch with repeated label names yields each distinct name
/// exactly once: the names kept are pairwise different, and a name is kept
/// if and only if it was given.
pub proof fn created_labels_distinct(names: Seq<Seq<char>>, k: int)
    requires
        0 <= k <= names.len(),
    ensures
        forall|i: int, j: int|
            0 <= i < distinct_names(names, k).len() && 0 <= j < distinct_names(names, k).len() && i != j
                ==> distinct_names(names, k)[i] != distinct_names(names, k)[j],
        forall|x: Seq<char>| distinct_names(names, k).contains(x) <==> names.take(k).contains(x),
    decreases k,
{
    if k > 0 {
        created_labels_distinct(names, k - 1);
        let d = distinct_names(names, k - 1);
        let x = names[k - 1];
        let t1 = names.take(k - 1);
        let tk = names.take(k);
        assert(tk =~= t1.push(x));
        if !d.contains(x) {
            let d2 = d.push(x);
            assert forall|i: int, j: int| 0 <= i < d2.len() && 0 <= j < d2.len() && i != j implies d2[i] != d2[j] by {
                if i == d.len() as int {
                    assert(d[j] != x);
                } else if j == d.len() as int {
                    assert(d[i] != x);
                }
            }
            assert forall|y: Seq<char>| d2.contains(y) <==> tk.contains(y) by {
                if d2.contains(y) && y != x {
                    let i = choose|i: int| 0 <= i < d2.len() && d2[i] == y;
                    assert(d[i] == y);
                    assert(d.contains(y));
                    assert(t1.contains(y));
                    let m = choose|m: int| 0 <= m < t1.len() && t1[m] == y;
                    assert(tk[m] == y);
                }
                if tk.contains(y) && y != x {
                    let i = choose|i: int| 0 <= i < tk.len() && tk[i] == y;
                    assert(t1[i] == y);
                    assert(t1.contains(y));
                    assert(d.contains(y));
                    let j = choose|j: int| 0 <= j < d.len() && d[j] == y;
                    assert(d2[j] == y);
                }
                if y == x {
                    assert(d2[d.len() as int] == x);
                    assert(tk[k - 1] == x);
                }
            }
        } else {
            assert forall|y: Seq<char>| d.contains(y) <==> tk.contains(y) by {
                if tk.contains(y) && y != x {
                    let i = choose|i: int| 0 <= i < tk.len() && tk[i] == y;
                    assert(t1[i] == y);
                    assert(t1.contains(y));
                }
                if d.contains(y) {
                    assert(t1.contains(y));
                    let i = choose|i: int| 0 <= i < t1.len() && t1[i] == y;
                    assert(tk[i] == y);
                }
                if y == x {
                    assert(tk[k - 1] == x);
                }
            }
        }
    } else {
        assert(names.take(0) =~= Seq::<Seq<char>>::empty());
    }
}

/// The change that creates a patch, replayed as the whole history of a patch
/// object, gives the created patch: open, with the trimmed title, the
/// author, the target and the creation time, each given label name once,
/// and one revision, number 0, with the peer, the commit and the trimmed
/// description as its cover comment.
pub proof fn created_change_round_trip(
    b: Seq<u8>,
    author: Seq<char>,
    peer: Seq<char>,
    title: Seq<char>,
    description: Seq<char>,
    target: Seq<char>,
    commit: Seq<char>,
    ts: i64,
    names: Set<Seq<char>>,
)
    requires
        created_change(b, author, peer, title, description, target, commit, ts, names),
        parsed_oid(commit) == Some(commit),
        valid_target(target),
    ensures
        history_patch(seq![b]) matches Ok(v) && created_patch(
            v,
            author,
            peer,
            trimmed(title),
            trimmed(description),
            target,
            commit,
            ts,
            names,
        ),
{
    assert(decoded_entries(seq![b], 0) =~= Seq::<Seq<u8>>::empty());
    assert(seq![b][0] == b);
    assert(decoded_entries(seq![b], 1) =~= seq![b]);
    creation_doc_projects(
        replayed_tree(seq![b]),
        author,
        peer,
        trimmed(title),
        trimmed(description),
        target,
        commit,
        ts,
        names,
    );
}

proof fn lemma_decoded_prefix(s: Seq<Seq<u8>>, t: Seq<Seq<u8>>, n: int)
    requires
        0 <= n <= s.len(),
        n <= t.len(),
        forall|i: int| 0 <= i < n ==> s[i] == t[i],
    ensures
        decoded_entries(s, n) == decoded_entries(t, n),
    decreases n,
{
    if n > 0 {
        lemma_decoded_prefix(s, t, n - 1);
    }
}

proof fn lemma_decoded_concat(a: Seq<Seq<u8>>, b: Seq<Seq<u8>>, k: int)
    requires
        0 <= k <= b.len(),
    ensures
        decoded_entries(a + b, a.len() + k) == decoded_entries(a, a.len() as int) + decoded_entries(b, k),
    decreases k,
{
    if k == 0 {
        lemma_decoded_prefix(a + b, a, a.len() as int);
        assert(decoded_entries(b, 0) =~= Seq::<Seq<u8>>::empty());
        assert(decoded_entries(a, a.len() as int) + Seq::<Seq<u8>>::empty() =~= decoded_entries(a, a.len() as int));
    } else {
        lemma_decoded_concat(a, b, k - 1);
        assert((a + b)[a.len() + k - 1] == b[k - 1]);
        let d = decoded_entries(a, a.len() as int);
        assert((d + decoded_entries(b, k - 1)).push(b[k - 1]) =~= d + decoded_entries(b, k - 1).push(b[k - 1]));
    }
}

/// Replay skips an entry that does not decode without a trace: a history with
/// such an entry among others gives the same document, and so the same patch
/// or the same failure, as the history without it.
pub proof fn undecodable_entry_is_skipped(before: Seq<Seq<u8>>, bad: Seq<u8>, after: Seq<Seq<u8>>)
    requires
        !change_parses(bad),
    ensures
        history_tree(before + seq![bad] + after) == history_tree(before + after),
        history_patch(before + seq![bad] + after) == history_patch(before + after),
{
    let with = before + seq![bad];
    lemma_decoded_concat(with, after, after.len() as int);
    lemma_decoded_concat(before, seq![bad], 1);
    lemma_decoded_concat(before, after, after.len() as int);
    assert(decoded_entries(seq![bad], 0) =~= Seq::<Seq<u8>>::empty());
    assert(seq![bad][0] == bad);
    assert(decoded_entries(seq![bad], 1) =~= Seq::<Seq<u8>>::empty());
    let d = decoded_entries(before, before.len() as int);
    assert(d + Seq::<Seq<u8>>::empty() =~= d);
    assert((before + seq![bad] + after).len() == with.len() + after.len());
    assert((before + after).len() == before.len() + after.len());
}

/// Rebuilding a patch from a history is deterministic: two rebuilds of the
/// same history give patches with the same view, or the same failure.
pub proof fn rebuild_is_deterministic(r1: Result<Patch, Error>, r2: Result<Patch, Error>, h: Seq<Seq<u8>>)
    requires
        rebuilt(r1, h),
        rebuilt(r2, h),
    ensures
        r1 is Ok <==> r2 is Ok,
        r1 matches Ok(p1) ==> (r2 matches Ok(p2) && p1.view() == p2.view()),
        r1 matches Err(e1) ==> r2 == Err::<Patch, Error>(e1),
{
}

} // verus!
