//! The shape of the document that seeds a patch, stated field by field, and
//! the patch that such a document describes.

use vstd::prelude::*;

use crate::doc::{get_field, lookup, Entry, Node, Scalar};
use crate::error::{Field, ValidationError};
use crate::projection::{
    array_spec, comment_spec, labels_spec, object_spec, patch_spec, revision_spec, revisions_spec,
    state_spec, str_spec, target_spec, threads_spec, time_spec,
};
use crate::types::{
    label_named, parsed_oid, valid_target, CommentView, Label, PatchView, RevisionView, State, ThreadView,
};

verus! {

/// The map entries hold the text `s` under `key`.
pub open spec fn text_at(es: Seq<Entry>, key: Seq<char>, s: Seq<char>) -> bool {
    lookup(es, key) matches Some(Node::Scalar(Scalar::Str(t))) && t@ == s
}

/// The map entries hold the scalar `v` under `key`.
pub open spec fn scalar_at(es: Seq<Entry>, key: Seq<char>, v: Scalar) -> bool {
    lookup(es, key) == Some(Node::Scalar(v))
}

/// The map entries hold an empty map under `key`.
pub open spec fn empty_object_at(es: Seq<Entry>, key: Seq<char>) -> bool {
    lookup(es, key) matches Some(Node::Object(v)) && v@.len() == 0
}

/// The map entries hold an empty list under `key`.
pub open spec fn empty_array_at(es: Seq<Entry>, key: Seq<char>) -> bool {
    lookup(es, key) matches Some(Node::Array(v)) && v@.len() == 0
}

/// A cover comment as created: exactly its body, author, time and an empty
/// reactions map; no replies.
pub open spec fn creation_comment(n: Node, author: Seq<char>, body: Seq<char>, ts: i64) -> bool {
    n matches Node::Object(v) && v@.len() == 4 && text_at(v@, "body"@, body) && text_at(v@, "author"@, author)
        && scalar_at(v@, "timestamp"@, Scalar::Timestamp(ts)) && empty_object_at(v@, "reactions"@)
        && lookup(v@, "replies"@) is None
}

/// A label map as created: one key for each name of `names` and no other,
/// each key a clean label name mapped to `true`.
pub open spec fn creation_labels(n: Node, names: Set<Seq<char>>) -> bool {
    n matches Node::Object(v) && (forall|a: int, b: int|
        0 <= a < v@.len() && 0 <= b < v@.len() && a != b ==> v@[a].key@ != v@[b].key@) && (forall|a: int|
        0 <= a < v@.len() ==> label_named(#[trigger] v@[a].key@) == Some(v@[a].key@) && v@[a].value == Node::Scalar(
            Scalar::Boolean(true),
        )) && v@.map_values(|e: Entry| e.key@).to_set() == names
}

/// The first revision as created: exactly its author, peer, version 0, commit,
/// cover comment, empty discussion list, empty reviews map, empty merges list
/// and time.
pub open spec fn creation_revision(
    n: Node,
    author: Seq<char>,
    peer: Seq<char>,
    commit: Seq<char>,
    body: Seq<char>,
    ts: i64,
) -> bool {
    n matches Node::Object(v) && v@.len() == 9 && text_at(v@, "author"@, author) && text_at(v@, "peer"@, peer)
        && scalar_at(v@, "version"@, Scalar::Uint(0)) && text_at(v@, "commit"@, commit) && (lookup(
        v@,
        "comment"@,
    ) matches Some(c) && creation_comment(c, author, body, ts)) && empty_array_at(v@, "discussion"@)
        && empty_object_at(v@, "reviews"@) && empty_array_at(v@, "merges"@) && scalar_at(
        v@,
        "timestamp"@,
        Scalar::Timestamp(ts),
    )
}

/// The document that seeds a patch: a root map holding only `patch`, a map of
/// exactly the title, author, state `open`, target, time, label map and a
/// revision list holding the one first revision.
pub open spec fn creation_doc(
    n: Node,
    author: Seq<char>,
    peer: Seq<char>,
    title: Seq<char>,
    body: Seq<char>,
    target: Seq<char>,
    commit: Seq<char>,
    ts: i64,
    names: Set<Seq<char>>,
) -> bool {
    n matches Node::Object(root) && root@.len() == 1 && (lookup(root@, "patch"@) matches Some(Node::Object(pv))
        && pv@.len() == 7 && text_at(pv@, "title"@, title) && text_at(pv@, "author"@, author) && text_at(
        pv@,
        "state"@,
        "open"@,
    ) && text_at(pv@, "target"@, target) && scalar_at(pv@, "timestamp"@, Scalar::Timestamp(ts)) && (lookup(
        pv@,
        "labels"@,
    ) matches Some(l) && creation_labels(l, names)) && (lookup(pv@, "revisions"@) matches Some(Node::Array(rv))
        && rv@.len() == 1 && creation_revision(rv@[0], author, peer, commit, body, ts)))
}

/// The patch a creation describes: open, with the given title, author,
/// target and time, each name of `names` once as a label, and one revision,
/// number 0, with the peer, the commit and the cover comment, and no
/// discussion, reviews or merges.
pub open spec fn created_patch(
    v: PatchView,
    author: Seq<char>,
    peer: Seq<char>,
    title: Seq<char>,
    body: Seq<char>,
    target: Seq<char>,
    commit: Seq<char>,
    ts: i64,
    names: Set<Seq<char>>,
) -> bool {
    &&& v.author == author
    &&& v.title == title
    &&& v.state == State::Open
    &&& v.target == target
    &&& v.timestamp == ts
    &&& v.labels.to_set() == names
    &&& forall|i: int, j: int| 0 <= i < v.labels.len() && 0 <= j < v.labels.len() && i != j ==> v.labels[i] != v.labels[j]
    &&& v.revisions == seq![RevisionView {
        author,
        peer,
        version: 0,
        commit,
        comment: CommentView { author, body, timestamp: ts },
        discussion: Seq::empty(),
        reviews: 0,
        merges: 0,
        timestamp: ts,
    }]
}

proof fn lemma_clean_keys(es: Seq<Entry>, k: int)
    requires
        0 <= k <= es.len(),
        forall|a: int, b: int| 0 <= a < es.len() && 0 <= b < es.len() && a != b ==> es[a].key@ != es[b].key@,
        forall|a: int| 0 <= a < es.len() ==> label_named(#[trigger] es[a].key@) == Some(es[a].key@),
    ensures
        labels_spec(es, k) == Ok::<Seq<Seq<char>>, ValidationError>(es.map_values(|e: Entry| e.key@).take(k)),
    decreases k,
{
    let keys = es.map_values(|e: Entry| e.key@);
    if k > 0 {
        lemma_clean_keys(es, k - 1);
        let ks = keys.take(k - 1);
        assert(label_named(es[k - 1].key@) == Some(es[k - 1].key@));
        assert(!ks.contains(keys[k - 1])) by {
            if ks.contains(keys[k - 1]) {
                let j = choose|j: int| 0 <= j < ks.len() && ks[j] == keys[k - 1];
                assert(es[j].key@ == es[k - 1].key@);
            }
        }
        assert(keys.take(k) =~= ks.push(keys[k - 1]));
    } else {
        assert(keys.take(0) =~= Seq::<Seq<char>>::empty());
    }
}

/// A document of the creation shape describes the created patch, given a
/// commit in canonical form and a one-level target.
pub proof fn creation_doc_projects(
    n: Node,
    author: Seq<char>,
    peer: Seq<char>,
    title: Seq<char>,
    body: Seq<char>,
    target: Seq<char>,
    commit: Seq<char>,
    ts: i64,
    names: Set<Seq<char>>,
)
    requires
        creation_doc(n, author, peer, title, body, target, commit, ts, names),
        parsed_oid(commit) == Some(commit),
        valid_target(target),
    ensures
        patch_spec(n) matches Ok(v) && created_patch(v, author, peer, title, body, target, commit, ts, names),
{
    let root = n->Object_0@;
    let pv = lookup(root, "patch"@)->Some_0->Object_0@;
    let rv = lookup(pv, "revisions"@)->Some_0->Array_0@;
    let rev = rv[0];
    let es = rev->Object_0@;
    let ces = lookup(es, "comment"@)->Some_0->Object_0@;
    let les = lookup(pv, "labels"@)->Some_0->Object_0@;
    let cv = CommentView { author, body, timestamp: ts };
    assert(comment_spec(ces) == Ok::<CommentView, ValidationError>(cv));
    let r = RevisionView {
        author,
        peer,
        version: 0,
        commit,
        comment: cv,
        discussion: Seq::empty(),
        reviews: 0,
        merges: 0,
        timestamp: ts,
    };
    let ds = lookup(es, "discussion"@)->Some_0->Array_0@;
    assert(ds =~= Seq::<Node>::empty());
    assert(threads_spec(ds, 0) == Ok::<Seq<ThreadView>, ValidationError>(Seq::empty()));
    assert(revision_spec(rev, 0) == Ok::<RevisionView, ValidationError>(r));
    assert(revisions_spec(rv, 0) == Ok::<Seq<RevisionView>, ValidationError>(Seq::empty()));
    assert(Seq::<RevisionView>::empty().push(r) =~= seq![r]);
    assert(revisions_spec(rv, 1) == Ok::<Seq<RevisionView>, ValidationError>(seq![r]));
    assert(state_spec(pv) == Ok::<State, ValidationError>(State::Open));
    assert(target_spec(pv) == Ok::<Seq<char>, ValidationError>(target));
    lemma_clean_keys(les, les.len() as int);
    let keys = les.map_values(|e: Entry| e.key@);
    assert(keys.take(les.len() as int) =~= keys);
    assert forall|i: int, j: int| 0 <= i < keys.len() && 0 <= j < keys.len() && i != j implies keys[i] != keys[j] by {
        assert(les[i].key@ != les[j].key@);
    }
}

fn is_text_at(es: &Vec<Entry>, key: &str, s: &str) -> (r: bool)
    ensures
        r ==> text_at(es@, key@, s@),
{
    match get_field(es, key) {
        Some(Node::Scalar(Scalar::Str(t))) => *t == String::from_str(s),
        _ => false,
    }
}

fn is_time_at(es: &Vec<Entry>, key: &str, ts: i64) -> (r: bool)
    ensures
        r ==> scalar_at(es@, key@, Scalar::Timestamp(ts)),
{
    match get_field(es, key) {
        Some(Node::Scalar(Scalar::Timestamp(t))) => *t == ts,
        _ => false,
    }
}

fn is_zero_at(es: &Vec<Entry>, key: &str) -> (r: bool)
    ensures
        r ==> scalar_at(es@, key@, Scalar::Uint(0)),
{
    match get_field(es, key) {
        Some(Node::Scalar(Scalar::Uint(v))) => *v == 0,
        _ => false,
    }
}

fn is_empty_object_at(es: &Vec<Entry>, key: &str) -> (r: bool)
    ensures
        r ==> empty_object_at(es@, key@),
{
    match get_field(es, key) {
        Some(Node::Object(v)) => v.len() == 0,
        _ => false,
    }
}

fn is_empty_array_at(es: &Vec<Entry>, key: &str) -> (r: bool)
    ensures
        r ==> empty_array_at(es@, key@),
{
    match get_field(es, key) {
        Some(Node::Array(v)) => v.len() == 0,
        _ => false,
    }
}

fn check_comment(n: &Node, author: &str, body: &str, ts: i64) -> (r: bool)
    ensures
        r ==> creation_comment(*n, author@, body@, ts),
{
    match n {
        Node::Object(v) => v.len() == 4 && is_text_at(v, "body", body) && is_text_at(v, "author", author)
            && is_time_at(v, "timestamp", ts) && is_empty_object_at(v, "reactions") && get_field(v, "replies").is_none(),
        _ => false,
    }
}

fn check_revision(n: &Node, author: &str, peer: &str, commit: &str, body: &str, ts: i64) -> (r: bool)
    ensures
        r ==> creation_revision(*n, author@, peer@, commit@, body@, ts),
{
    match n {
        Node::Object(v) => {
            let comment_ok = match get_field(v, "comment") {
                Some(c) => check_comment(c, author, body, ts),
                None => false,
            };
            v.len() == 9 && is_text_at(v, "author", author) && is_text_at(v, "peer", peer) && is_zero_at(v, "version")
                && is_text_at(v, "commit", commit) && comment_ok && is_empty_array_at(v, "discussion")
                && is_empty_object_at(v, "reviews") && is_empty_array_at(v, "merges") && is_time_at(v, "timestamp", ts)
        },
        _ => false,
    }
}

fn has_name(labels: &Vec<Label>, key: &String) -> (r: bool)
    ensures
        r == labels@.map_values(|l: Label| l.view()).contains(key@),
{
    let ghost names = labels@.map_values(|l: Label| l.view());
    let mut j: usize = 0;
    while j < labels.len()
        invariant
            0 <= j <= labels@.len(),
            names == labels@.map_values(|l: Label| l.view()),
            forall|k: int| 0 <= k < j ==> names[k] != key@,
        decreases labels.len() - j,
    {
        if String::from_str(labels[j].name()) == *key {
            assert(names[j as int] == key@);
            return true;
        }
        j = j + 1;
    }
    false
}

fn has_key(v: &Vec<Entry>, name: &str) -> (r: bool)
    ensures
        r == v@.map_values(|e: Entry| e.key@).contains(name@),
{
    let ghost keys = v@.map_values(|e: Entry| e.key@);
    let k = String::from_str(name);
    let mut j: usize = 0;
    while j < v.len()
        invariant
            0 <= j <= v@.len(),
            k@ == name@,
            keys == v@.map_values(|e: Entry| e.key@),
            forall|i: int| 0 <= i < j ==> keys[i] != name@,
        decreases v.len() - j,
    {
        if v[j].key == k {
            assert(keys[j as int] == name@);
            return true;
        }
        j = j + 1;
    }
    false
}

fn check_labels(n: &Node, labels: &Vec<Label>) -> (r: bool)
    ensures
        r ==> creation_labels(*n, labels@.map_values(|l: Label| l.view()).to_set()),
{
    let ghost names = labels@.map_values(|l: Label| l.view());
    match n {
        Node::Object(v) => {
            let ghost keys = v@.map_values(|e: Entry| e.key@);
            let mut a: usize = 0;
            while a < v.len()
                invariant
                    0 <= a <= v@.len(),
                    keys == v@.map_values(|e: Entry| e.key@),
                    names == labels@.map_values(|l: Label| l.view()),
                    forall|x: int, y: int| 0 <= x < a && 0 <= y < v@.len() && x != y ==> v@[x].key@ != v@[y].key@,
                    forall|x: int| 0 <= x < a ==> label_named(#[trigger] v@[x].key@) == Some(v@[x].key@)
                        && v@[x].value == Node::Scalar(Scalar::Boolean(true)),
                    forall|x: int| 0 <= x < a ==> names.contains(#[trigger] keys[x]),
                decreases v.len() - a,
            {
                let e = &v[a];
                let clean = match Label::new(e.key.as_str()) {
                    Ok(l) => String::from_str(l.name()) == e.key,
                    Err(_) => false,
                };
                if !clean || !(matches!(e.value, Node::Scalar(Scalar::Boolean(true)))) || !has_name(labels, &e.key) {
                    return false;
                }
                assert(keys[a as int] == e.key@);
                let mut b: usize = 0;
                while b < v.len()
                    invariant
                        0 <= b <= v@.len(),
                        0 <= a < v@.len(),
                        e == &v@[a as int],
                        forall|y: int| 0 <= y < b && y != a ==> v@[a as int].key@ != v@[y].key@,
                    decreases v.len() - b,
                {
                    if b != a && v[b].key == e.key {
                        return false;
                    }
                    b = b + 1;
                }
                a = a + 1;
            }
            let mut j: usize = 0;
            while j < labels.len()
                invariant
                    0 <= j <= labels@.len(),
                    keys == v@.map_values(|e: Entry| e.key@),
                    names == labels@.map_values(|l: Label| l.view()),
                    forall|x: int| 0 <= x < j ==> keys.contains(#[trigger] names[x]),
                decreases labels.len() - j,
            {
                if !has_key(v, labels[j].name()) {
                    return false;
                }
                j = j + 1;
            }
            assert(keys.to_set() =~= names.to_set()) by {
                assert forall|x: Seq<char>| keys.contains(x) implies names.contains(x) by {
                    let i = choose|i: int| 0 <= i < keys.len() && keys[i] == x;
                    assert(names.contains(keys[i]));
                }
                assert forall|x: Seq<char>| names.contains(x) implies keys.contains(x) by {
                    let i = choose|i: int| 0 <= i < names.len() && names[i] == x;
                    assert(keys.contains(names[i]));
                }
            }
            true
        },
        _ => false,
    }
}

/// Whether a tree has the creation shape for these inputs.
pub fn check_creation(
    t: &Node,
    author: &str,
    peer: &str,
    title: &str,
    body: &str,
    target: &str,
    commit: &str,
    ts: i64,
    labels: &Vec<Label>,
) -> (r: bool)
    ensures
        r ==> creation_doc(*t, author@, peer@, title@, body@, target@, commit@, ts,
            labels@.map_values(|l: Label| l.view()).to_set()),
{
    match t {
        Node::Object(root) => {
            if root.len() != 1 {
                return false;
            }
            match get_field(root, "patch") {
                Some(Node::Object(pv)) => {
                    let labels_ok = match get_field(pv, "labels") {
                        Some(l) => check_labels(l, labels),
                        None => false,
                    };
                    let revisions_ok = match get_field(pv, "revisions") {
                        Some(Node::Array(rv)) => rv.len() == 1 && check_revision(&rv[0], author, peer, commit, body, ts),
                        _ => false,
                    };
                    pv.len() == 7 && is_text_at(pv, "title", title) && is_text_at(pv, "author", author)
                        && is_text_at(pv, "state", "open") && is_text_at(pv, "target", target)
                        && is_time_at(pv, "timestamp", ts) && labels_ok && revisions_ok
                },
                _ => false,
            }
        },
        _ => false,
    }
}

} // verus!
