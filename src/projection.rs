//! The projection of a materialized document onto the patch model. It reads
//! fixed paths of the document, checks every field it needs, and never puts
//! a default in place of a missing or ill-typed value.

use vstd::prelude::*;

use crate::doc::{get_field, lookup, Entry, Node, Scalar};
use crate::error::{Field, ValidationError};
use crate::laws::projected_patch_wf;
use crate::types::{
    is_valid_target, one_review_per_author, valid_target, label_named, nonempty_from_vec, parsed_oid, patch_view_wf, state_named, Author, Comment, CommentView, Label, Oid, Patch,
    PatchView, PeerId, Revision, RevisionView, State, Thread, ThreadView, Timestamp,
};

verus! {

/// The node stored under `key`, or which field is missing.
pub open spec fn field_spec(es: Seq<Entry>, key: Seq<char>, f: Field) -> Result<Node, ValidationError> {
    match lookup(es, key) {
        Some(n) => Ok(n),
        None => Err(ValidationError::Missing(f)),
    }
}

/// The string stored under `key`.
pub open spec fn str_spec(es: Seq<Entry>, key: Seq<char>, f: Field) -> Result<Seq<char>, ValidationError> {
    match field_spec(es, key, f) {
        Ok(Node::Scalar(Scalar::Str(s))) => Ok(s@),
        Ok(_) => Err(ValidationError::WrongType(f)),
        Err(e) => Err(e),
    }
}

/// The timestamp stored under `key`.
pub open spec fn time_spec(es: Seq<Entry>, key: Seq<char>, f: Field) -> Result<i64, ValidationError> {
    match field_spec(es, key, f) {
        Ok(Node::Scalar(Scalar::Timestamp(t))) => Ok(t),
        Ok(_) => Err(ValidationError::WrongType(f)),
        Err(e) => Err(e),
    }
}

/// The unsigned integer stored under `key`.
pub open spec fn uint_spec(es: Seq<Entry>, key: Seq<char>, f: Field) -> Result<u64, ValidationError> {
    match field_spec(es, key, f) {
        Ok(Node::Scalar(Scalar::Uint(v))) => Ok(v),
        Ok(_) => Err(ValidationError::WrongType(f)),
        Err(e) => Err(e),
    }
}

/// The entries of the map stored under `key`.
pub open spec fn object_spec(es: Seq<Entry>, key: Seq<char>, f: Field) -> Result<Seq<Entry>, ValidationError> {
    match field_spec(es, key, f) {
        Ok(Node::Object(v)) => Ok(v@),
        Ok(_) => Err(ValidationError::WrongType(f)),
        Err(e) => Err(e),
    }
}

/// The elements of the list stored under `key`.
pub open spec fn array_spec(es: Seq<Entry>, key: Seq<char>, f: Field) -> Result<Seq<Node>, ValidationError> {
    match field_spec(es, key, f) {
        Ok(Node::Array(v)) => Ok(v@),
        Ok(_) => Err(ValidationError::WrongType(f)),
        Err(e) => Err(e),
    }
}

/// A comment read from the entries of its map.
pub open spec fn comment_spec(es: Seq<Entry>) -> Result<CommentView, ValidationError> {
    match str_spec(es, "author"@, Field::Author) {
        Err(e) => Err(e),
        Ok(author) => match str_spec(es, "body"@, Field::Body) {
            Err(e) => Err(e),
            Ok(body) => match time_spec(es, "timestamp"@, Field::Timestamp) {
                Err(e) => Err(e),
                Ok(timestamp) => Ok(CommentView { author, body, timestamp }),
            },
        },
    }
}

/// A comment read from a node, which must be a map.
pub open spec fn comment_node_spec(n: Node) -> Result<CommentView, ValidationError> {
    match n {
        Node::Object(es) => comment_spec(es@),
        _ => Err(ValidationError::WrongType(Field::Comment)),
    }
}

/// The first `k` replies of a list, or the first error among them.
pub open spec fn replies_spec(items: Seq<Node>, k: int) -> Result<Seq<CommentView>, ValidationError>
    decreases k,
{
    if k <= 0 {
        Ok(Seq::empty())
    } else {
        match replies_spec(items, k - 1) {
            Err(e) => Err(e),
            Ok(cs) => match comment_node_spec(items[k - 1]) {
                Err(e) => Err(e),
                Ok(c) => Ok(cs.push(c)),
            },
        }
    }
}

/// A discussion thread read from a node: a comment map with a `replies` list.
pub open spec fn thread_spec(n: Node) -> Result<ThreadView, ValidationError> {
    match n {
        Node::Object(es) => match comment_spec(es@) {
            Err(e) => Err(e),
            Ok(comment) => match array_spec(es@, "replies"@, Field::Replies) {
                Err(e) => Err(e),
                Ok(items) => match replies_spec(items, items.len() as int) {
                    Err(e) => Err(e),
                    Ok(replies) => Ok(ThreadView { comment, replies }),
                },
            },
        },
        _ => Err(ValidationError::WrongType(Field::Comment)),
    }
}

/// The first `k` threads of a discussion list, or the first error among them.
pub open spec fn threads_spec(items: Seq<Node>, k: int) -> Result<Seq<ThreadView>, ValidationError>
    decreases k,
{
    if k <= 0 {
        Ok(Seq::empty())
    } else {
        match threads_spec(items, k - 1) {
            Err(e) => Err(e),
            Ok(ts) => match thread_spec(items[k - 1]) {
                Err(e) => Err(e),
                Ok(t) => Ok(ts.push(t)),
            },
        }
    }
}

/// The revision at position `ix` of the revision list, read from its node.
/// Its stored version must equal `ix`. Reviews and merges are required to be
/// present, as a map and a list, but their entries are not read: the revision
/// is given none.
pub open spec fn revision_spec(n: Node, ix: int) -> Result<RevisionView, ValidationError> {
    match n {
        Node::Object(v) => {
            let es = v@;
            match object_spec(es, "comment"@, Field::Comment) {
                Err(e) => Err(e),
                Ok(ces) => match array_spec(es, "discussion"@, Field::Discussion) {
                    Err(e) => Err(e),
                    Ok(ds) => match object_spec(es, "reviews"@, Field::Reviews) {
                        Err(e) => Err(e),
                        Ok(_) => match array_spec(es, "merges"@, Field::Merges) {
                            Err(e) => Err(e),
                            Ok(_) => match str_spec(es, "author"@, Field::Author) {
                                Err(e) => Err(e),
                                Ok(author) => match str_spec(es, "peer"@, Field::Peer) {
                                    Err(e) => Err(e),
                                    Ok(peer) => match str_spec(es, "commit"@, Field::Commit) {
                                        Err(e) => Err(e),
                                        Ok(commit_text) => match uint_spec(es, "version"@, Field::Version) {
                                            Err(e) => Err(e),
                                            Ok(version) => match time_spec(es, "timestamp"@, Field::Timestamp) {
                                                Err(e) => Err(e),
                                                Ok(timestamp) => revision_rest_spec(
                                                    ces, ds, author, peer, commit_text, version, timestamp, ix),
                                            },
                                        },
                                    },
                                },
                            },
                        },
                    },
                },
            }
        },
        _ => Err(ValidationError::WrongType(Field::Revision)),
    }
}

/// The checks of a revision that follow the reading of its fields.
pub open spec fn revision_rest_spec(
    ces: Seq<Entry>,
    ds: Seq<Node>,
    author: Seq<char>,
    peer: Seq<char>,
    commit_text: Seq<char>,
    version: u64,
    timestamp: i64,
    ix: int,
) -> Result<RevisionView, ValidationError> {
    match comment_spec(ces) {
        Err(e) => Err(e),
        Ok(comment) => match threads_spec(ds, ds.len() as int) {
            Err(e) => Err(e),
            Ok(discussion) => match parsed_oid(commit_text) {
                None => Err(ValidationError::InvalidValue(Field::Commit)),
                Some(commit) => if version as int != ix {
                    Err(ValidationError::VersionMismatch { index: ix as usize, found: version })
                } else {
                    Ok(RevisionView {
                        author,
                        peer,
                        version: ix as nat,
                        commit,
                        comment,
                        discussion,
                        reviews: 0,
                        merges: 0,
                        timestamp,
                    })
                },
            },
        },
    }
}

/// The first `k` revisions of the revision list, or the first error among
/// them.
pub open spec fn revisions_spec(items: Seq<Node>, k: int) -> Result<Seq<RevisionView>, ValidationError>
    decreases k,
{
    if k <= 0 {
        Ok(Seq::empty())
    } else {
        match revisions_spec(items, k - 1) {
            Err(e) => Err(e),
            Ok(rs) => match revision_spec(items[k - 1], k - 1) {
                Err(e) => Err(e),
                Ok(r) => Ok(rs.push(r)),
            },
        }
    }
}

/// The labels named by the first `k` keys of the label map, each name once,
/// in the order first met; or the error of the first key that names none.
pub open spec fn labels_spec(es: Seq<Entry>, k: int) -> Result<Seq<Seq<char>>, ValidationError>
    decreases k,
{
    if k <= 0 {
        Ok(Seq::empty())
    } else {
        match labels_spec(es, k - 1) {
            Err(e) => Err(e),
            Ok(ls) => match label_named(es[k - 1].key@) {
                None => Err(ValidationError::EmptyLabel),
                Some(name) => if ls.contains(name) {
                    Ok(ls)
                } else {
                    Ok(ls.push(name))
                },
            },
        }
    }
}

/// The state stored under `state`.
pub open spec fn state_spec(es: Seq<Entry>) -> Result<State, ValidationError> {
    match field_spec(es, "state"@, Field::State) {
        Ok(Node::Scalar(Scalar::Str(s))) => match state_named(s@) {
            Some(st) => Ok(st),
            None => Err(ValidationError::InvalidValue(Field::State)),
        },
        Ok(_) => Err(ValidationError::WrongType(Field::State)),
        Err(e) => Err(e),
    }
}

/// The target branch stored under `target`: a one-level branch name.
pub open spec fn target_spec(es: Seq<Entry>) -> Result<Seq<char>, ValidationError> {
    match str_spec(es, "target"@, Field::Target) {
        Err(e) => Err(e),
        Ok(t) => if valid_target(t) {
            Ok(t)
        } else {
            Err(ValidationError::InvalidValue(Field::Target))
        },
    }
}

/// The patch that a materialized document describes, or the first reason
/// why it describes none.
pub open spec fn patch_spec(doc: Node) -> Result<PatchView, ValidationError> {
    match doc {
        Node::Object(root) => match object_spec(root@, "patch"@, Field::Patch) {
            Err(e) => Err(e),
            Ok(es) => patch_fields_spec(es),
        },
        _ => Err(ValidationError::WrongType(Field::Patch)),
    }
}

/// The patch read from the entries of the document's `patch` map.
pub open spec fn patch_fields_spec(es: Seq<Entry>) -> Result<PatchView, ValidationError> {
    match str_spec(es, "title"@, Field::Title) {
        Err(e) => Err(e),
        Ok(title) => match str_spec(es, "author"@, Field::Author) {
            Err(e) => Err(e),
            Ok(author) => match state_spec(es) {
                Err(e) => Err(e),
                Ok(state) => match target_spec(es) {
                    Err(e) => Err(e),
                    Ok(target) => match time_spec(es, "timestamp"@, Field::Timestamp) {
                        Err(e) => Err(e),
                        Ok(timestamp) => match object_spec(es, "labels"@, Field::Labels) {
                            Err(e) => Err(e),
                            Ok(les) => match array_spec(es, "revisions"@, Field::Revisions) {
                                Err(e) => Err(e),
                                Ok(items) => match revisions_spec(items, items.len() as int) {
                                    Err(e) => Err(e),
                                    Ok(revisions) => if revisions.len() == 0 {
                                        Err(ValidationError::NoRevisions)
                                    } else {
                                        match labels_spec(les, les.len() as int) {
                                            Err(e) => Err(e),
                                            Ok(labels) => Ok(PatchView {
                                                author,
                                                title,
                                                state,
                                                target,
                                                labels,
                                                revisions,
                                                timestamp,
                                            }),
                                        }
                                    },
                                },
                            },
                        },
                    },
                },
            },
        },
    }
}

/// The exec result `r` agrees with the spec result `s` under the view `f`.
pub open spec fn agrees<T, V>(r: Result<T, ValidationError>, s: Result<V, ValidationError>, f: spec_fn(T) -> V) -> bool {
    match r {
        Ok(x) => s == Ok::<V, ValidationError>(f(x)),
        Err(e) => s == Err::<V, ValidationError>(e),
    }
}


/// Once the first `k` replies hold an error, every longer prefix holds it.
proof fn lemma_replies_err_stays(items: Seq<Node>, k: int, m: int)
    requires
        0 <= k <= m,
        replies_spec(items, k) is Err,
    ensures
        replies_spec(items, m) == replies_spec(items, k),
    decreases m - k,
{
    if m > k {
        lemma_replies_err_stays(items, k, m - 1);
    }
}

/// Once the first `k` threads hold an error, every longer prefix holds it.
proof fn lemma_threads_err_stays(items: Seq<Node>, k: int, m: int)
    requires
        0 <= k <= m,
        threads_spec(items, k) is Err,
    ensures
        threads_spec(items, m) == threads_spec(items, k),
    decreases m - k,
{
    if m > k {
        lemma_threads_err_stays(items, k, m - 1);
    }
}

/// Once the first `k` revisions hold an error, every longer prefix holds it.
proof fn lemma_revisions_err_stays(items: Seq<Node>, k: int, m: int)
    requires
        0 <= k <= m,
        revisions_spec(items, k) is Err,
    ensures
        revisions_spec(items, m) == revisions_spec(items, k),
    decreases m - k,
{
    if m > k {
        lemma_revisions_err_stays(items, k, m - 1);
    }
}

/// Once the first `k` label keys hold an error, every longer prefix holds it.
proof fn lemma_labels_err_stays(es: Seq<Entry>, k: int, m: int)
    requires
        0 <= k <= m,
        labels_spec(es, k) is Err,
    ensures
        labels_spec(es, m) == labels_spec(es, k),
    decreases m - k,
{
    if m > k {
        lemma_labels_err_stays(es, k, m - 1);
    }
}

fn field<'a>(es: &'a Vec<Entry>, key: &str, f: Field) -> (r: Result<&'a Node, ValidationError>)
    ensures
        agrees(r, field_spec(es@, key@, f), |n: &Node| *n),
{
    match get_field(es, key) {
        Some(n) => Ok(n),
        None => Err(ValidationError::Missing(f)),
    }
}

fn str_field(es: &Vec<Entry>, key: &str, f: Field) -> (r: Result<String, ValidationError>)
    ensures
        agrees(r, str_spec(es@, key@, f), |s: String| s@),
{
    match field(es, key, f)? {
        Node::Scalar(Scalar::Str(s)) => Ok(s.clone()),
        _ => Err(ValidationError::WrongType(f)),
    }
}

fn time_field(es: &Vec<Entry>, key: &str, f: Field) -> (r: Result<i64, ValidationError>)
    ensures
        agrees(r, time_spec(es@, key@, f), |t: i64| t),
{
    match field(es, key, f)? {
        Node::Scalar(Scalar::Timestamp(t)) => Ok(*t),
        _ => Err(ValidationError::WrongType(f)),
    }
}

fn uint_field(es: &Vec<Entry>, key: &str, f: Field) -> (r: Result<u64, ValidationError>)
    ensures
        agrees(r, uint_spec(es@, key@, f), |v: u64| v),
{
    match field(es, key, f)? {
        Node::Scalar(Scalar::Uint(v)) => Ok(*v),
        _ => Err(ValidationError::WrongType(f)),
    }
}

fn object_field<'a>(es: &'a Vec<Entry>, key: &str, f: Field) -> (r: Result<&'a Vec<Entry>, ValidationError>)
    ensures
        agrees(r, object_spec(es@, key@, f), |v: &Vec<Entry>| v@),
{
    match field(es, key, f)? {
        Node::Object(v) => Ok(v),
        _ => Err(ValidationError::WrongType(f)),
    }
}

fn array_field<'a>(es: &'a Vec<Entry>, key: &str, f: Field) -> (r: Result<&'a Vec<Node>, ValidationError>)
    ensures
        agrees(r, array_spec(es@, key@, f), |v: &Vec<Node>| v@),
{
    match field(es, key, f)? {
        Node::Array(v) => Ok(v),
        _ => Err(ValidationError::WrongType(f)),
    }
}

/// Reads a comment from the entries of its map.
pub fn comment(es: &Vec<Entry>) -> (r: Result<Comment, ValidationError>)
    ensures
        agrees(r, comment_spec(es@), |c: Comment| c.view()),
{
    let author = str_field(es, "author", Field::Author)?;
    let body = str_field(es, "body", Field::Body)?;
    let timestamp = time_field(es, "timestamp", Field::Timestamp)?;
    Ok(Comment { author: Author::new(author), body, timestamp: Timestamp::new(timestamp) })
}

fn comment_node(n: &Node) -> (r: Result<Comment, ValidationError>)
    ensures
        agrees(r, comment_node_spec(*n), |c: Comment| c.view()),
{
    match n {
        Node::Object(es) => comment(es),
        _ => Err(ValidationError::WrongType(Field::Comment)),
    }
}

fn replies(items: &Vec<Node>) -> (r: Result<Vec<Comment>, ValidationError>)
    ensures
        agrees(r, replies_spec(items@, items@.len() as int), |v: Vec<Comment>| v@.map_values(|c: Comment| c.view())),
{
    let mut out: Vec<Comment> = Vec::new();
    let mut i: usize = 0;
    assert(out@.map_values(|x: Comment| x.view()) =~= Seq::<CommentView>::empty());
    while i < items.len()
        invariant
            0 <= i <= items@.len(),
            replies_spec(items@, i as int) == Ok::<Seq<CommentView>, ValidationError>(out@.map_values(|c: Comment| c.view())),
        decreases items.len() - i,
    {
        let c = match comment_node(&items[i]) {
            Ok(x) => x,
            Err(e) => {
                proof {
                    lemma_replies_err_stays(items@, i + 1, items@.len() as int);
                }
                return Err(e);
            },
        };
        let ghost before = out@;
        out.push(c);
        assert(out@.map_values(|c: Comment| c.view()) =~= before.map_values(|c: Comment| c.view()).push(c.view()));
        i = i + 1;
    }
    Ok(out)
}

/// Reads a discussion thread from its node: a comment map with a list of
/// replies.
pub fn thread(n: &Node) -> (r: Result<Thread, ValidationError>)
    ensures
        agrees(r, thread_spec(*n), |t: Thread| t.view()),
{
    match n {
        Node::Object(es) => {
            let c = comment(es)?;
            let items = array_field(es, "replies", Field::Replies)?;
            let rs = replies(items)?;
            Ok(Thread { comment: c, replies: rs })
        },
        _ => Err(ValidationError::WrongType(Field::Comment)),
    }
}

fn threads(items: &Vec<Node>) -> (r: Result<Vec<Thread>, ValidationError>)
    ensures
        agrees(r, threads_spec(items@, items@.len() as int), |v: Vec<Thread>| v@.map_values(|t: Thread| t.view())),
{
    let mut out: Vec<Thread> = Vec::new();
    let mut i: usize = 0;
    assert(out@.map_values(|x: Thread| x.view()) =~= Seq::<ThreadView>::empty());
    while i < items.len()
        invariant
            0 <= i <= items@.len(),
            threads_spec(items@, i as int) == Ok::<Seq<ThreadView>, ValidationError>(out@.map_values(|t: Thread| t.view())),
        decreases items.len() - i,
    {
        let t = match thread(&items[i]) {
            Ok(x) => x,
            Err(e) => {
                proof {
                    lemma_threads_err_stays(items@, i + 1, items@.len() as int);
                }
                return Err(e);
            },
        };
        let ghost before = out@;
        out.push(t);
        assert(out@.map_values(|t: Thread| t.view()) =~= before.map_values(|t: Thread| t.view()).push(t.view()));
        i = i + 1;
    }
    Ok(out)
}

/// Reads the revision at position `ix` of the revision list from its node.
pub fn revision(n: &Node, ix: usize) -> (r: Result<Revision, ValidationError>)
    ensures
        agrees(r, revision_spec(*n, ix as int), |x: Revision| x.view()),
        r matches Ok(x) ==> one_review_per_author(x.reviews@),
{
    match n {
        Node::Object(es) => {
            let ces = object_field(es, "comment", Field::Comment)?;
            let ds = array_field(es, "discussion", Field::Discussion)?;
            let _reviews = object_field(es, "reviews", Field::Reviews)?;
            let _merges = array_field(es, "merges", Field::Merges)?;
            let author = str_field(es, "author", Field::Author)?;
            let peer = str_field(es, "peer", Field::Peer)?;
            let commit_text = str_field(es, "commit", Field::Commit)?;
            let version = uint_field(es, "version", Field::Version)?;
            let timestamp = time_field(es, "timestamp", Field::Timestamp)?;
            let comment = comment(ces)?;
            let discussion = threads(ds)?;
            let commit = match Oid::from_str(commit_text.as_str()) {
                Some(o) => o,
                None => {
                    return Err(ValidationError::InvalidValue(Field::Commit));
                },
            };
            if version != ix as u64 {
                return Err(ValidationError::VersionMismatch { index: ix, found: version });
            }
            let r = Revision {
                author: Author::new(author),
                peer: PeerId::new(peer),
                version: ix,
                commit,
                comment,
                discussion,
                reviews: Vec::new(),
                merges: Vec::new(),
                timestamp: Timestamp::new(timestamp),
            };
            Ok(r)
        },
        _ => Err(ValidationError::WrongType(Field::Revision)),
    }
}

fn revisions(items: &Vec<Node>) -> (r: Result<Vec<Revision>, ValidationError>)
    ensures
        agrees(r, revisions_spec(items@, items@.len() as int), |v: Vec<Revision>| v@.map_values(|x: Revision| x.view())),
{
    let mut out: Vec<Revision> = Vec::new();
    let mut i: usize = 0;
    assert(out@.map_values(|x: Revision| x.view()) =~= Seq::<RevisionView>::empty());
    while i < items.len()
        invariant
            0 <= i <= items@.len(),
            revisions_spec(items@, i as int) == Ok::<Seq<RevisionView>, ValidationError>(out@.map_values(|x: Revision| x.view())),
        decreases items.len() - i,
    {
        let x = match revision(&items[i], i) {
            Ok(x) => x,
            Err(e) => {
                proof {
                    lemma_revisions_err_stays(items@, i + 1, items@.len() as int);
                }
                return Err(e);
            },
        };
        let ghost before = out@;
        out.push(x);
        assert(out@.map_values(|x: Revision| x.view()) =~= before.map_values(|x: Revision| x.view()).push(x.view()));
        i = i + 1;
    }
    Ok(out)
}

fn contains_label(ls: &Vec<Label>, l: &Label) -> (r: bool)
    ensures
        r == ls@.map_values(|x: Label| x.view()).contains(l.view()),
{
    let ghost names = ls@.map_values(|x: Label| x.view());
    let mut i: usize = 0;
    while i < ls.len()
        invariant
            0 <= i <= ls@.len(),
            names == ls@.map_values(|x: Label| x.view()),
            forall|j: int| 0 <= j < i ==> names[j] != l.view(),
        decreases ls.len() - i,
    {
        if ls[i].same_name(l) {
            assert(names[i as int] == l.view());
            return true;
        }
        i = i + 1;
    }
    false
}

fn labels(es: &Vec<Entry>) -> (r: Result<Vec<Label>, ValidationError>)
    ensures
        agrees(r, labels_spec(es@, es@.len() as int), |v: Vec<Label>| v@.map_values(|x: Label| x.view())),
{
    let mut out: Vec<Label> = Vec::new();
    let mut i: usize = 0;
    assert(out@.map_values(|x: Label| x.view()) =~= Seq::<Seq<char>>::empty());
    while i < es.len()
        invariant
            0 <= i <= es@.len(),
            labels_spec(es@, i as int) == Ok::<Seq<Seq<char>>, ValidationError>(out@.map_values(|x: Label| x.view())),
        decreases es.len() - i,
    {
        let l = match Label::new(es[i].key.as_str()) {
            Ok(l) => l,
            Err(e) => {
                proof {
                    lemma_labels_err_stays(es@, i + 1, es@.len() as int);
                }
                return Err(e);
            },
        };
        if !contains_label(&out, &l) {
            let ghost before = out@;
            out.push(l);
            assert(out@.map_values(|x: Label| x.view()) =~= before.map_values(|x: Label| x.view()).push(l.view()));
        }
        i = i + 1;
    }
    Ok(out)
}

/// Projects a materialized document onto a patch. Every field of the schema
/// is read and checked; the first field that is missing or ill-typed, a
/// state name outside the closed set, a target that is no one-level branch
/// name, a label that trims to nothing, a
/// commit that is no object id, or a revision whose stored version is not
/// its position, is reported, and nothing is made up in its place.
pub fn project(doc: &Node) -> (r: Result<Patch, ValidationError>)
    ensures
        agrees(r, patch_spec(*doc), |p: Patch| p.view()),
        r matches Ok(p) ==> patch_view_wf(p.view()),
{
    proof {
        projected_patch_wf(*doc);
    }
    match doc {
        Node::Object(root) => {
            let es = object_field(root, "patch", Field::Patch)?;
            let title = str_field(es, "title", Field::Title)?;
            let author = str_field(es, "author", Field::Author)?;
            let state = match field(es, "state", Field::State)? {
                Node::Scalar(s) => State::try_from_scalar(s)?,
                _ => {
                    return Err(ValidationError::WrongType(Field::State));
                },
            };
            let target = str_field(es, "target", Field::Target)?;
            if !is_valid_target(target.as_str()) {
                return Err(ValidationError::InvalidValue(Field::Target));
            }
            let timestamp = time_field(es, "timestamp", Field::Timestamp)?;
            let les = object_field(es, "labels", Field::Labels)?;
            let items = array_field(es, "revisions", Field::Revisions)?;
            let revisions = match nonempty_from_vec(revisions(items)?) {
                Some(ne) => ne,
                None => {
                    return Err(ValidationError::NoRevisions);
                },
            };
            let labels = labels(les)?;
            let p = Patch {
                author: Author::new(author),
                title,
                state,
                target,
                labels,
                revisions,
                timestamp: Timestamp::new(timestamp),
            };
            Ok(p)
        },
        _ => Err(ValidationError::WrongType(Field::Patch)),
    }
}

} // verus!
