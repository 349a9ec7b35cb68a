//! The creation event: the document that seeds a new patch, with its whole
//! nested schema, and its encoding as a single change.

use vstd::prelude::*;

use crate::creation::{
    check_creation, created_patch, creation_comment, creation_doc, creation_doc_projects, creation_labels,
    creation_revision,
};
use crate::doc::{lookup, Entry, Node, Scalar};
use crate::engine::{
    apply_encoded, change_message, change_parses, changes_of, encode_change, materialize, messages_of, new_document,
    replayed_tree,
};
use crate::error::{Error, Field, ValidationError};
use crate::projection::patch_spec;
use crate::store::history_patch;
use crate::types::{
    is_valid_target, label_named, trim, trimmed, valid_target, Author, Label, Oid, PeerId, State, Timestamp,
};

verus! {

/// Whether `b` is the change that creates a patch from these inputs: it
/// decodes, carries the message `Create patch`, and a document handed it
/// alone holds the creation document of the trimmed title and description.
pub open spec fn created_change(
    b: Seq<u8>,
    author: Seq<char>,
    peer: Seq<char>,
    title: Seq<char>,
    description: Seq<char>,
    target: Seq<char>,
    commit: Seq<char>,
    ts: i64,
    names: Set<Seq<char>>,
) -> bool {
    &&& b.len() > 0
    &&& change_parses(b)
    &&& change_message(b) == Some(CREATE_MESSAGE@)
    &&& creation_doc(replayed_tree(seq![b]), author, peer, trimmed(title), trimmed(description), target, commit, ts, names)
}

/// The message of the change that creates a patch.
pub const CREATE_MESSAGE: &'static str = "Create patch";

/// The names of a sequence of labels, each once, in the order first met,
/// among the first `k`.
pub open spec fn distinct_names(names: Seq<Seq<char>>, k: int) -> Seq<Seq<char>>
    decreases k,
{
    if k <= 0 {
        Seq::empty()
    } else {
        let d = distinct_names(names, k - 1);
        if d.contains(names[k - 1]) {
            d
        } else {
            d.push(names[k - 1])
        }
    }
}

fn entry(key: &str, value: Node) -> (r: Entry)
    ensures
        r.key@ == key@,
        r.value == value,
{
    Entry { key: String::from_str(key), value }
}

fn text(s: &str) -> (r: Node)
    ensures
        r matches Node::Scalar(Scalar::Str(t)) && t@ == s@,
{
    Node::Scalar(Scalar::Str(String::from_str(s)))
}

/// The label map of a creation event: one key per distinct label name, each
/// mapped to `true`.
fn label_entries(labels: &Vec<Label>) -> (r: Vec<Entry>)
    ensures
        r@.map_values(|e: Entry| e.key@) == distinct_names(
            labels@.map_values(|l: Label| l.view()),
            labels@.len() as int,
        ),
        forall|a: int, b: int| 0 <= a < r@.len() && 0 <= b < r@.len() && a != b ==> r@[a].key@ != r@[b].key@,
        forall|a: int| 0 <= a < r@.len() ==> label_named(#[trigger] r@[a].key@) == Some(r@[a].key@),
        forall|a: int| 0 <= a < r@.len() ==> (#[trigger] r@[a]).value == Node::Scalar(Scalar::Boolean(true)),
{
    let ghost names = labels@.map_values(|l: Label| l.view());
    let mut out: Vec<Entry> = Vec::new();
    let mut i: usize = 0;
    assert(out@.map_values(|e: Entry| e.key@) =~= Seq::<Seq<char>>::empty());
    while i < labels.len()
        invariant
            0 <= i <= labels@.len(),
            names == labels@.map_values(|l: Label| l.view()),
            out@.map_values(|e: Entry| e.key@) == distinct_names(names, i as int),
            forall|a: int, b: int| 0 <= a < out@.len() && 0 <= b < out@.len() && a != b ==> out@[a].key@ != out@[b].key@,
            forall|a: int| 0 <= a < out@.len() ==> label_named(#[trigger] out@[a].key@) == Some(out@[a].key@),
            forall|a: int| 0 <= a < out@.len() ==> (#[trigger] out@[a]).value == Node::Scalar(Scalar::Boolean(true)),
        decreases labels.len() - i,
    {
        let label = &labels[i];
        proof {
            use_type_invariant(label);
        }
        let name = String::from_str(label.name());
        let ghost keys = out@.map_values(|e: Entry| e.key@);
        let mut j: usize = 0;
        let mut seen = false;
        while j < out.len()
            invariant
                0 <= j <= out@.len(),
                keys == out@.map_values(|e: Entry| e.key@),
                seen == exists|k: int| 0 <= k < j && keys[k] == name@,
            decreases out.len() - j,
        {
            assert(keys[j as int] == out@[j as int].key@);
            if out[j].key == name {
                seen = true;
            }
            j = j + 1;
        }
        assert(seen == keys.contains(name@));
        if !seen {
            assert forall|a: int| 0 <= a < out@.len() implies out@[a].key@ != name@ by {
                assert(keys[a] == out@[a].key@);
            }
            out.push(Entry { key: name, value: Node::Scalar(Scalar::Boolean(true)) });
            assert(out@.map_values(|e: Entry| e.key@) =~= keys.push(name@));
        }
        i = i + 1;
    }
    out
}

/// Builds the document that seeds a new patch: the patch map with its title,
/// author, state `open`, target, creation time, label map and revision list,
/// whose one revision, version 0, holds the commit, a cover comment with the
/// description (which has no replies), and empty discussion, review and merge
/// containers. Fails, building nothing, where the title is blank or, failing
/// that, where the target is no one-level branch name.
pub fn create_document(
    author: &Author,
    peer: &PeerId,
    title: &str,
    description: &str,
    target: &str,
    commit: &Oid,
    timestamp: Timestamp,
    labels: &Vec<Label>,
) -> (r: Result<Node, ValidationError>)
    ensures
        match r {
            Ok(doc) => {
                &&& trimmed(title@).len() > 0
                &&& valid_target(target@)
                &&& doc is Object
                &&& creation_doc(
                    doc,
                    author.view(),
                    peer.view(),
                    trimmed(title@),
                    trimmed(description@),
                    target@,
                    commit.view(),
                    timestamp.seconds,
                    labels@.map_values(|l: Label| l.view()).to_set(),
                )
                &&& patch_spec(doc) matches Ok(v) && created_patch(
                    v,
                    author.view(),
                    peer.view(),
                    trimmed(title@),
                    trimmed(description@),
                    target@,
                    commit.view(),
                    timestamp.seconds,
                    labels@.map_values(|l: Label| l.view()).to_set(),
                )
            },
            Err(e) => if trimmed(title@).len() == 0 {
                e == ValidationError::EmptyTitle
            } else {
                !valid_target(target@) && e == ValidationError::InvalidValue(Field::Target)
            },
        },
{
    let title = trim(title);
    if title.as_str().unicode_len() == 0 {
        return Err(ValidationError::EmptyTitle);
    }
    if !is_valid_target(target) {
        return Err(ValidationError::InvalidValue(Field::Target));
    }
    let body = trim(description);
    let urn = author.urn();

    let comment = Node::Object(vec![
        entry("body", Node::Scalar(Scalar::Str(body))),
        entry("author", text(urn.as_str())),
        entry("timestamp", Node::Scalar(timestamp.to_scalar())),
        entry("reactions", Node::Object(Vec::new())),
    ]);
    let revision = Node::Object(vec![
        entry("author", text(urn.as_str())),
        entry("peer", text(peer.as_str())),
        entry("version", Node::Scalar(Scalar::Uint(0))),
        entry("commit", text(commit.as_str())),
        entry("comment", comment),
        entry("discussion", Node::Array(Vec::new())),
        entry("reviews", Node::Object(Vec::new())),
        entry("merges", Node::Array(Vec::new())),
        entry("timestamp", Node::Scalar(timestamp.to_scalar())),
    ]);
    let patch = Node::Object(vec![
        entry("title", Node::Scalar(Scalar::Str(title))),
        entry("author", text(urn.as_str())),
        entry("state", Node::Scalar(State::Open.to_scalar())),
        entry("target", text(target)),
        entry("timestamp", Node::Scalar(timestamp.to_scalar())),
        entry("labels", Node::Object(label_entries(labels))),
        entry("revisions", Node::Array(vec![revision])),
    ]);
    let ghost comment_node = comment;
    let ghost revision_node = revision;
    let ghost patch_node = patch;
    let doc = Node::Object(vec![entry("patch", patch)]);
    proof {
        use_type_invariant(commit);
        reveal_with_fuel(lookup, 10);
        reveal_strlit("patch");
        reveal_strlit("title");
        reveal_strlit("author");
        reveal_strlit("state");
        reveal_strlit("target");
        reveal_strlit("timestamp");
        reveal_strlit("labels");
        reveal_strlit("revisions");
        reveal_strlit("peer");
        reveal_strlit("version");
        reveal_strlit("commit");
        reveal_strlit("comment");
        reveal_strlit("discussion");
        reveal_strlit("reviews");
        reveal_strlit("merges");
        reveal_strlit("body");
        reveal_strlit("reactions");
        reveal_strlit("replies");
        assert("replies"@.len() == 7 && "replies"@[0] == 'r' && "replies"@[2] == 'p');
        assert("patch"@.len() == 5 && "patch"@[0] == 'p' && "patch"@[2] == 't');
        assert("title"@.len() == 5 && "title"@[0] == 't' && "title"@[2] == 't');
        assert("author"@.len() == 6 && "author"@[0] == 'a' && "author"@[2] == 't');
        assert("state"@.len() == 5 && "state"@[0] == 's' && "state"@[2] == 'a');
        assert("target"@.len() == 6 && "target"@[0] == 't' && "target"@[2] == 'r');
        assert("timestamp"@.len() == 9 && "timestamp"@[0] == 't' && "timestamp"@[2] == 'm');
        assert("labels"@.len() == 6 && "labels"@[0] == 'l' && "labels"@[2] == 'b');
        assert("revisions"@.len() == 9 && "revisions"@[0] == 'r' && "revisions"@[2] == 'v');
        assert("peer"@.len() == 4 && "peer"@[0] == 'p' && "peer"@[2] == 'e');
        assert("version"@.len() == 7 && "version"@[0] == 'v' && "version"@[2] == 'r');
        assert("commit"@.len() == 6 && "commit"@[0] == 'c' && "commit"@[2] == 'm');
        assert("comment"@.len() == 7 && "comment"@[0] == 'c' && "comment"@[2] == 'm');
        assert("discussion"@.len() == 10 && "discussion"@[0] == 'd' && "discussion"@[2] == 's');
        assert("reviews"@.len() == 7 && "reviews"@[0] == 'r' && "reviews"@[2] == 'v');
        assert("merges"@.len() == 6 && "merges"@[0] == 'm' && "merges"@[2] == 'r');
        assert("body"@.len() == 4 && "body"@[0] == 'b' && "body"@[2] == 'd');
        assert("reactions"@.len() == 9 && "reactions"@[0] == 'r' && "reactions"@[2] == 'a');
    }
    let ghost a = author.view();
    let ghost names = labels@.map_values(|l: Label| l.view());
    let ghost pes = patch_node->Object_0@;
    let ghost les = pes[5].value->Object_0@;
    proof {
        assert(pes[6].value->Array_0@ =~= seq![revision_node]);
        crate::laws::created_labels_distinct(names, names.len() as int);
        assert(names.take(names.len() as int) =~= names);
        assert(les.map_values(|e: Entry| e.key@).to_set() =~= names.to_set()) by {
            let d = distinct_names(names, names.len() as int);
            assert(les.map_values(|e: Entry| e.key@) == d);
            assert forall|x: Seq<char>| d.to_set().contains(x) <==> names.to_set().contains(x) by {
                assert(d.contains(x) <==> names.take(names.len() as int).contains(x));
            }
        }
        assert(creation_comment(comment_node, a, body@, timestamp.seconds));
        assert(creation_revision(revision_node, a, peer.view(), commit.view(), body@, timestamp.seconds));
        assert(creation_labels(pes[5].value, names.to_set()));
        assert(creation_doc(doc, a, peer.view(), title@, body@, target@, commit.view(), timestamp.seconds,
            names.to_set()));
        creation_doc_projects(doc, a, peer.view(), title@, body@, target@, commit.view(), timestamp.seconds,
            names.to_set());
    }
    Ok(doc)
}

/// Builds the change that creates a patch: the seeding document of the
/// creation event, written as one change carrying the message `Create
/// patch`. Before it is returned the change is read back through an empty
/// document, and must hold exactly that message and a document of the
/// creation shape. Fails, encoding nothing, where `create_document` does.
pub fn create(
    author: &Author,
    peer: &PeerId,
    title: &str,
    description: &str,
    target: &str,
    commit: &Oid,
    timestamp: Timestamp,
    labels: &Vec<Label>,
) -> (r: Result<Vec<u8>, Error>)
    ensures
        (trimmed(title@).len() == 0) == (r == Err::<Vec<u8>, Error>(Error::Validation(ValidationError::EmptyTitle))),
        (trimmed(title@).len() > 0 && !valid_target(target@)) == (r == Err::<Vec<u8>, Error>(
            Error::Validation(ValidationError::InvalidValue(Field::Target)),
        )),
        r matches Err(e) ==> (e is Automerge || e is Encoding || e == Error::Validation(ValidationError::EmptyTitle)
            || e == Error::Validation(ValidationError::InvalidValue(Field::Target))),
        r matches Ok(b) ==> created_change(
            b@,
            author.view(),
            peer.view(),
            title@,
            description@,
            target@,
            commit.view(),
            timestamp.seconds,
            labels@.map_values(|l: Label| l.view()).to_set(),
        ),
        r matches Ok(b) ==> history_patch(seq![b@]) matches Ok(v) && created_patch(
            v,
            author.view(),
            peer.view(),
            trimmed(title@),
            trimmed(description@),
            target@,
            commit.view(),
            timestamp.seconds,
            labels@.map_values(|l: Label| l.view()).to_set(),
        ),
{
    let doc = match create_document(author, peer, title, description, target, commit, timestamp, labels) {
        Ok(doc) => doc,
        Err(e) => {
            return Err(Error::Validation(e));
        },
    };
    let bytes = encode_change(&doc, CREATE_MESSAGE)?;
    let mut check = new_document();
    let _ = apply_encoded(&mut check, bytes.clone());
    proof {
        assert(changes_of(check) =~= seq![bytes@]);
    }
    let messages = messages_of(&check);
    let message_ok = messages.len() == 1 && match &messages[0] {
        Some(m) => *m == String::from_str(CREATE_MESSAGE),
        None => false,
    };
    let tree = materialize(&check);
    let title_t = trim(title);
    let body_t = trim(description);
    if message_ok && check_creation(
        &tree,
        author.urn().as_str(),
        peer.as_str(),
        title_t.as_str(),
        body_t.as_str(),
        target,
        commit.as_str(),
        timestamp.seconds,
        labels,
    ) {
        proof {
            use_type_invariant(commit);
            crate::laws::created_change_round_trip(
                bytes@,
                author.view(),
                peer.view(),
                title@,
                description@,
                target@,
                commit.view(),
                timestamp.seconds,
                labels@.map_values(|l: Label| l.view()).to_set(),
            );
        }
        Ok(bytes)
    } else {
        Err(Error::Encoding)
    }
}

} // verus!
