//! The patch store: the decisions around the collaborative object store.
//! The store itself (persisting, retrieving and listing object histories) is
//! reached by the caller, who hands its results to these functions.

use vstd::multiset::Multiset;
use vstd::prelude::*;

use crate::doc::Node;
use crate::creation::created_patch;
use crate::events::created_change;
use crate::engine::{change_parses, history_tree, materialize, replay};
use crate::error::{Error, Field, ValidationError};
use crate::events::create;
use crate::projection::{patch_spec, project};
use crate::types::{label_set, patch_view_wf, valid_target, trimmed, Author, Label, Oid, Patch, PatchView, PeerId, Timestamp};

verus! {

broadcast use vstd::seq_lib::group_to_multiset_ensures, vstd::seq_lib::to_multiset_insert;

/// The type name under which patch objects are stored, distinguishing them
/// from other kinds of collaborative objects.
pub const TYPENAME: &'static str = "xyz.radicle.patch";

/// The JSON schema that the object store checks patch documents against.
pub const SCHEMA: &'static str = r##"{
  "$schema": "https://json-schema.org/draft/2020-12/schema",
  "type": "object",
  "properties": {
    "patch": {
      "type": "object",
      "properties": {
        "title": { "type": "string", "minLength": 1 },
        "author": { "type": "string" },
        "state": { "type": "string", "enum": ["open", "draft", "closed"] },
        "target": { "type": "string" },
        "timestamp": { "type": "number" },
        "labels": { "type": "object", "additionalProperties": { "type": "boolean" } },
        "revisions": { "type": "array", "minItems": 1, "items": { "$ref": "#/$defs/revision" } }
      },
      "required": ["title", "author", "state", "target", "timestamp", "labels", "revisions"]
    }
  },
  "required": ["patch"],
  "$defs": {
    "comment": {
      "type": "object",
      "properties": {
        "author": { "type": "string" },
        "body": { "type": "string" },
        "timestamp": { "type": "number" },
        "reactions": { "type": "object" }
      },
      "required": ["author", "body", "timestamp"]
    },
    "thread": {
      "allOf": [
        { "$ref": "#/$defs/comment" },
        {
          "type": "object",
          "properties": { "replies": { "type": "array", "items": { "$ref": "#/$defs/comment" } } },
          "required": ["replies"]
        }
      ]
    },
    "revision": {
      "type": "object",
      "properties": {
        "author": { "type": "string" },
        "peer": { "type": "string" },
        "version": { "type": "integer", "minimum": 0 },
        "commit": { "type": "string" },
        "comment": { "$ref": "#/$defs/comment" },
        "discussion": { "type": "array", "items": { "$ref": "#/$defs/thread" } },
        "reviews": { "type": "object" },
        "merges": { "type": "array" },
        "timestamp": { "type": "number" }
      },
      "required": ["author", "peer", "version", "commit", "comment", "discussion", "reviews", "merges", "timestamp"]
    }
  }
}"##;

/// The identifier that the object store gives a patch object.
pub type PatchId = String;

/// What the object store is asked to persist for a new patch: the change
/// that seeds it, under the patch type name, the patch schema and a commit
/// message.
pub struct NewObject {
    pub typename: String,
    pub schema: String,
    pub message: String,
    pub history: Vec<u8>,
    /// When the patch was created.
    pub timestamp: Timestamp,
}

/// What the history of a patch object describes: the patch that its
/// replayed document gives, or why that document gives none.
pub open spec fn history_patch(h: Seq<Seq<u8>>) -> Result<PatchView, ValidationError> {
    patch_spec(history_tree(h))
}

/// Whether `r` is what history `h` describes.
pub open spec fn rebuilt(r: Result<Patch, Error>, h: Seq<Seq<u8>>) -> bool {
    match history_patch(h) {
        Ok(v) => r matches Ok(p) && p.view() == v,
        Err(e) => r matches Err(x) && x == Error::Validation(e),
    }
}

/// Whether the listed patch `x` is what the history listed under its id
/// describes.
pub open spec fn listed_as(x: (PatchId, Patch), listed: Seq<(PatchId, Vec<Vec<u8>>)>) -> bool {
    exists|j: int|
        0 <= j < listed.len() && listed[j].0@ == x.0@ && #[trigger] history_patch(listed[j].1.deep_view())
            == Ok::<PatchView, ValidationError>(x.1.view())
}

/// Whether `h` is the creation change for these inputs and the time `ts`,
/// and so, replayed as a whole history, gives the created patch.
pub open spec fn creation_history(
    h: Seq<u8>,
    author: Seq<char>,
    peer: Seq<char>,
    title: Seq<char>,
    description: Seq<char>,
    target: Seq<char>,
    commit: Seq<char>,
    ts: i64,
    names: Set<Seq<char>>,
) -> bool {
    &&& created_change(h, author, peer, title, description, target, commit, ts, names)
    &&& history_patch(seq![h]) matches Ok(v) && created_patch(
        v,
        author,
        peer,
        trimmed(title),
        trimmed(description),
        target,
        commit,
        ts,
        names,
    )
}

/// The ids of listed patches.
pub open spec fn ids(v: Seq<(PatchId, Patch)>) -> Seq<Seq<char>> {
    v.map_values(|x: (PatchId, Patch)| x.0@)
}

/// Whether the listed patches are in ascending order of creation time.
pub open spec fn sorted_by_time(v: Seq<(PatchId, Patch)>) -> bool {
    forall|a: int, b: int| 0 <= a < b < v.len() ==> v[a].1.timestamp.seconds <= v[b].1.timestamp.seconds
}

/// Rebuilds a patch from its history: replays the changes, skipping those that
/// do not decode, reads the resulting document and projects it.
pub fn patch_from_history(history: &Vec<Vec<u8>>) -> (r: Result<Patch, Error>)
    ensures
        rebuilt(r, history.deep_view()),
        r matches Ok(p) ==> patch_view_wf(p.view()),
{
    let replayed = replay(history);
    let doc = materialize(&replayed.doc);
    match project(&doc) {
        Ok(p) => Ok(p),
        Err(e) => Err(Error::Validation(e)),
    }
}

/// Orders listed patches by ascending creation time. Each is inserted after
/// those already placed that are not newer, so patches created at the same
/// time keep their listed order.
pub fn sort_by_timestamp(v: Vec<(PatchId, Patch)>) -> (r: Vec<(PatchId, Patch)>)
    ensures
        sorted_by_time(r@),
        r@.to_multiset() == v@.to_multiset(),
        ids(r@).to_multiset() == ids(v@).to_multiset(),
{
    broadcast use vstd::multiset::group_multiset_axioms;

    let ghost orig = v@;
    let mut rest = v;
    let mut out: Vec<(PatchId, Patch)> = Vec::new();
    assert(out@.to_multiset().len() == 0);
    assert(ids(out@).to_multiset().len() == 0);
    assert(out@.to_multiset() =~= Multiset::empty());
    assert(ids(out@).to_multiset() =~= Multiset::empty());
    while rest.len() > 0
        invariant
            sorted_by_time(out@),
            out@.to_multiset().add(rest@.to_multiset()) == orig.to_multiset(),
            ids(out@).to_multiset().add(ids(rest@).to_multiset()) == ids(orig).to_multiset(),
        decreases rest.len(),
    {
        let ghost before_rest = rest@;
        let x = rest.remove(0);
        assert(before_rest =~= rest@.insert(0, x));
        assert(before_rest.to_multiset() == rest@.to_multiset().insert(x));
        assert(ids(before_rest) =~= ids(rest@).insert(0, x.0@));
        assert(ids(before_rest).to_multiset() == ids(rest@).to_multiset().insert(x.0@));
        let t = x.1.timestamp.seconds;
        let mut j: usize = 0;
        while j < out.len() && out[j].1.timestamp.seconds <= t
            invariant
                0 <= j <= out@.len(),
                forall|k: int| 0 <= k < j ==> out@[k].1.timestamp.seconds <= t,
            decreases out.len() - j,
        {
            j = j + 1;
        }
        let ghost before_out = out@;
        out.insert(j, x);
        assert(out@.to_multiset() == before_out.to_multiset().insert(x));
        assert(ids(out@) =~= ids(before_out).insert(j as int, x.0@));
        assert(ids(out@).to_multiset() == ids(before_out).to_multiset().insert(x.0@));
        assert(sorted_by_time(out@)) by {
            assert forall|a: int, b: int| 0 <= a < b < out@.len() implies out@[a].1.timestamp.seconds
                <= out@[b].1.timestamp.seconds by {
                if b < j {
                } else if b == j {
                } else if a < j {
                    assert(before_out[a].1.timestamp.seconds <= t);
                    assert(t < before_out[j as int].1.timestamp.seconds);
                } else if a == j {
                    assert(t < before_out[j as int].1.timestamp.seconds);
                }
            }
        }
    }
    assert(rest@ =~= Seq::<(PatchId, Patch)>::empty());
    assert(ids(rest@) =~= Seq::<Seq<char>>::empty());
    out
}

/// The patches of a project, reached through the caller's object store.
pub struct Patches {
    whoami: Author,
    peer_id: PeerId,
}

impl Patches {
    pub closed spec fn author(&self) -> Seq<char> {
        self.whoami.view()
    }

    pub closed spec fn peer(&self) -> Seq<char> {
        self.peer_id.view()
    }

    /// The patches that `whoami` works on, publishing as `peer_id`.
    pub fn new(whoami: Author, peer_id: PeerId) -> (r: Patches)
        ensures
            r.author() == whoami.view(),
            r.peer() == peer_id.view(),
    {
        Patches { whoami, peer_id }
    }

    /// The object to persist for a new patch by this author and peer, created
    /// now: the patch type name, the creation message and the seeding change.
    /// Fails, building nothing, where the title is blank or, failing that,
    /// where the target is no one-level branch name.
    pub fn create(&self, title: &str, description: &str, target: &str, commit: &Oid, labels: &Vec<Label>) -> (r:
        Result<NewObject, Error>)
        ensures
            (trimmed(title@).len() == 0) == (r matches Err(e) && e == Error::Validation(ValidationError::EmptyTitle)),
            (trimmed(title@).len() > 0 && !valid_target(target@)) == (r matches Err(e) && e == Error::Validation(
                ValidationError::InvalidValue(Field::Target),
            )),
            r matches Err(e) ==> (e is Automerge || e is Encoding || e == Error::Validation(ValidationError::EmptyTitle)
                || e == Error::Validation(ValidationError::InvalidValue(Field::Target))),
            r matches Ok(o) ==> o.timestamp.seconds >= 0 && creation_history(
                o.history@,
                self.author(),
                self.peer(),
                title@,
                description@,
                target@,
                commit.view(),
                o.timestamp.seconds,
                label_set(labels@),
            ),
            r matches Ok(o) ==> o.typename@ == TYPENAME@ && o.schema@ == SCHEMA@ && o.message@ == crate::events::CREATE_MESSAGE@,
    {
        let timestamp = Timestamp::now();
        let history = create(&self.whoami, &self.peer_id, title, description, target, commit, timestamp, labels)?;
        assert(creation_history(
            history@,
            self.author(),
            self.peer(),
            title@,
            description@,
            target@,
            commit.view(),
            timestamp.seconds,
            label_set(labels@),
        ));
        let object = NewObject {
            typename: String::from_str(TYPENAME),
            schema: String::from_str(SCHEMA),
            message: String::from_str(crate::events::CREATE_MESSAGE),
            history,
            timestamp,
        };
        Ok(object)
    }

    /// The patch whose history the store retrieved, or `None` where the store
    /// holds no such object. Not finding the object is no error.
    pub fn get(&self, retrieved: Option<Vec<Vec<u8>>>) -> (r: Result<Option<Patch>, Error>)
        ensures
            retrieved is None ==> r == Ok::<Option<Patch>, Error>(None),
            retrieved matches Some(h) ==> match history_patch(h.deep_view()) {
                Ok(v) => r matches Ok(Some(p)) && p.view() == v,
                Err(e) => r matches Err(x) && x == Error::Validation(e),
            },
    {
        match retrieved {
            None => Ok(None),
            Some(history) => {
                let p = patch_from_history(&history)?;
                Ok(Some(p))
            },
        }
    }

    /// The patches whose histories the store listed, each with its id, in
    /// ascending order of creation time. Fails where any of them cannot be
    /// rebuilt.
    pub fn all(&self, listed: Vec<(PatchId, Vec<Vec<u8>>)>) -> (r: Result<Vec<(PatchId, Patch)>, Error>)
        ensures
            r matches Ok(v) ==> {
                &&& sorted_by_time(v@)
                &&& v@.len() == listed@.len()
                &&& ids(v@).to_multiset() == listed@.map_values(|x: (PatchId, Vec<Vec<u8>>)| x.0@).to_multiset()
                &&& forall|i: int| 0 <= i < v@.len() ==> listed_as(#[trigger] v@[i], listed@)
            },
            r is Ok <==> forall|j: int| 0 <= j < listed@.len() ==> (#[trigger] history_patch(listed@[j].1.deep_view())) is Ok,
            r matches Err(e) ==> exists|j: int|
                0 <= j < listed@.len() && ((#[trigger] history_patch(listed@[j].1.deep_view())) matches Err(v) && e
                    == Error::Validation(v)),
    {
        let mut patches: Vec<(PatchId, Patch)> = Vec::new();
        let mut i: usize = 0;
        while i < listed.len()
            invariant
                0 <= i <= listed@.len(),
                patches@.len() == i,
                patches@.map_values(|x: (PatchId, Patch)| x.0@) =~= listed@.take(i as int).map_values(
                    |x: (PatchId, Vec<Vec<u8>>)| x.0@,
                ),
                forall|k: int| 0 <= k < patches@.len() ==> #[trigger] history_patch(listed@[k].1.deep_view())
                    == Ok::<PatchView, ValidationError>(patches@[k].1.view()),
            decreases listed.len() - i,
        {
            let p = match patch_from_history(&listed[i].1) {
                Ok(p) => p,
                Err(e) => {
                    return Err(e);
                },
            };
            let id = listed[i].0.clone();
            let ghost before = patches@;
            patches.push((id, p));
            assert(listed@.take(i + 1) =~= listed@.take(i as int).push(listed@[i as int]));
            assert(patches@.map_values(|x: (PatchId, Patch)| x.0@) =~= before.map_values(
                |x: (PatchId, Patch)| x.0@,
            ).push(listed@[i as int].0@));
            i = i + 1;
        }
        assert(listed@.take(listed@.len() as int) =~= listed@);
        let ghost unsorted = patches@;
        let sorted = sort_by_timestamp(patches);
        proof {
            assert(sorted@.len() == unsorted.len()) by {
                assert(sorted@.to_multiset().len() == unsorted.to_multiset().len());
            }
            assert forall|i: int| 0 <= i < sorted@.len() implies listed_as(#[trigger] sorted@[i], listed@) by {
                assert(sorted@.to_multiset().count(sorted@[i]) > 0);
                assert(unsorted.contains(sorted@[i]));
                let k = choose|k: int| 0 <= k < unsorted.len() && unsorted[k] == sorted@[i];
                assert(ids(unsorted)[k] == listed@.map_values(|x: (PatchId, Vec<Vec<u8>>)| x.0@)[k]);
                assert(history_patch(listed@[k].1.deep_view()) == Ok::<PatchView, ValidationError>(unsorted[k].1.view()));
            }
        }
        Ok(sorted)
    }
}

} // verus!
