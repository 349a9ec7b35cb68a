//! The document engine boundary: writing a document tree into an automerge
//! change, replaying a history of changes, and reading the replayed document
//! back as a tree.

use vstd::prelude::*;

use automerge::transaction::{CommitOptions, Transactable};
use automerge::{AutoCommit, Automerge, AutomergeError, Change, ObjId, ObjType, ReadDoc, ScalarValue, Value};

use crate::doc::{Entry, Node, Scalar};
use crate::error::Error;

verus! {

#[verifier::external_type_specification]
#[verifier::external_body]
pub struct ExAutomergeError(AutomergeError);

#[verifier::external_type_specification]
#[verifier::external_body]
pub struct ExAutomerge(Automerge);

#[verifier::external_type_specification]
#[verifier::external_body]
pub struct ExAutoCommit(AutoCommit);

#[verifier::external_type_specification]
#[verifier::external_body]
pub struct ExObjId(ObjId);

#[verifier::external_type_specification]
#[verifier::external_body]
pub struct ExChange(Change);

#[verifier::external_type_specification]
#[verifier::external_body]
pub struct ExScalarValue(ScalarValue);

#[verifier::external_type_specification]
#[verifier::external_body]
pub struct ExObjType(ObjType);

/// The kind of a container object of the engine.
#[derive(Debug, Clone, Copy, PartialEq, Eq, Structural)]
pub enum ObjKind {
    Dict,
    Table,
    List,
    Text,
}

/// Whether `Change::from_bytes` accepts the bytes.
pub uninterp spec fn change_parses(b: Seq<u8>) -> bool;

/// The encoded changes that a document was handed, in order, since it was
/// created empty.
pub uninterp spec fn changes_of(d: Automerge) -> Seq<Seq<u8>>;

/// The tree that a document, created empty and handed these changes in
/// order, holds from its root map: the keys of each map in the engine's
/// (sorted) order, the elements of each list in order.
pub uninterp spec fn replayed_tree(changes: Seq<Seq<u8>>) -> Node;

/// The message that an encoded change carries, if it decodes and has one.
pub uninterp spec fn change_message(b: Seq<u8>) -> Option<Seq<char>>;

/// Relies on `Automerge::get_changes` (with no heads known: every change the
/// document holds) and on `Change::message`: the messages of those changes.
/// A document handed one change that holds one change holds that one.
#[verifier::external_body]
pub(crate) fn messages_of(doc: &Automerge) -> (r: Vec<Option<String>>)
    ensures
        changes_of(*doc).len() == 1 && r@.len() == 1 ==> match r@[0] {
            Some(m) => change_message(changes_of(*doc)[0]) == Some(m@),
            None => change_message(changes_of(*doc)[0]).is_none(),
        },
{
    doc.get_changes(&[]).iter().map(|c| c.message().map(|m| m.to_string())).collect()
}

/// Relies on `Automerge::new`: an empty document, handed no change yet.
#[verifier::external_body]
pub(crate) fn new_document() -> (r: Automerge)
    ensures
        changes_of(r) == Seq::<Seq<u8>>::empty(),
{
    Automerge::new()
}

/// Relies on `Change::from_bytes`, which depends on the bytes alone, and on
/// `Automerge::apply_changes`: a change that decodes is handed to the
/// document (which ignores one it cannot apply); other bytes leave it alone.
#[verifier::external_body]
pub(crate) fn apply_encoded(doc: &mut Automerge, b: Vec<u8>) -> (r: bool)
    ensures
        r == change_parses(b@),
        changes_of(*final(doc)) == if r {
            changes_of(*old(doc)).push(b@)
        } else {
            changes_of(*old(doc))
        },
{
    match Change::from_bytes(b) {
        Ok(c) => {
            let _ = doc.apply_changes([c]);
            true
        },
        Err(_) => false,
    }
}

/// Reads the object `obj` of a document as a tree, through `ReadDoc`'s
/// `object_type`, `keys`, `length` and `get`; a text object reads as a
/// scalar of no admitted kind.
#[verifier::external_body]
fn tree_at(doc: &Automerge, obj: &ObjId) -> Node {
    let node = |v| match v {
        Ok(Some((Value::Object(_), id))) => tree_at(doc, &id),
        Ok(Some((Value::Scalar(x), _))) => Node::Scalar(scalar_from_engine(&x)),
        _ => Node::Scalar(Scalar::Other),
    };
    match doc.object_type(obj) {
        Ok(ObjType::List) => Node::Array((0..doc.length(obj)).map(|i| node(doc.get(obj, i))).collect()),
        Ok(ObjType::Text) => Node::Scalar(Scalar::Other),
        _ => Node::Object(doc.keys(obj).map(|k| Entry { value: node(doc.get(obj, &k)), key: k }).collect()),
    }
}

/// Relies on `ReadDoc` (see `tree_at`) read from `automerge::ROOT`: the tree
/// that the document's changes give, whose root is a map, empty in a
/// document that was handed no change.
#[verifier::external_body]
pub(crate) fn materialize(doc: &Automerge) -> (r: Node)
    ensures
        r == replayed_tree(changes_of(*doc)),
        r is Object,
        changes_of(*doc).len() == 0 ==> r->Object_0@.len() == 0,
{
    tree_at(doc, &automerge::ROOT)
}

/// Relies on `automerge::ROOT`: the id of the root map of every document.
#[verifier::external_body]
fn root() -> ObjId {
    automerge::ROOT
}

/// Relies on `AutoCommit::new`: an empty document.
#[verifier::external_body]
fn new_auto_commit() -> AutoCommit {
    AutoCommit::new()
}

/// Relies on `ScalarValue`'s variants: each scalar of the tree as the engine's
/// scalar of the same kind.
#[verifier::external_body]
fn scalar_to_engine(s: &Scalar) -> ScalarValue {
    match s {
        Scalar::Str(v) => ScalarValue::Str(v.as_str().into()),
        Scalar::Int(v) => ScalarValue::Int(*v),
        Scalar::Uint(v) => ScalarValue::Uint(*v),
        Scalar::Timestamp(v) => ScalarValue::Timestamp(*v),
        Scalar::Boolean(v) => ScalarValue::Boolean(*v),
        Scalar::Other => ScalarValue::Null,
    }
}

/// Relies on `ScalarValue`'s variants: the engine's scalar as a scalar of
/// the tree, the kinds that a patch never holds as `Other`.
#[verifier::external_body]
fn scalar_from_engine(s: &ScalarValue) -> Scalar {
    match s {
        ScalarValue::Str(v) => Scalar::Str(v.to_string()),
        ScalarValue::Int(v) => Scalar::Int(*v),
        ScalarValue::Uint(v) => Scalar::Uint(*v),
        ScalarValue::Timestamp(v) => Scalar::Timestamp(*v),
        ScalarValue::Boolean(v) => Scalar::Boolean(*v),
        ScalarValue::Bytes(_) => Scalar::Other,
        ScalarValue::F64(_) => Scalar::Other,
        ScalarValue::Counter(_) => Scalar::Other,
        ScalarValue::Unknown { .. } => Scalar::Other,
        ScalarValue::Null => Scalar::Other,
    }
}

/// Relies on `Transactable::put` of `AutoCommit`: stores a scalar under a key
/// of a map object.
#[verifier::external_body]
fn put_scalar(doc: &mut AutoCommit, obj: &ObjId, key: &str, v: ScalarValue) -> Result<(), AutomergeError> {
    doc.put(obj, key, v)
}

/// Relies on `ObjType`'s variants, one for one.
#[verifier::external_body]
fn kind_to_engine(k: ObjKind) -> ObjType {
    match k {
        ObjKind::Dict => ObjType::Map,
        ObjKind::Table => ObjType::Table,
        ObjKind::List => ObjType::List,
        ObjKind::Text => ObjType::Text,
    }
}

/// Relies on `Transactable::put_object` of `AutoCommit`: creates an empty
/// object of the given kind under a key of a map object.
#[verifier::external_body]
fn put_object(doc: &mut AutoCommit, obj: &ObjId, key: &str, kind: ObjType) -> Result<ObjId, AutomergeError> {
    doc.put_object(obj, key, kind)
}

/// Relies on `Transactable::insert` of `AutoCommit`: inserts a scalar at an
/// index of a list object.
#[verifier::external_body]
fn insert_scalar(doc: &mut AutoCommit, obj: &ObjId, index: usize, v: ScalarValue) -> Result<(), AutomergeError> {
    doc.insert(obj, index, v)
}

/// Relies on `Transactable::insert_object` of `AutoCommit`: inserts an empty
/// object of the given kind at an index of a list object.
#[verifier::external_body]
fn insert_object(doc: &mut AutoCommit, obj: &ObjId, index: usize, kind: ObjType) -> Result<ObjId, AutomergeError> {
    doc.insert_object(obj, index, kind)
}

/// Relies on `AutoCommit::commit_with`: closes the pending transaction as one
/// change carrying `message`.
#[verifier::external_body]
fn commit_with_message(doc: &mut AutoCommit, message: &str) {
    doc.commit_with(CommitOptions::default().with_message(message.to_string()));
}

/// Relies on `AutoCommit::save_incremental`: the changes made since the
/// document was created or last saved, encoded.
#[verifier::external_body]
fn save_incremental(doc: &mut AutoCommit) -> Vec<u8> {
    doc.save_incremental()
}

/// Whether a node is a container, the form that a document root takes.
pub open spec fn is_object(n: Node) -> bool {
    n is Object
}

/// Writes the children of `node` into the container object `obj`, which must
/// be of the same kind (a map for an object node, a list for an array node).
fn write_children(doc: &mut AutoCommit, obj: &ObjId, node: &Node) -> (r: Result<(), AutomergeError>)
    decreases node,
{
    broadcast use vstd::std_specs::vec::axiom_vec_index_decreases;

    match node {
        Node::Scalar(_) => Ok(()),
        Node::Object(entries) => {
            let mut i: usize = 0;
            while i < entries.len()
                invariant
                    *node == Node::Object(*entries),
                decreases entries.len() - i,
            {
                let e = &entries[i];
                assert(decreases_to!(*node => (*node)->Object_0));
                assert(decreases_to!(*entries => entries@[i as int]));
                assert(decreases_to!(entries@[i as int] => entries@[i as int].value));
                assert(decreases_to!(*node => e.value));
                match &e.value {
                    Node::Scalar(s) => {
                        put_scalar(doc, obj, e.key.as_str(), scalar_to_engine(s))?;
                    },
                    Node::Object(_) => {
                        let id = put_object(doc, obj, e.key.as_str(), kind_to_engine(ObjKind::Dict))?;
                        write_children(doc, &id, &e.value)?;
                    },
                    Node::Array(_) => {
                        let id = put_object(doc, obj, e.key.as_str(), kind_to_engine(ObjKind::List))?;
                        write_children(doc, &id, &e.value)?;
                    },
                }
                i = i + 1;
            }
            Ok(())
        },
        Node::Array(items) => {
            let mut i: usize = 0;
            while i < items.len()
                invariant
                    *node == Node::Array(*items),
                decreases items.len() - i,
            {
                let v = &items[i];
                assert(decreases_to!(*node => (*node)->Array_0));
                assert(decreases_to!(*items => items@[i as int]));
                assert(decreases_to!(*node => *v));
                match v {
                    Node::Scalar(s) => {
                        insert_scalar(doc, obj, i, scalar_to_engine(s))?;
                    },
                    Node::Object(_) => {
                        let id = insert_object(doc, obj, i, kind_to_engine(ObjKind::Dict))?;
                        write_children(doc, &id, v)?;
                    },
                    Node::Array(_) => {
                        let id = insert_object(doc, obj, i, kind_to_engine(ObjKind::List))?;
                        write_children(doc, &id, v)?;
                    },
                }
                i = i + 1;
            }
            Ok(())
        },
    }
}

/// Encodes a whole document, given as its root object, as one change carrying
/// `message`: every node of the tree is written in one transaction, so that
/// the change holds all of it or nothing is returned.
/// What comes back is checked to decode as one change, by handing it to an
/// empty document.
pub fn encode_change(root_node: &Node, message: &str) -> (r: Result<Vec<u8>, Error>)
    requires
        is_object(*root_node),
    ensures
        r matches Ok(b) ==> b@.len() > 0 && change_parses(b@),
        r matches Err(e) ==> (e is Automerge || e is Encoding),
{
    let mut doc = new_auto_commit();
    let root_id = root();
    match write_children(&mut doc, &root_id, root_node) {
        Ok(()) => {},
        Err(e) => {
            return Err(Error::Automerge(e));
        },
    }
    commit_with_message(&mut doc, message);
    let bytes = save_incremental(&mut doc);
    let mut check = new_document();
    if bytes.len() > 0 && apply_encoded(&mut check, bytes.clone()) {
        Ok(bytes)
    } else {
        Err(Error::Encoding)
    }
}

/// The entries of a history that decode as changes, among its first `n`
/// entries, in order.
pub open spec fn decoded_entries(h: Seq<Seq<u8>>, n: int) -> Seq<Seq<u8>>
    decreases n,
{
    if n <= 0 {
        Seq::empty()
    } else if change_parses(h[n - 1]) {
        decoded_entries(h, n - 1).push(h[n - 1])
    } else {
        decoded_entries(h, n - 1)
    }
}

/// The tree that replaying a history gives: that of the entries which decode,
/// in order.
pub open spec fn history_tree(h: Seq<Seq<u8>>) -> Node {
    replayed_tree(decoded_entries(h, h.len() as int))
}

/// The positions of the entries of a history that decode as changes, among
/// its first `n` entries, in order.
pub open spec fn parsed_positions(h: Seq<Seq<u8>>, n: int) -> Seq<usize>
    decreases n,
{
    if n <= 0 {
        Seq::empty()
    } else if change_parses(h[n - 1]) {
        parsed_positions(h, n - 1).push((n - 1) as usize)
    } else {
        parsed_positions(h, n - 1)
    }
}

/// The positions of the entries of a history that do not decode as changes,
/// among its first `n` entries, in order.
pub open spec fn unparsed_positions(h: Seq<Seq<u8>>, n: int) -> Seq<usize>
    decreases n,
{
    if n <= 0 {
        Seq::empty()
    } else if !change_parses(h[n - 1]) {
        unparsed_positions(h, n - 1).push((n - 1) as usize)
    } else {
        unparsed_positions(h, n - 1)
    }
}

/// A replayed history: the document, with the positions of the entries that
/// were applied to it and of those that were skipped.
pub struct Replayed {
    pub doc: Automerge,
    pub applied: Vec<usize>,
    pub skipped: Vec<usize>,
}

/// Folds a history of encoded changes, in the order given, into a document
/// that starts empty. An entry that does not decode is skipped and the fold
/// goes on; every entry that decodes is handed to the engine, in order.
pub fn replay(history: &Vec<Vec<u8>>) -> (r: Replayed)
    ensures
        r.applied@ == parsed_positions(history.deep_view(), history@.len() as int),
        r.skipped@ == unparsed_positions(history.deep_view(), history@.len() as int),
        changes_of(r.doc) == decoded_entries(history.deep_view(), history@.len() as int),
{
    let mut doc = new_document();
    let mut applied: Vec<usize> = Vec::new();
    let mut skipped: Vec<usize> = Vec::new();
    let ghost h = history.deep_view();
    let mut i: usize = 0;
    while i < history.len()
        invariant
            0 <= i <= history@.len(),
            h == history.deep_view(),
            applied@ == parsed_positions(h, i as int),
            skipped@ == unparsed_positions(h, i as int),
            changes_of(doc) == decoded_entries(h, i as int),
        decreases history.len() - i,
    {
        let bytes = history[i].clone();
        assert(bytes@ =~= h[i as int]);
        if apply_encoded(&mut doc, bytes) {
            applied.push(i);
        } else {
            skipped.push(i);
        }
        i = i + 1;
    }
    Replayed { doc, applied, skipped }
}


} // verus!
