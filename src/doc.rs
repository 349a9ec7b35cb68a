//! A materialized document: the tree of maps, lists and scalars that a
//! replayed history produces, held as plain values.

use vstd::prelude::*;

verus! {

/// A leaf value of the document.
pub enum Scalar {
    Str(String),
    Int(i64),
    Uint(u64),
    Timestamp(i64),
    Boolean(bool),
    /// Any other kind of scalar (bytes, floats, counters, nulls, values of
    /// unknown type). The projection never accepts one.
    Other,
}

/// One key of a map node with its value.
pub struct Entry {
    pub key: String,
    pub value: Node,
}

/// A node of the document tree.
pub enum Node {
    Scalar(Scalar),
    Object(Vec<Entry>),
    Array(Vec<Node>),
}

/// The value stored under `key` in a sequence of map entries: the first entry
/// that carries that key.
pub open spec fn lookup(entries: Seq<Entry>, key: Seq<char>) -> Option<Node>
    decreases entries.len(),
{
    if entries.len() == 0 {
        None
    } else if entries[0].key@ == key {
        Some(entries[0].value)
    } else {
        lookup(entries.drop_first(), key)
    }
}

/// Finds the value stored under `key` among the entries of a map node.
pub fn get_field<'a>(entries: &'a Vec<Entry>, key: &str) -> (r: Option<&'a Node>)
    ensures
        match r {
            Some(n) => lookup(entries@, key@) == Some(*n),
            None => lookup(entries@, key@).is_none(),
        },
{
    let k = String::from_str(key);
    let mut i: usize = 0;
    assert(entries@.skip(0) =~= entries@);
    while i < entries.len()
        invariant
            0 <= i <= entries@.len(),
            k@ == key@,
            lookup(entries@, key@) == lookup(entries@.skip(i as int), key@),
        decreases entries.len() - i,
    {
        assert(entries@.skip(i as int).drop_first() =~= entries@.skip(i + 1));
        if entries[i].key == k {
            return Some(&entries[i].value);
        }
        i = i + 1;
    }
    None
}

} // verus!
