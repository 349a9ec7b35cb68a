//! Tag-based patches: a patch published as an annotated git tag whose name
//! starts with `patches/`, merged once the head of the default branch
//! contains its commit.

use vstd::prelude::*;

use crate::types::{Oid, PeerId};

verus! {

/// The prefix of the names of patch tags.
pub const TAG_PREFIX: &'static str = "patches/";

/// The state of a tag-based patch.
#[derive(Debug, Clone, Copy, PartialEq, Eq, Structural)]
pub enum State {
    Open,
    Merged,
}

/// A patch read from an annotated tag.
#[derive(Debug, Clone)]
pub struct Metadata {
    /// The part of the tag name after the `patches/` prefix.
    pub id: String,
    /// The peer the patch came from.
    pub peer: PeerId,
    /// The message of the tag.
    pub message: Option<String>,
    /// The head commit that the author wants merged.
    pub commit: Oid,
}

/// What follows `prefix` in `s`, where `s` starts with it.
pub open spec fn strip_prefix_spec(s: Seq<char>, prefix: Seq<char>) -> Option<Seq<char>> {
    if prefix.len() <= s.len() && s.subrange(0, prefix.len() as int) == prefix {
        Some(s.subrange(prefix.len() as int, s.len() as int))
    } else {
        None
    }
}

/// What follows `prefix` in `s`, where `s` starts with it.
pub fn strip_prefix<'a>(s: &'a str, prefix: &str) -> (r: Option<&'a str>)
    ensures
        match r {
            Some(t) => strip_prefix_spec(s@, prefix@) == Some(t@),
            None => strip_prefix_spec(s@, prefix@).is_none(),
        },
{
    let n = s.unicode_len();
    let p = prefix.unicode_len();
    if p > n {
        return None;
    }
    let mut i: usize = 0;
    while i < p
        invariant
            p == prefix@.len(),
            n == s@.len(),
            p <= n,
            0 <= i <= p,
            forall|k: int| 0 <= k < i ==> s@[k] == prefix@[k],
        decreases p - i,
    {
        if s.get_char(i) != prefix.get_char(i) {
            assert(s@.subrange(0, p as int)[i as int] != prefix@[i as int]);
            return None;
        }
        i = i + 1;
    }
    assert(s@.subrange(0, p as int) =~= prefix@);
    Some(s.substring_char(p, n))
}

/// The patch that a tag stands for: one whose name starts with `patches/`,
/// identified by the rest of the name. A tag without a name, or with another
/// name, stands for none.
pub fn from_tag(name: Option<&str>, message: Option<String>, commit: Oid, peer: PeerId) -> (r: Option<Metadata>)
    ensures
        match name {
            Some(n) => match strip_prefix_spec(n@, TAG_PREFIX@) {
                Some(id) => r matches Some(m) && m.id@ == id && m.peer == peer && m.message == message
                    && m.commit == commit,
                None => r is None,
            },
            None => r is None,
        },
{
    match name {
        Some(n) => match strip_prefix(n, TAG_PREFIX) {
            Some(id) => Some(Metadata { id: String::from_str(id), peer, message, commit }),
            None => None,
        },
        None => None,
    }
}

/// The state of a tag-based patch, given the merge base of the default
/// branch's head and the patch commit, where there is one: merged when that
/// merge base is the patch commit itself, open otherwise.
pub fn state(merge_base: Option<&Oid>, patch: &Metadata) -> (r: State)
    ensures
        (r == State::Merged) == (merge_base matches Some(b) && b.view() == patch.commit.view()),
{
    match merge_base {
        Some(b) => {
            if b.same(&patch.commit) {
                State::Merged
            } else {
                State::Open
            }
        },
        None => State::Open,
    }
}

} // verus!
