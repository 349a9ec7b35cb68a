//! Failures of the patch store and of the projection.

use vstd::prelude::*;

verus! {

/// A field of the patch document schema.
#[derive(Debug, Clone, Copy, PartialEq, Eq, Structural)]
pub enum Field {
    Patch,
    Title,
    Author,
    State,
    Target,
    Timestamp,
    Labels,
    Revisions,
    Revision,
    Peer,
    Version,
    Commit,
    Comment,
    Discussion,
    Reviews,
    Merges,
    Body,
    Replies,
    Verdict,
}

/// Why a document does not describe a valid patch.
#[derive(Debug, Clone, Copy, PartialEq, Eq, Structural)]
pub enum ValidationError {
    /// The title is empty once surrounding whitespace is removed.
    EmptyTitle,
    /// A label name is empty once surrounding whitespace is removed.
    EmptyLabel,
    /// A required field is absent.
    Missing(Field),
    /// A field holds a value of the wrong kind.
    WrongType(Field),
    /// A field holds a string outside the set it admits.
    InvalidValue(Field),
    /// The revision at `index` records another version number.
    VersionMismatch { index: usize, found: u64 },
    /// The patch has no revision.
    NoRevisions,
}

/// An error of the patch store.
#[derive(Debug)]
pub enum Error {
    /// The object store failed to create the object.
    Create(String),
    /// The object store failed to list objects.
    List(String),
    /// The object store failed to retrieve an object.
    Retrieve(String),
    /// The document engine failed.
    Automerge(automerge::AutomergeError),
    /// The document engine encoded a change that does not decode.
    Encoding,
    /// A document did not describe a valid patch.
    Validation(ValidationError),
}

} // verus!
