//! The patch domain model: patches, revisions, reviews, merges and the small
//! value types they are made of, each with a view over plain values.

use vstd::prelude::*;

use crate::doc::Scalar;
use crate::error::ValidationError;

verus! {

/// What `str::trim` makes of a string.
pub uninterp spec fn trimmed(s: Seq<char>) -> Seq<char>;

/// Relies on `str::trim`: the input without its leading and trailing
/// whitespace. What it returns has none left, so trimming it again changes
/// nothing.
#[verifier::external_body]
pub(crate) fn trim(s: &str) -> (r: String)
    ensures
        r@ == trimmed(s@),
        trimmed(r@) == r@,
{
    s.trim().to_string()
}

/// A hexadecimal digit, of either case.
pub open spec fn is_hex_digit(c: char) -> bool {
    ('0' <= c && c <= '9') || ('a' <= c && c <= 'f') || ('A' <= c && c <= 'F')
}

/// A hexadecimal digit in lower case.
pub open spec fn lower_hex_digit(c: char) -> char {
    if c == 'A' {
        'a'
    } else if c == 'B' {
        'b'
    } else if c == 'C' {
        'c'
    } else if c == 'D' {
        'd'
    } else if c == 'E' {
        'e'
    } else if c == 'F' {
        'f'
    } else {
        c
    }
}

/// The canonical text of the object id that `s` denotes, if it denotes one:
/// 1 to 40 hex digits of either case, in lower case and padded on the right
/// with `0` to 40 digits.
pub open spec fn parsed_oid(s: Seq<char>) -> Option<Seq<char>> {
    if 1 <= s.len() <= 40 && forall|i: int| 0 <= i < s.len() ==> is_hex_digit(#[trigger] s[i]) {
        Some(s.map_values(|c: char| lower_hex_digit(c)) + Seq::new((40 - s.len()) as nat, |i: int| '0'))
    } else {
        None
    }
}

/// The canonical text of an id is itself canonical.
proof fn lemma_canonical_oid(s: Seq<char>)
    requires
        parsed_oid(s) is Some,
    ensures
        parsed_oid(parsed_oid(s)->Some_0) == parsed_oid(s),
{
    let t = parsed_oid(s)->Some_0;
    let low = s.map_values(|c: char| lower_hex_digit(c));
    let pad = Seq::new((40 - s.len()) as nat, |i: int| '0');
    assert(t == low + pad);
    assert(t.len() == 40);
    assert forall|i: int| 0 <= i < t.len() implies is_hex_digit(#[trigger] t[i]) && lower_hex_digit(t[i]) == t[i] by {
        if i < s.len() {
            assert(t[i] == lower_hex_digit(s[i]));
        } else {
            assert(t[i] == pad[i - s.len()]);
        }
    }
    assert(t.map_values(|c: char| lower_hex_digit(c)) =~= t);
    assert(Seq::new(0nat, |i: int| '0') + t =~= t);
    assert(t.map_values(|c: char| lower_hex_digit(c)) + Seq::new(0nat, |i: int| '0') =~= t);
}

/// Relies on `radicle_git_ext::Oid`'s `TryFrom<&str>`, which is git's hex
/// parser (`git_oid_fromstrn`: 1 to 40 hex digits, the rest zero), and on its
/// `Display`, which writes all 40 digits in lower case.
#[verifier::external_body]
fn parse_oid(s: &str) -> (r: Option<String>)
    ensures
        match r {
            Some(t) => parsed_oid(s@) == Some(t@),
            None => parsed_oid(s@).is_none(),
        },
{
    radicle_git_ext::Oid::try_from(s).ok().map(|o| o.to_string())
}

/// Whether git accepts `s` as a full reference name.
pub uninterp spec fn valid_ref_name(s: Seq<char>) -> bool;

/// Relies on `git2::Reference::is_valid_name`: whether git accepts the text
/// as a full reference name; it depends on the text alone.
#[verifier::external_body]
fn is_valid_ref_name(s: &str) -> (r: bool)
    ensures
        r == valid_ref_name(s@),
{
    git2::Reference::is_valid_name(s)
}

/// Whether `name` is a one-level branch name: one that git accepts under
/// `refs/heads/`.
pub open spec fn valid_target(name: Seq<char>) -> bool {
    valid_ref_name("refs/heads/"@ + name)
}

/// Whether `name` is a one-level branch name, as a patch target must be.
pub fn is_valid_target(name: &str) -> (r: bool)
    ensures
        r == valid_target(name@),
{
    let full = String::from_str("refs/heads/").concat(name);
    is_valid_ref_name(full.as_str())
}

/// The lifecycle state of a patch.
#[derive(Debug, Clone, Copy, PartialEq, Eq, Structural)]
pub enum State {
    Open,
    Draft,
    Closed,
}

/// The state that a document string names.
pub open spec fn state_named(s: Seq<char>) -> Option<State> {
    if s == "open"@ {
        Some(State::Open)
    } else if s == "draft"@ {
        Some(State::Draft)
    } else if s == "closed"@ {
        Some(State::Closed)
    } else {
        None
    }
}

pub open spec fn state_name(s: State) -> Seq<char> {
    match s {
        State::Open => "open"@,
        State::Draft => "draft"@,
        State::Closed => "closed"@,
    }
}

impl State {
    /// The lowercase name under which the document stores the state.
    pub fn name(&self) -> (r: String)
        ensures
            r@ == state_name(*self),
    {
        match self {
            State::Open => String::from_str("open"),
            State::Draft => String::from_str("draft"),
            State::Closed => String::from_str("closed"),
        }
    }

    /// The document scalar that stores the state.
    pub fn to_scalar(&self) -> (r: Scalar)
        ensures
            r matches Scalar::Str(s) && s@ == state_name(*self),
    {
        Scalar::Str(self.name())
    }

    /// Reads a state from a document scalar: a string among `open`, `draft`
    /// and `closed`.
    pub fn try_from_scalar(v: &Scalar) -> (r: Result<State, ValidationError>)
        ensures
            match v {
                Scalar::Str(s) => match state_named(s@) {
                    Some(st) => r == Ok::<State, ValidationError>(st),
                    None => r == Err::<State, ValidationError>(
                        ValidationError::InvalidValue(crate::error::Field::State),
                    ),
                },
                _ => r == Err::<State, ValidationError>(
                    ValidationError::WrongType(crate::error::Field::State),
                ),
            },
    {
        match v {
            Scalar::Str(s) => {
                if *s == String::from_str("open") {
                    Ok(State::Open)
                } else if *s == String::from_str("draft") {
                    Ok(State::Draft)
                } else if *s == String::from_str("closed") {
                    Ok(State::Closed)
                } else {
                    Err(ValidationError::InvalidValue(crate::error::Field::State))
                }
            },
            _ => Err(ValidationError::WrongType(crate::error::Field::State)),
        }
    }
}

/// Relies on `std::time::SystemTime::now`, measured from the Unix epoch: the
/// whole seconds on the machine's clock, which may be any value, or `None`
/// where the clock stands before the epoch.
#[verifier::external_body]
fn clock_seconds() -> Option<u64> {
    std::time::SystemTime::now().duration_since(std::time::UNIX_EPOCH).ok().map(|d| d.as_secs())
}

/// A point in time, in seconds since the Unix epoch.
#[derive(Debug, Clone, Copy, PartialEq, Eq, PartialOrd, Ord, Hash, Structural)]
pub struct Timestamp {
    pub seconds: i64,
}

impl Timestamp {
    pub fn new(seconds: i64) -> (r: Timestamp)
        ensures
            r.seconds == seconds,
    {
        Timestamp { seconds }
    }

    /// The time now, as the machine's clock gives it; the epoch itself where
    /// the clock stands before it or beyond what a timestamp holds.
    pub fn now() -> (r: Timestamp)
        ensures
            r.seconds >= 0,
    {
        match clock_seconds() {
            Some(s) if s <= i64::MAX as u64 => Timestamp { seconds: s as i64 },
            _ => Timestamp { seconds: 0 },
        }
    }

    /// The document scalar that stores the time.
    pub fn to_scalar(&self) -> (r: Scalar)
        ensures
            r == Scalar::Timestamp(self.seconds),
    {
        Scalar::Timestamp(self.seconds)
    }
}

/// The identity that authored a patch, a revision, a comment or a review,
/// held by its URN text.
#[derive(Debug, Clone, PartialEq, Eq, Hash)]
pub enum Author {
    Urn { urn: String },
}

impl Author {
    pub open spec fn view(&self) -> Seq<char> {
        match self {
            Author::Urn { urn } => urn@,
        }
    }

    pub fn new(urn: String) -> (r: Author)
        ensures
            r.view() == urn@,
    {
        Author::Urn { urn }
    }

    pub fn urn(&self) -> (r: &String)
        ensures
            r@ == self.view(),
    {
        match self {
            Author::Urn { urn } => urn,
        }
    }
}

/// The identity of a peer that published a revision, held by its text.
#[derive(Debug, Clone, PartialEq, Eq, Hash)]
pub struct PeerId {
    id: String,
}

impl PeerId {
    pub closed spec fn view(&self) -> Seq<char> {
        self.id@
    }

    pub fn new(id: String) -> (r: PeerId)
        ensures
            r.view() == id@,
    {
        PeerId { id }
    }

    pub fn as_str(&self) -> (r: &str)
        ensures
            r@ == self.view(),
    {
        self.id.as_str()
    }

    /// A copy of the id.
    pub fn clone_id(&self) -> (r: PeerId)
        ensures
            r.view() == self.view(),
    {
        PeerId { id: self.id.clone() }
    }
}

/// A git object id, held by its canonical hex text.
#[derive(Debug, PartialEq, Eq, Hash)]
pub struct Oid {
    hex: String,
}

impl Oid {
    pub closed spec fn view(&self) -> Seq<char> {
        self.hex@
    }

    /// The text is the canonical form of an object id.
    #[verifier::type_invariant]
    pub open spec fn wf(&self) -> bool {
        parsed_oid(self.view()) == Some(self.view())
    }

    /// Parses an object id from hex text; `None` where git does not accept
    /// the text as one.
    pub fn from_str(s: &str) -> (r: Option<Oid>)
        ensures
            match r {
                Some(o) => parsed_oid(s@) == Some(o.view()),
                None => parsed_oid(s@).is_none(),
            },
    {
        match parse_oid(s) {
            Some(hex) => {
                proof {
                    lemma_canonical_oid(s@);
                }
                Some(Oid { hex })
            },
            None => None,
        }
    }

    pub fn as_str(&self) -> (r: &str)
        ensures
            r@ == self.view(),
    {
        self.hex.as_str()
    }

    /// Whether two ids are the same.
    pub fn same(&self, other: &Oid) -> (r: bool)
        ensures
            r == (self.view() == other.view()),
    {
        self.hex == other.hex
    }
}

impl Clone for Oid {
    fn clone(&self) -> (r: Oid)
        ensures
            r.view() == self.view(),
    {
        proof {
            use_type_invariant(self);
        }
        Oid { hex: self.hex.clone() }
    }
}

/// A label of a patch: a name with no surrounding whitespace, never empty.
#[derive(Debug, PartialEq, Eq, Hash)]
pub struct Label {
    name: String,
}

/// The label name that `s` gives, if any: `s` trimmed, when that is not empty.
pub open spec fn label_named(s: Seq<char>) -> Option<Seq<char>> {
    if trimmed(s).len() == 0 {
        None
    } else {
        Some(trimmed(s))
    }
}

impl Label {
    pub closed spec fn view(&self) -> Seq<char> {
        self.name@
    }

    #[verifier::type_invariant]
    pub open spec fn wf(&self) -> bool {
        self.view().len() > 0 && trimmed(self.view()) == self.view()
    }

    /// A label named by `name` without its surrounding whitespace; fails
    /// where nothing else is left.
    pub fn new(name: &str) -> (r: Result<Label, ValidationError>)
        ensures
            match label_named(name@) {
                Some(t) => r matches Ok(l) && l.view() == t,
                None => r == Err::<Label, ValidationError>(ValidationError::EmptyLabel),
            },
    {
        let t = trim(name);
        if t.as_str().unicode_len() == 0 {
            Err(ValidationError::EmptyLabel)
        } else {
            Ok(Label { name: t })
        }
    }

    pub fn name(&self) -> (r: &str)
        ensures
            r@ == self.view(),
    {
        self.name.as_str()
    }

    /// Whether two labels have the same name.
    pub fn same_name(&self, other: &Label) -> (r: bool)
        ensures
            r == (self.view() == other.view()),
    {
        self.name == other.name
    }
}

impl Clone for Label {
    fn clone(&self) -> (r: Label)
        ensures
            r.view() == self.view(),
    {
        proof {
            use_type_invariant(self);
        }
        Label { name: self.name.clone() }
    }
}

/// The names of a sequence of labels, as a set.
pub open spec fn label_set(labels: Seq<Label>) -> Set<Seq<char>> {
    labels.map_values(|l: Label| l.view()).to_set()
}

/// A comment as seen through its view.
pub struct CommentView {
    pub author: Seq<char>,
    pub body: Seq<char>,
    pub timestamp: i64,
}

/// A comment: its author, its text and when it was made.
#[derive(Debug, Clone, PartialEq, Eq)]
pub struct Comment {
    pub author: Author,
    pub body: String,
    pub timestamp: Timestamp,
}

impl Comment {
    pub open spec fn view(&self) -> CommentView {
        CommentView { author: self.author.view(), body: self.body@, timestamp: self.timestamp.seconds }
    }
}

/// A thread of a discussion as seen through its view.
pub struct ThreadView {
    pub comment: CommentView,
    pub replies: Seq<CommentView>,
}

/// A comment of a discussion with the replies to it.
#[derive(Debug, Clone, PartialEq, Eq)]
pub struct Thread {
    pub comment: Comment,
    pub replies: Vec<Comment>,
}

impl Thread {
    pub open spec fn view(&self) -> ThreadView {
        ThreadView { comment: self.comment.view(), replies: self.replies@.map_values(|c: Comment| c.view()) }
    }
}

/// A review verdict.
#[derive(Debug, Clone, Copy, PartialEq, Eq, Structural)]
pub enum Verdict {
    /// Accept the patch.
    Accept,
    /// Reject the patch.
    Reject,
    /// Give no verdict.
    Pass,
}

/// The verdict that a document string names.
pub open spec fn verdict_named(s: Seq<char>) -> Option<Verdict> {
    if s == "accept"@ {
        Some(Verdict::Accept)
    } else if s == "reject"@ {
        Some(Verdict::Reject)
    } else if s == "pass"@ {
        Some(Verdict::Pass)
    } else {
        None
    }
}

pub open spec fn verdict_name(v: Verdict) -> Seq<char> {
    match v {
        Verdict::Accept => "accept"@,
        Verdict::Reject => "reject"@,
        Verdict::Pass => "pass"@,
    }
}

impl Verdict {
    /// The lowercase name under which the document stores the verdict.
    pub fn name(&self) -> (r: String)
        ensures
            r@ == verdict_name(*self),
    {
        match self {
            Verdict::Accept => String::from_str("accept"),
            Verdict::Reject => String::from_str("reject"),
            Verdict::Pass => String::from_str("pass"),
        }
    }

    /// The document scalar that stores the verdict.
    pub fn to_scalar(&self) -> (r: Scalar)
        ensures
            r matches Scalar::Str(s) && s@ == verdict_name(*self),
    {
        Scalar::Str(self.name())
    }

    /// Reads a verdict from a document scalar: a string among `accept`,
    /// `reject` and `pass`.
    pub fn try_from_scalar(v: &Scalar) -> (r: Result<Verdict, ValidationError>)
        ensures
            match v {
                Scalar::Str(s) => match verdict_named(s@) {
                    Some(x) => r == Ok::<Verdict, ValidationError>(x),
                    None => r == Err::<Verdict, ValidationError>(
                        ValidationError::InvalidValue(crate::error::Field::Verdict),
                    ),
                },
                _ => r == Err::<Verdict, ValidationError>(
                    ValidationError::WrongType(crate::error::Field::Verdict),
                ),
            },
    {
        match v {
            Scalar::Str(s) => {
                if *s == String::from_str("accept") {
                    Ok(Verdict::Accept)
                } else if *s == String::from_str("reject") {
                    Ok(Verdict::Reject)
                } else if *s == String::from_str("pass") {
                    Ok(Verdict::Pass)
                } else {
                    Err(ValidationError::InvalidValue(crate::error::Field::Verdict))
                }
            },
            _ => Err(ValidationError::WrongType(crate::error::Field::Verdict)),
        }
    }
}

/// A place in the code: an inclusive range of lines of a file blob, at a
/// commit.
#[derive(Debug, Clone, PartialEq, Eq)]
pub struct CodeLocation {
    pub first_line: usize,
    pub last_line: usize,
    pub commit: Oid,
    pub blob: Oid,
}

/// A comment on a place in the code.
#[derive(Debug, Clone, PartialEq, Eq)]
pub struct CodeComment {
    location: CodeLocation,
    comment: Comment,
}

impl CodeComment {
    pub fn new(location: CodeLocation, comment: Comment) -> (r: CodeComment)
        ensures
            r.location() == location,
            r.comment() == comment,
    {
        CodeComment { location, comment }
    }

    pub closed spec fn location(&self) -> CodeLocation {
        self.location
    }

    pub closed spec fn comment(&self) -> Comment {
        self.comment
    }
}

/// A review of a revision.
#[derive(Debug, Clone, PartialEq, Eq)]
pub struct Review {
    pub author: Author,
    pub verdict: Verdict,
    pub comment: Comment,
    pub inline: Vec<CodeComment>,
    pub timestamp: Timestamp,
}

/// No two reviews have the same author.
pub open spec fn one_review_per_author(reviews: Seq<Review>) -> bool {
    forall|i: int, j: int|
        0 <= i < reviews.len() && 0 <= j < reviews.len() && i != j ==> reviews[i].author.view() != reviews[j].author.view()
}

/// A merge of a revision into a peer's repository.
#[derive(Debug, Clone, PartialEq, Eq)]
pub struct Merge {
    /// The peer whose repository the revision was merged into.
    pub peer: PeerId,
    /// The revision that was merged.
    pub revision: usize,
    /// The base branch commit that contains the revision.
    pub commit: Oid,
    pub timestamp: Timestamp,
}

/// A revision as seen through its view. Reviews and merges are counted.
pub struct RevisionView {
    pub author: Seq<char>,
    pub peer: Seq<char>,
    pub version: nat,
    pub commit: Seq<char>,
    pub comment: CommentView,
    pub discussion: Seq<ThreadView>,
    pub reviews: nat,
    pub merges: nat,
    pub timestamp: i64,
}

/// One proposed version of a patch's change-set.
#[derive(Debug, Clone, PartialEq, Eq)]
pub struct Revision {
    /// Author of this revision, not necessarily the patch's.
    pub author: Author,
    /// Peer who published this revision.
    pub peer: PeerId,
    /// Revision number: the position of the revision in its patch.
    pub version: usize,
    /// The commit holding the code.
    pub commit: Oid,
    /// Cover letter of this change-set.
    pub comment: Comment,
    /// Discussion around this revision.
    pub discussion: Vec<Thread>,
    /// Reviews of the revision, at most one per author
    /// (`one_review_per_author`).
    pub reviews: Vec<Review>,
    /// Merges of this revision into other repositories.
    pub merges: Vec<Merge>,
    /// When this revision was created.
    pub timestamp: Timestamp,
}

impl Revision {
    pub open spec fn view(&self) -> RevisionView {
        RevisionView {
            author: self.author.view(),
            peer: self.peer.view(),
            version: self.version as nat,
            commit: self.commit.view(),
            comment: self.comment.view(),
            discussion: self.discussion@.map_values(|t: Thread| t.view()),
            reviews: self.reviews@.len(),
            merges: self.merges@.len(),
            timestamp: self.timestamp.seconds,
        }
    }
}

#[verifier::external_type_specification]
#[verifier::external_body]
#[verifier::reject_recursive_types(T)]
pub struct ExNonEmpty<T>(nonempty::NonEmpty<T>);

/// The revisions that a non-empty list holds, in order, as views.
pub uninterp spec fn revision_list(v: nonempty::NonEmpty<Revision>) -> Seq<RevisionView>;

/// Relies on `NonEmpty::from_vec`: `None` for an empty vector, else a list
/// of the same items in the same order.
#[verifier::external_body]
pub(crate) fn nonempty_from_vec(v: Vec<Revision>) -> (r: Option<nonempty::NonEmpty<Revision>>)
    ensures
        (v@.len() == 0) == (r is None),
        r matches Some(ne) ==> revision_list(ne) == v@.map_values(|x: Revision| x.view()),
{
    nonempty::NonEmpty::from_vec(v)
}

/// A patch as seen through its view.
pub struct PatchView {
    pub author: Seq<char>,
    pub title: Seq<char>,
    pub state: State,
    pub target: Seq<char>,
    pub labels: Seq<Seq<char>>,
    pub revisions: Seq<RevisionView>,
    pub timestamp: i64,
}

/// A change-set that its author proposes for merging into a target branch.
#[derive(Debug, PartialEq, Eq)]
pub struct Patch {
    /// Author of the patch.
    pub author: Author,
    /// Title of the patch.
    pub title: String,
    /// Current state of the patch.
    pub state: State,
    /// Target branch this patch is meant to be merged in.
    pub target: String,
    /// Labels of the patch, each name once.
    pub labels: Vec<Label>,
    /// Revisions of the patch, in the order they were made; the first holds
    /// the initial change-set.
    pub revisions: nonempty::NonEmpty<Revision>,
    /// When the patch was created.
    pub timestamp: Timestamp,
}

impl Patch {
    pub open spec fn view(&self) -> PatchView {
        PatchView {
            author: self.author.view(),
            title: self.title@,
            state: self.state,
            target: self.target@,
            labels: self.labels@.map_values(|l: Label| l.view()),
            revisions: revision_list(self.revisions),
            timestamp: self.timestamp.seconds,
        }
    }
}

/// What holds of every patch a document describes: there is a first
/// revision, each revision's version is its position, and no label name
/// occurs twice.
pub open spec fn patch_view_wf(p: PatchView) -> bool {
    &&& p.revisions.len() > 0
    &&& forall|i: int| 0 <= i < p.revisions.len() ==> #[trigger] p.revisions[i].version == i
    &&& forall|i: int, j: int|
        0 <= i < p.labels.len() && 0 <= j < p.labels.len() && i != j ==> p.labels[i] != p.labels[j]
}

} // verus!
