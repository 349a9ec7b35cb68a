use radicle_patch::doc::{Entry, Node, Scalar};
use radicle_patch::engine::replay;
use radicle_patch::error::{Error, Field, ValidationError};
use radicle_patch::events::{create, create_document};
use radicle_patch::projection::project;
use radicle_patch::store::{patch_from_history, sort_by_timestamp, Patches, TYPENAME};
use radicle_patch::types::{Author, Label, Oid, PeerId, State, Timestamp, Verdict};

const URN: &str = "rad:git:hnrkyghsrokxzxpy9pww69xr11dr9q7edbxfo";
const PEER: &str = "hyn9diwfnytahjq8u3iw63h9jte1ydcatxax3saymwdxqu1zo645pe";

fn zero() -> Oid {
    Oid::from_str(&git2::Oid::zero().to_string()).unwrap()
}

fn author() -> Author {
    Author::new(URN.to_owned())
}

fn peer() -> PeerId {
    PeerId::new(PEER.to_owned())
}

fn s(v: &str) -> Node {
    Node::Scalar(Scalar::Str(v.to_owned()))
}

fn e(k: &str, v: Node) -> Entry {
    Entry { key: k.to_owned(), value: v }
}

fn seed(title: &str, labels: &[&str], t: i64) -> Node {
    let labels: Vec<Label> = labels.iter().map(|l| Label::new(l).unwrap()).collect();
    create_document(&author(), &peer(), title, "Blah blah blah.", "master", &zero(), Timestamp::new(t), &labels).unwrap()
}

/// The entries of the `patch` map of a document.
fn patch_entries(doc: &mut Node) -> &mut Vec<Entry> {
    match doc {
        Node::Object(root) => match &mut root[0].value {
            Node::Object(es) => es,
            _ => panic!("patch is not a map"),
        },
        _ => panic!("root is not a map"),
    }
}

#[test]
fn test_patch_create_and_get() {
    let author = author();
    let patches = Patches::new(author.clone(), peer());
    let commit = zero();
    let created = Timestamp::now();
    let object = patches.create("My first patch", "Blah blah blah.", "master", &commit, &vec![]).unwrap();
    let created_at = object.timestamp;
    let patch = patches.get(Some(vec![object.history])).unwrap().unwrap();
    assert_eq!(patch.timestamp, created_at);
    let timestamp = Timestamp::now();

    assert_eq!(&patch.title, "My first patch");
    assert_eq!(patch.author.urn(), author.urn());
    assert_eq!(patch.state, State::Open);
    assert!(patch.timestamp >= created);
    assert!(patch.timestamp <= timestamp);

    let revision = patch.revisions.head;

    assert_eq!(revision.author, Author::Urn { urn: URN.to_owned() });
    assert_eq!(revision.peer, peer());
    assert_eq!(revision.comment.body, "Blah blah blah.");
    assert_eq!(revision.discussion.len(), 0);
    assert_eq!(revision.version, 0);
    assert_eq!(revision.commit, commit);
    assert!(revision.reviews.is_empty());
    assert!(revision.merges.is_empty());
}

#[test]
fn create_object_carries_type_name() {
    let patches = Patches::new(author(), peer());
    let object = patches.create("Title", "", "master", &zero(), &vec![]).unwrap();
    assert_eq!(object.typename, TYPENAME);
    assert_eq!(TYPENAME, "xyz.radicle.patch");
    assert_eq!(object.message, "Create patch");
    assert!(object.schema.contains("\"revisions\""));
    assert!(!object.history.is_empty());
}

#[test]
fn round_trip_through_engine() {
    let labels = vec![Label::new("bug").unwrap(), Label::new("ui").unwrap()];
    let bytes = create(
        &author(), &peer(), "  Fix the thing  ", "  Details.\n", "main", &zero(), Timestamp::new(1_650_000_000), &labels,
    )
    .unwrap();
    let patch = patch_from_history(&vec![bytes]).unwrap();
    assert_eq!(patch.title, "Fix the thing");
    assert_eq!(patch.author, author());
    assert_eq!(patch.state, State::Open);
    assert_eq!(patch.target, "main");
    assert_eq!(patch.timestamp, Timestamp::new(1_650_000_000));
    assert_eq!(patch.revisions.len(), 1);
    let r = &patch.revisions[0];
    assert_eq!(r.version, 0);
    assert_eq!(r.peer.as_str(), PEER);
    assert_eq!(r.commit, zero());
    assert_eq!(r.comment.body, "Details.");
    assert_eq!(r.comment.author, author());
    assert_eq!(r.timestamp, Timestamp::new(1_650_000_000));
    let mut names: Vec<&str> = patch.labels.iter().map(|l| l.name()).collect();
    names.sort();
    assert_eq!(names, vec!["bug", "ui"]);
}

#[test]
fn round_trip_in_tree() {
    let doc = seed("Hello", &[], 42);
    let patch = project(&doc).unwrap();
    assert_eq!(patch.title, "Hello");
    assert_eq!(patch.timestamp.seconds, 42);
    assert_eq!(patch.revisions[0].comment.body, "Blah blah blah.");
}

#[test]
fn blank_title_is_rejected() {
    let patches = Patches::new(author(), peer());
    match patches.create("   \n\t", "d", "master", &zero(), &vec![]) {
        Err(Error::Validation(ValidationError::EmptyTitle)) => {}
        other => panic!("unexpected: {:?}", other.map(|o| o.typename)),
    }
    let r = create_document(&author(), &peer(), "", "d", "master", &zero(), Timestamp::new(1), &vec![]);
    assert_eq!(r.err(), Some(ValidationError::EmptyTitle));
}

#[test]
fn version_mismatch_fails() {
    let mut doc = seed("Title", &[], 1);
    let es = patch_entries(&mut doc);
    let revs = es.iter_mut().find(|x| x.key == "revisions").unwrap();
    if let Node::Array(items) = &mut revs.value {
        if let Node::Object(fields) = &mut items[0] {
            let v = fields.iter_mut().find(|x| x.key == "version").unwrap();
            v.value = Node::Scalar(Scalar::Uint(1));
        }
    }
    assert_eq!(project(&doc).err(), Some(ValidationError::VersionMismatch { index: 0, found: 1 }));
}

#[test]
fn versions_follow_positions() {
    let mut doc = seed("Title", &[], 1);
    let es = patch_entries(&mut doc);
    let revs = es.iter_mut().find(|x| x.key == "revisions").unwrap();
    if let Node::Array(items) = &mut revs.value {
        let second = match &items[0] {
            Node::Object(fields) => Node::Object(
                fields
                    .iter()
                    .map(|f| {
                        if f.key == "version" {
                            e("version", Node::Scalar(Scalar::Uint(1)))
                        } else {
                            clone_entry(f)
                        }
                    })
                    .collect(),
            ),
            _ => panic!(),
        };
        items.push(second);
    }
    let patch = project(&doc).unwrap();
    assert_eq!(patch.revisions.len(), 2);
    for (i, r) in patch.revisions.iter().enumerate() {
        assert_eq!(r.version, i);
    }
}

fn clone_node(n: &Node) -> Node {
    match n {
        Node::Scalar(Scalar::Str(v)) => Node::Scalar(Scalar::Str(v.clone())),
        Node::Scalar(Scalar::Int(v)) => Node::Scalar(Scalar::Int(*v)),
        Node::Scalar(Scalar::Uint(v)) => Node::Scalar(Scalar::Uint(*v)),
        Node::Scalar(Scalar::Timestamp(v)) => Node::Scalar(Scalar::Timestamp(*v)),
        Node::Scalar(Scalar::Boolean(v)) => Node::Scalar(Scalar::Boolean(*v)),
        Node::Scalar(Scalar::Other) => Node::Scalar(Scalar::Other),
        Node::Object(es) => Node::Object(es.iter().map(clone_entry).collect()),
        Node::Array(items) => Node::Array(items.iter().map(clone_node).collect()),
    }
}

fn clone_entry(x: &Entry) -> Entry {
    e(&x.key, clone_node(&x.value))
}

#[test]
fn duplicate_labels_are_kept_once() {
    let doc = seed("Title", &["bug", " bug ", "ui", "bug"], 1);
    let patch = project(&doc).unwrap();
    let names: Vec<&str> = patch.labels.iter().map(|l| l.name()).collect();
    assert_eq!(names, vec!["bug", "ui"]);
}

#[test]
fn blank_label_is_rejected() {
    assert_eq!(Label::new("   ").err(), Some(ValidationError::EmptyLabel));
    assert_eq!(Label::new("  needs review ").unwrap().name(), "needs review");
}

#[test]
fn unparseable_change_is_skipped() {
    let bytes = create(&author(), &peer(), "Title", "d", "master", &zero(), Timestamp::new(7), &vec![]).unwrap();
    let history = vec![vec![1u8, 2, 3], bytes, b"garbage".to_vec()];
    let replayed = replay(&history);
    assert_eq!(replayed.applied, vec![1]);
    assert_eq!(replayed.skipped, vec![0, 2]);
    let patch = patch_from_history(&history).unwrap();
    assert_eq!(patch.title, "Title");
    assert_eq!(patch.timestamp.seconds, 7);
}

#[test]
fn empty_history_fails_validation() {
    match patch_from_history(&vec![]) {
        Err(Error::Validation(ValidationError::Missing(Field::Patch))) => {}
        _ => panic!("expected a missing patch"),
    }
}

#[test]
fn listing_is_ordered_by_creation_time() {
    let patches = Patches::new(author(), peer());
    let make = |title: &str, t: i64| {
        create(&author(), &peer(), title, "", "master", &zero(), Timestamp::new(t), &vec![]).unwrap()
    };
    let listed = vec![
        ("b".to_owned(), vec![make("second", 200)]),
        ("c".to_owned(), vec![make("third", 300)]),
        ("a".to_owned(), vec![make("first", 100)]),
    ];
    let all = patches.all(listed).unwrap();
    let order: Vec<(&str, &str)> = all.iter().map(|(id, p)| (id.as_str(), p.title.as_str())).collect();
    assert_eq!(order, vec![("a", "first"), ("b", "second"), ("c", "third")]);
}

#[test]
fn sort_keeps_equal_times_in_order() {
    let p = |t: &str, s: i64| project(&seed(t, &[], s)).unwrap();
    let v = vec![("x".to_owned(), p("x", 5)), ("y".to_owned(), p("y", 1)), ("z".to_owned(), p("z", 5))];
    let sorted = sort_by_timestamp(v);
    let ids: Vec<&str> = sorted.iter().map(|(id, _)| id.as_str()).collect();
    assert_eq!(ids, vec!["y", "x", "z"]);
}

#[test]
fn unknown_object_is_none() {
    let patches = Patches::new(author(), peer());
    assert!(matches!(patches.get(None), Ok(None)));
}

#[test]
fn missing_title_is_reported() {
    let mut doc = seed("Title", &[], 1);
    patch_entries(&mut doc).retain(|x| x.key != "title");
    assert_eq!(project(&doc).err(), Some(ValidationError::Missing(Field::Title)));
}

#[test]
fn ill_typed_timestamp_is_reported() {
    let mut doc = seed("Title", &[], 1);
    let ts = patch_entries(&mut doc).iter_mut().find(|x| x.key == "timestamp").unwrap();
    ts.value = s("yesterday");
    assert_eq!(project(&doc).err(), Some(ValidationError::WrongType(Field::Timestamp)));
}

#[test]
fn unknown_state_is_reported() {
    let mut doc = seed("Title", &[], 1);
    let st = patch_entries(&mut doc).iter_mut().find(|x| x.key == "state").unwrap();
    st.value = s("merged");
    assert_eq!(project(&doc).err(), Some(ValidationError::InvalidValue(Field::State)));
    st_check();
}

fn st_check() {
    assert_eq!(State::try_from_scalar(&Scalar::Str("draft".into())), Ok(State::Draft));
    assert_eq!(State::try_from_scalar(&Scalar::Uint(1)), Err(ValidationError::WrongType(Field::State)));
    assert_eq!(State::Closed.name(), "closed");
}

#[test]
fn no_revisions_is_reported() {
    let mut doc = seed("Title", &[], 1);
    let revs = patch_entries(&mut doc).iter_mut().find(|x| x.key == "revisions").unwrap();
    revs.value = Node::Array(vec![]);
    assert_eq!(project(&doc).err(), Some(ValidationError::NoRevisions));
}

#[test]
fn bad_commit_is_reported() {
    let mut doc = seed("Title", &[], 1);
    let revs = patch_entries(&mut doc).iter_mut().find(|x| x.key == "revisions").unwrap();
    if let Node::Array(items) = &mut revs.value {
        if let Node::Object(fields) = &mut items[0] {
            let c = fields.iter_mut().find(|x| x.key == "commit").unwrap();
            c.value = s("not-hex");
        }
    }
    assert_eq!(project(&doc).err(), Some(ValidationError::InvalidValue(Field::Commit)));
}

#[test]
fn verdict_names() {
    assert_eq!(Verdict::try_from_scalar(&Scalar::Str("accept".into())), Ok(Verdict::Accept));
    assert_eq!(Verdict::try_from_scalar(&Scalar::Str("pass".into())), Ok(Verdict::Pass));
    assert_eq!(
        Verdict::try_from_scalar(&Scalar::Str("maybe".into())),
        Err(ValidationError::InvalidValue(Field::Verdict))
    );
    assert_eq!(Verdict::Reject.name(), "reject");
}

#[test]
fn oid_text_is_canonical() {
    let upper = "ABCDEF0123456789ABCDEF0123456789ABCDEF01";
    let oid = Oid::from_str(upper).unwrap();
    assert_eq!(oid.as_str(), "abcdef0123456789abcdef0123456789abcdef01");
    assert!(Oid::from_str("xyz").is_none());
}

#[test]
fn profiles_are_counted() {
    assert_eq!(radicle_patch::profile::count(&vec!["a", "b", "c"]), 3);
    assert_eq!(radicle_patch::profile::count::<u8>(&vec![]), 0);
}

#[test]
fn target_must_be_a_branch_name() {
    for bad in ["", "a..b", "feature/", "with space", "x~1"] {
        let r = create_document(&author(), &peer(), "Title", "d", bad, &zero(), Timestamp::new(1), &vec![]);
        assert_eq!(r.err(), Some(ValidationError::InvalidValue(Field::Target)), "{bad}");
    }
    let mut doc = seed("Title", &[], 1);
    let t = patch_entries(&mut doc).iter_mut().find(|x| x.key == "target").unwrap();
    t.value = s("bad..name");
    assert_eq!(project(&doc).err(), Some(ValidationError::InvalidValue(Field::Target)));
    assert!(radicle_patch::types::is_valid_target("master"));
    assert!(radicle_patch::types::is_valid_target("feature/login"));
}

#[test]
fn replay_is_repeatable() {
    let bytes = create(&author(), &peer(), "Again", "d", "master", &zero(), Timestamp::new(9), &vec![]).unwrap();
    let h = vec![bytes];
    assert_eq!(patch_from_history(&h).unwrap(), patch_from_history(&h).unwrap());
}

#[test]
fn duplicate_labels_survive_the_engine_once() {
    let labels: Vec<Label> = ["bug", " bug", "ui", "bug "].iter().map(|l| Label::new(l).unwrap()).collect();
    let bytes = create(&author(), &peer(), "T", "", "master", &zero(), Timestamp::new(3), &labels).unwrap();
    let patch = patch_from_history(&vec![bytes]).unwrap();
    let mut names: Vec<&str> = patch.labels.iter().map(|l| l.name()).collect();
    names.sort();
    assert_eq!(names, vec!["bug", "ui"]);
}

#[test]
fn short_oid_is_padded() {
    let oid = Oid::from_str("ABC").unwrap();
    assert_eq!(oid.as_str(), format!("abc{}", "0".repeat(37)));
    assert!(Oid::from_str("").is_none());
    assert!(Oid::from_str(&"a".repeat(41)).is_none());
}
