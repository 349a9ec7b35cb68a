use radicle_patch::checkout::{checkout_peer, CheckoutError};
use radicle_patch::tags::{from_tag, state, strip_prefix, State, TAG_PREFIX};
use radicle_patch::types::{Oid, PeerId};

fn oid(c: char) -> Oid {
    Oid::from_str(&c.to_string().repeat(40)).unwrap()
}

#[test]
fn patch_tag_is_read() {
    let m = from_tag(Some("patches/my-branch"), Some("Title\nBody".to_owned()), oid('a'), PeerId::new("peer".to_owned()))
        .unwrap();
    assert_eq!(m.id, "my-branch");
    assert_eq!(m.message.as_deref(), Some("Title\nBody"));
    assert_eq!(m.commit, oid('a'));
    assert_eq!(TAG_PREFIX, "patches/");
}

#[test]
fn other_tags_are_not_patches() {
    assert!(from_tag(Some("v1.0.0"), None, oid('a'), PeerId::new("p".to_owned())).is_none());
    assert!(from_tag(None, None, oid('a'), PeerId::new("p".to_owned())).is_none());
    assert!(from_tag(Some("patches"), None, oid('a'), PeerId::new("p".to_owned())).is_none());
    assert_eq!(strip_prefix("patches/", "patches/"), Some(""));
    assert_eq!(strip_prefix("héllo", "hé"), Some("llo"));
}

#[test]
fn merged_when_merge_base_is_the_commit() {
    let m = from_tag(Some("patches/x"), None, oid('b'), PeerId::new("p".to_owned())).unwrap();
    assert_eq!(state(Some(&oid('b')), &m), State::Merged);
    assert_eq!(state(Some(&oid('c')), &m), State::Open);
    assert_eq!(state(None, &m), State::Open);
}

#[test]
fn checkout_peer_choice() {
    let one = vec![PeerId::new("d1".to_owned())];
    let two = vec![PeerId::new("d1".to_owned()), PeerId::new("d2".to_owned())];
    assert_eq!(checkout_peer(true, &two), Ok(None));
    assert_eq!(checkout_peer(false, &one), Ok(Some(PeerId::new("d1".to_owned()))));
    assert_eq!(checkout_peer(false, &two), Err(CheckoutError::ManyDelegates));
    assert_eq!(checkout_peer(false, &vec![]), Err(CheckoutError::NoDelegates));
}
