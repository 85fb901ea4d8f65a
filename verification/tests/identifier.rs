//! Identifier parsing: owner/slug splitting with the authenticated user as
//! the implied owner of bare slugs.

use kaggle::client::{parse_identifier, KaggleApiClient};

#[test]
fn two_segments_split_into_owner_and_slug() {
    let r = parse_identifier("bob", "alice/my-data").unwrap();
    assert_eq!(r.0, "alice");
    assert_eq!(r.1, "my-data");
}

#[test]
fn single_segment_belongs_to_the_authenticated_user() {
    let r = parse_identifier("alice", "my-data").unwrap();
    assert_eq!(r.0, "alice");
    assert_eq!(r.1, "my-data");
}

#[test]
fn three_segments_are_rejected() {
    let e = parse_identifier("alice", "a/b/c").unwrap_err();
    assert!(matches!(e, kaggle::KaggleError::Metadata { .. }));
}

#[test]
fn empty_identifier_is_a_bare_slug() {
    let r = parse_identifier("alice", "").unwrap();
    assert_eq!(r.0, "alice");
    assert_eq!(r.1, "");
}

#[test]
fn trailing_slash_keeps_an_empty_slug() {
    let r = parse_identifier("alice", "owner/").unwrap();
    assert_eq!(r.0, "owner");
    assert_eq!(r.1, "");
}

#[test]
fn client_defaults_owner_to_its_username() {
    let client = KaggleApiClient::new(
        "carol".to_string(),
        "https://www.kaggle.com/api/v1/".to_string(),
        ".".to_string(),
    );
    let r = client.get_user_and_identifier_slug("some-set").unwrap();
    assert_eq!(r.0, "carol");
    assert_eq!(r.1, "some-set");
    let r = client.get_user_and_identifier_slug("dan/some-set").unwrap();
    assert_eq!(r.0, "dan");
    assert_eq!(r.1, "some-set");
    assert!(client.get_user_and_identifier_slug("a/b/c").is_err());
}
