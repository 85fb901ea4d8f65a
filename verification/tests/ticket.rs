//! Upload branch selection: the completion marker key routes to the legacy
//! multipart path with the triple extracted from the URL's trailing
//! segments; its absence routes to a direct PUT.

use kaggle::strutil::parse_u64;
use kaggle::ticket::{decide_upload_target, parse_legacy_url, TicketFields, UploadTarget};
use kaggle::KaggleError;

fn ticket(has_is_complete: bool, token: Option<&str>, create_url: Option<&str>) -> TicketFields {
    TicketFields {
        has_is_complete,
        token: token.map(|s| s.to_string()),
        create_url: create_url.map(|s| s.to_string()),
    }
}

#[test]
fn is_complete_routes_to_the_legacy_path_with_the_parsed_triple() {
    let t = ticket(
        true,
        None,
        Some("https://host/upload/abc-guid/1234/1600000000"),
    );
    match decide_upload_target(&t).unwrap() {
        UploadTarget::Legacy { guid, content_length, last_modified } => {
            assert_eq!(guid, "abc-guid");
            assert_eq!(content_length, 1234);
            assert_eq!(last_modified, 1600000000);
        }
        other => panic!("expected the legacy path, got {:?}", other),
    }
}

#[test]
fn no_marker_routes_to_the_direct_path() {
    let t = ticket(false, Some("tok"), Some("https://host/put/here"));
    match decide_upload_target(&t).unwrap() {
        UploadTarget::Direct { url } => assert_eq!(url, "https://host/put/here"),
        other => panic!("expected the direct path, got {:?}", other),
    }
}

#[test]
fn a_ticket_without_a_url_is_rejected() {
    let t = ticket(false, Some("tok"), None);
    assert!(matches!(
        decide_upload_target(&t).unwrap_err(),
        KaggleError::Metadata { .. }
    ));
}

#[test]
fn a_legacy_url_with_too_few_segments_is_rejected() {
    let t = ticket(true, None, Some("no-slashes-at-all"));
    assert!(decide_upload_target(&t).is_err());
    let t = ticket(true, None, Some("one/slash"));
    assert!(decide_upload_target(&t).is_err());
}

#[test]
fn a_legacy_url_with_non_numeric_segments_is_rejected() {
    let t = ticket(true, None, Some("https://host/upload/guid/12x4/1600000000"));
    assert!(decide_upload_target(&t).is_err());
    let t = ticket(true, None, Some("https://host/upload/guid/1234/late"));
    assert!(decide_upload_target(&t).is_err());
}

#[test]
fn legacy_triples_parse_from_the_last_three_segments() {
    let (guid, len, time) = parse_legacy_url("a/b/upload/the-guid/77/88").unwrap();
    assert_eq!(guid, "the-guid");
    assert_eq!(len, 77);
    assert_eq!(time, 88);
    // With exactly two slashes the first segment is the guid.
    let (guid, len, time) = parse_legacy_url("g/1/2").unwrap();
    assert_eq!(guid, "g");
    assert_eq!(len, 1);
    assert_eq!(time, 2);
}

#[test]
fn decimal_parsing_is_exact_and_bounded() {
    assert_eq!(parse_u64("0"), Some(0));
    assert_eq!(parse_u64("1600000000"), Some(1600000000));
    assert_eq!(parse_u64("18446744073709551615"), Some(u64::MAX));
    assert_eq!(parse_u64("18446744073709551616"), None);
    assert_eq!(parse_u64(""), None);
    assert_eq!(parse_u64("12a"), None);
    assert_eq!(parse_u64("-1"), None);
}
