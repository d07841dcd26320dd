use follow_redirects::error::Error;
use follow_redirects::uri::Uri;

fn resolved(base: &str, location: &[u8]) -> String {
    let base = Uri::parse(base).unwrap();
    base.compute_redirect(location).unwrap().to_text()
}

fn rejected(base: &str, location: &[u8]) -> String {
    let base = Uri::parse(base).unwrap();
    match base.compute_redirect(location) {
        Err(Error::InvalidLocationHeader(text)) => text,
        other => panic!("expected an invalid location, got {:?}", other),
    }
}

#[test]
fn extends_empty_path() {
    let base = Uri::parse("http://example.org").unwrap();
    let new = base.compute_redirect(b"/index.html").unwrap();
    assert_eq!("http://example.org/index.html", &new.to_text());
}

#[test]
fn retains_scheme_and_authority() {
    let base = Uri::parse("http://example.org/foo?x=1").unwrap();
    let new = base.compute_redirect(b"/bar?y=1").unwrap();
    assert_eq!("http://example.org/bar?y=1", &new.to_text());
}

#[test]
fn replaces_scheme_and_authority() {
    let base = Uri::parse("http://example.org/foo?x=1").unwrap();
    let new = base.compute_redirect(b"https://example.com/bar?y=1").unwrap();
    assert_eq!("https://example.com/bar?y=1", &new.to_text());
}

#[test]
fn relative_location_drops_old_path_and_query() {
    assert_eq!("http://a.com/x", resolved("http://a.com/p?q", b"/x"));
}

#[test]
fn absolute_location_replaces_everything() {
    assert_eq!("https://b.com/y", resolved("http://a.com/p", b"https://b.com/y"));
}

#[test]
fn relative_location_keeps_port() {
    assert_eq!("http://a.com:8080/y", resolved("http://a.com:8080/p", b"/y"));
}

#[test]
fn parse_splits_a_uri_into_its_parts() {
    let uri = Uri::parse("https://user@example.com:8443/a/b?c=d").unwrap();
    assert_eq!(Some("https"), uri.scheme());
    assert_eq!(Some("user@example.com:8443"), uri.authority());
    assert_eq!(Some("example.com"), uri.host());
    assert_eq!(Some(8443), uri.port());
    assert_eq!(Some("/a/b?c=d"), uri.path_and_query());
    assert_eq!("https://user@example.com:8443/a/b?c=d", uri.to_text());
}

#[test]
fn parse_of_a_path_has_no_scheme_and_no_authority() {
    let uri = Uri::parse("/only/a/path").unwrap();
    assert_eq!(None, uri.scheme());
    assert_eq!(None, uri.authority());
    assert_eq!(None, uri.host());
    assert_eq!(None, uri.port());
    assert_eq!(Some("/only/a/path"), uri.path_and_query());
    assert_eq!("/only/a/path", uri.to_text());
}

#[test]
fn parse_rejects_what_is_no_uri() {
    assert!(Uri::parse("http://exa mple.org/").is_none());
    assert!(Uri::parse("").is_none());
}

#[test]
fn clone_keeps_every_part() {
    let uri = Uri::parse("http://example.org:81/foo?x=1").unwrap();
    let copy = uri.clone();
    assert_eq!(uri.to_text(), copy.to_text());
    assert_eq!(Some("example.org"), copy.host());
    assert_eq!(Some(81), copy.port());
    assert!(uri.is_same_host(&copy));
}

#[test]
fn join_inherits_scheme_and_authority() {
    let base = Uri::parse("http://example.org:81/foo").unwrap();
    let reference = Uri::parse("/bar").unwrap();
    let joined = base.join(reference).unwrap();
    assert_eq!("http://example.org:81/bar", joined.to_text());
    assert_eq!(Some("example.org"), joined.host());
    assert_eq!(Some(81), joined.port());
}

#[test]
fn join_of_two_relative_references_stays_relative() {
    let base = Uri::parse("/foo").unwrap();
    let reference = Uri::parse("/bar").unwrap();
    assert_eq!("/bar", base.join(reference).unwrap().to_text());
}

#[test]
fn join_fails_without_a_path() {
    let base = Uri::parse("http://example.org/foo").unwrap();
    let reference = Uri::parse("example.com").unwrap();
    assert!(base.join(reference).is_none());
}

#[test]
fn location_that_is_no_text_is_reported_as_invalid() {
    assert_eq!("<invalid>", rejected("http://example.org/", &[0x2f, 0xff, 0xfe]));
}

#[test]
fn location_that_does_not_parse_is_reported_with_its_text() {
    assert_eq!("http://exa mple.org/", rejected("http://example.org/", b"http://exa mple.org/"));
}

#[test]
fn location_without_a_path_is_reported_with_its_text() {
    assert_eq!("example.com", rejected("http://example.org/", b"example.com"));
}

#[test]
fn location_with_text_beyond_ascii_is_reported_with_its_text() {
    assert_eq!("/caf\u{e9}", rejected("http://example.org/", "/caf\u{e9}".as_bytes()));
}

#[test]
fn same_host_needs_equal_host_and_port() {
    let a = Uri::parse("http://a.com:8080/x").unwrap();
    let b = Uri::parse("https://a.com:8080/y?z").unwrap();
    let other_port = Uri::parse("http://a.com:8081/x").unwrap();
    let no_port = Uri::parse("http://a.com/x").unwrap();
    let default_port = Uri::parse("http://a.com:80/x").unwrap();
    let other_host = Uri::parse("http://b.com:8080/x").unwrap();
    let upper = Uri::parse("http://A.com:8080/x").unwrap();
    let relative = Uri::parse("/x").unwrap();
    assert!(a.is_same_host(&b));
    assert!(!a.is_same_host(&other_port));
    assert!(!a.is_same_host(&no_port));
    assert!(!no_port.is_same_host(&default_port));
    assert!(!a.is_same_host(&other_host));
    assert!(!a.is_same_host(&upper));
    assert!(!a.is_same_host(&relative));
    assert!(relative.is_same_host(&relative));
}

#[test]
fn user_info_is_no_part_of_the_host() {
    let a = Uri::parse("http://alice@a.com/x").unwrap();
    let b = Uri::parse("http://bob:pw@a.com/y").unwrap();
    assert!(a.is_same_host(&b));
    assert_eq!(Some("a.com"), b.host());
}
