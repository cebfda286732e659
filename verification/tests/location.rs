use gclone::address::{Address, HostKind};
use gclone::filing::{cache_path, choose_source, Source};
use gclone::location::{
    path_shape, without_www, LocationParsingError, LocationPart, PathShape, RepoLocation,
};
use gclone::reference::TryUrl;

fn locate(reference: &str) -> Result<RepoLocation, LocationParsingError> {
    let t = TryUrl::from_str(reference).expect("a reference");
    RepoLocation::from_url(t.into_address())
}

fn address(host: HostKind, segments: Option<Vec<&str>>) -> Address {
    Address {
        text: "https://unused.example/".to_string(),
        host,
        segments: segments.map(|v| v.into_iter().map(String::from).collect()),
    }
}

fn domain(name: &str) -> HostKind {
    HostKind::Domain(name.to_string())
}

#[test]
fn github_with_www_and_two_segments() {
    let l = locate("https://www.github.com/alice/bob").expect("a location");
    assert_eq!(l.host, "github.com");
    assert_eq!(l.parent, Some("alice".to_string()));
    assert_eq!(l.repo, "bob");
    assert_eq!(l.url.text, "https://www.github.com/alice/bob");
}

#[test]
fn single_segment_has_no_parent() {
    let l = locate("https://example.com/onlyrepo").expect("a location");
    assert_eq!(l.host, "example.com");
    assert_eq!(l.parent, None);
    assert_eq!(l.repo, "onlyrepo");
}

#[test]
fn ipv4_host_is_invalid() {
    let e = locate("https://192.168.0.1/a/b").expect_err("an IP literal");
    assert_eq!(e, LocationParsingError(LocationPart::InvalidHost));
}

#[test]
fn ipv6_host_is_invalid() {
    let e = locate("https://[::1]/a/b").expect_err("an IP literal");
    assert_eq!(e.0, LocationPart::InvalidHost);
}

#[test]
fn absent_host_is_invalid() {
    let e = locate("file:///a/b").expect_err("no host");
    assert_eq!(e.0, LocationPart::InvalidHost);
}

#[test]
fn bare_domain_misses_path() {
    let e = locate("https://example.com/").expect_err("no path");
    assert_eq!(e, LocationParsingError(LocationPart::Parent));
    let e = locate("https://example.com").expect_err("no path");
    assert_eq!(e.0, LocationPart::Parent);
}

#[test]
fn url_that_cannot_be_a_base_misses_path() {
    let e = locate("data:text/plain,Hello").expect_err("no path");
    assert_eq!(e.0, LocationPart::Parent);
}

#[test]
fn path_is_judged_before_host() {
    let e = locate("https://192.168.0.1/").expect_err("no path");
    assert_eq!(e.0, LocationPart::Parent);
}

#[test]
fn deeper_segments_are_ignored() {
    let l = locate("https://gitlab.com/group/sub/project").expect("a location");
    assert_eq!(l.parent, Some("group".to_string()));
    assert_eq!(l.repo, "sub");
}

#[test]
fn trailing_slash_leaves_one_segment() {
    let l = locate("https://example.com/repo/").expect("a location");
    assert_eq!(l.parent, None);
    assert_eq!(l.repo, "repo");
}

#[test]
fn empty_first_segment_misses_path() {
    let e = locate("https://example.com//repo").expect_err("no first segment");
    assert_eq!(e.0, LocationPart::Parent);
}

#[test]
fn shorthand_and_full_url_resolve_alike() {
    let short = locate("alice/bob").expect("a location");
    let full = locate("https://www.github.com/alice/bob").expect("a location");
    assert_eq!(short.host, full.host);
    assert_eq!(short.parent, full.parent);
    assert_eq!(short.repo, full.repo);
    assert_eq!(short.host, "github.com");
    assert_eq!(short.parent, Some("alice".to_string()));
    assert_eq!(short.repo, "bob");
}

#[test]
fn from_url_on_plain_values() {
    let l = RepoLocation::from_url(address(domain("www.example.org"), Some(vec!["p", "r", "x"])))
        .expect("a location");
    assert_eq!(l.host, "example.org");
    assert_eq!(l.parent, Some("p".to_string()));
    assert_eq!(l.repo, "r");
    let e = RepoLocation::from_url(address(HostKind::Ipv4, Some(vec!["p", "r"])))
        .expect_err("an IP literal");
    assert_eq!(e.0, LocationPart::InvalidHost);
    let e = RepoLocation::from_url(address(domain("example.org"), None)).expect_err("no path");
    assert_eq!(e.0, LocationPart::Parent);
    let e = RepoLocation::from_url(address(domain("example.org"), Some(vec![])))
        .expect_err("no path");
    assert_eq!(e.0, LocationPart::Parent);
}

#[test]
fn path_shapes() {
    let one = path_shape(&Some(vec!["r".to_string()]));
    assert!(matches!(one, Some(PathShape::OneSegment(r)) if r == "r"));
    let two = path_shape(&Some(vec!["p".to_string(), "r".to_string()]));
    assert!(matches!(two, Some(PathShape::TwoSegments(p, r)) if p == "p" && r == "r"));
    let trailing = path_shape(&Some(vec!["r".to_string(), String::new()]));
    assert!(matches!(trailing, Some(PathShape::OneSegment(r)) if r == "r"));
    assert!(path_shape(&Some(vec![String::new()])).is_none());
    assert!(path_shape(&None).is_none());
}

#[test]
fn www_is_stripped_once_and_only_in_front() {
    assert_eq!(without_www("www.github.com"), "github.com");
    assert_eq!(without_www("www.www.example.com"), "www.example.com");
    assert_eq!(without_www("WWW.example.com"), "WWW.example.com");
    assert_eq!(without_www("my.www.example.com"), "my.www.example.com");
    assert_eq!(without_www("www"), "www");
    assert_eq!(without_www("www."), "");
    assert_eq!(without_www(""), "");
}

#[test]
fn error_messages() {
    assert_eq!(LocationParsingError::parent().message(), "unable to parse parent portion of url");
    assert_eq!(LocationParsingError::host().message(), "invalid hostname");
    assert_eq!(LocationParsingError::parent().0, LocationPart::Parent);
    assert_eq!(LocationParsingError::host().0, LocationPart::InvalidHost);
}

#[test]
fn cache_path_with_and_without_parent() {
    let l = locate("https://www.github.com/alice/bob").expect("a location");
    assert_eq!(cache_path(&l), vec!["github.com".to_string(), "alice".to_string(), "bob".to_string()]);
    let l = locate("https://example.com/onlyrepo").expect("a location");
    assert_eq!(cache_path(&l), vec!["example.com".to_string(), "onlyrepo".to_string()]);
}

#[test]
fn sources_of_a_filing() {
    assert!(matches!(choose_source(Some("rust".to_string()), false), Source::Given(v) if v == "rust"));
    assert!(matches!(choose_source(Some("rust".to_string()), true), Source::Given(v) if v == "rust"));
    assert!(matches!(choose_source(None, false), Source::Derived));
    assert!(matches!(choose_source(None, true), Source::Missing));
}

#[test]
fn address_goes_in_and_out_of_a_reference() {
    let a = address(domain("example.org"), Some(vec!["p", "r"]));
    let t = TryUrl::from(a);
    assert_eq!(t.0.segments, Some(vec!["p".to_string(), "r".to_string()]));
    let back = Address::from(t);
    assert!(matches!(&back.host, HostKind::Domain(d) if d == "example.org"));
}
