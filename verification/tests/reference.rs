use gclone::address::{Address, HostKind};
use gclone::reference::{validate_fragment, TryUrl};

fn segments(a: &Address) -> Vec<String> {
    a.segments.clone().expect("a URL with a path")
}

#[test]
fn url_is_returned_unchanged() {
    let t = TryUrl::from_str("https://example.com/a/b").expect("a URL");
    assert_eq!(t.0.text, "https://example.com/a/b");
    assert!(matches!(&t.0.host, HostKind::Domain(d) if d == "example.com"));
    assert_eq!(segments(&t.0), vec!["a".to_string(), "b".to_string()]);
}

#[test]
fn url_keeps_its_own_host() {
    let t = TryUrl::from_str("https://gitlab.com/group/project").expect("a URL");
    assert_eq!(t.0.text, "https://gitlab.com/group/project");
}

#[test]
fn shorthand_goes_to_default_host() {
    let t = TryUrl::from_str("alice/bob").expect("a short reference");
    assert_eq!(t.0.text, "https://www.github.com/alice/bob");
    assert!(matches!(&t.0.host, HostKind::Domain(d) if d == "www.github.com"));
    assert_eq!(segments(&t.0), vec!["alice".to_string(), "bob".to_string()]);
}

#[test]
fn shorthand_equals_full_url() {
    let short = TryUrl::from_str("alice/bob").expect("a short reference");
    let full = TryUrl::from_str("https://www.github.com/alice/bob").expect("a URL");
    assert_eq!(short.0.text, full.0.text);
    assert_eq!(short.0.segments, full.0.segments);
}

#[test]
fn empty_reference_is_malformed() {
    let e = TryUrl::from_str("").expect_err("no reference");
    assert_eq!(e.diagnostic, "relative URL without a base");
}

#[test]
fn leading_slash_is_malformed() {
    let e = TryUrl::from_str("/foo").expect_err("no reference");
    assert_eq!(e.diagnostic, "relative URL without a base");
}

#[test]
fn single_word_is_malformed() {
    let e = TryUrl::from_str("foo").expect_err("no reference");
    assert_eq!(e.diagnostic, "relative URL without a base");
}

#[test]
fn trailing_slash_is_malformed() {
    assert!(TryUrl::from_str("foo/").is_err());
}

#[test]
fn three_parts_are_malformed() {
    assert!(TryUrl::from_str("a/b/c").is_err());
}

#[test]
fn diagnostic_is_that_of_the_text_itself() {
    let e = TryUrl::from_str("https://").expect_err("no host");
    assert_eq!(e.diagnostic, "empty host");
}

#[test]
fn fragment_shapes() {
    assert!(validate_fragment("a/b"));
    assert!(validate_fragment("alice/bob"));
    assert!(validate_fragment("é/ü"));
    assert!(!validate_fragment(""));
    assert!(!validate_fragment("/"));
    assert!(!validate_fragment("ab"));
    assert!(!validate_fragment("/b"));
    assert!(!validate_fragment("a/"));
    assert!(!validate_fragment("a/b/c"));
    assert!(!validate_fragment("a//b"));
    assert!(!validate_fragment("a/b/"));
}

#[test]
fn shorthand_url_puts_prefix_in_front() {
    assert_eq!(
        TryUrl::shorthand_url("alice/bob"),
        Some("https://www.github.com/alice/bob".to_string())
    );
    assert_eq!(TryUrl::shorthand_url("alice"), None);
    assert_eq!(TryUrl::shorthand_url("a/b/c"), None);
}

fn sample(text: &str) -> Address {
    Address { text: text.to_string(), host: HostKind::Absent, segments: None }
}

#[test]
fn settle_prefers_the_direct_outcome() {
    let r = TryUrl::settle(Ok(sample("x:")), Some(Ok(sample("y:")))).expect("an address");
    assert_eq!(r.0.text, "x:");
    let r = TryUrl::settle(Ok(sample("x:")), None).expect("an address");
    assert_eq!(r.into_address().text, "x:");
}

#[test]
fn settle_falls_back_on_the_retry() {
    let r = TryUrl::settle(Err("first".to_string()), Some(Ok(sample("y:")))).expect("an address");
    assert_eq!(r.0.text, "y:");
    let e = TryUrl::settle(Err("first".to_string()), Some(Err("second".to_string())))
        .expect_err("both failed");
    assert_eq!(e.diagnostic, "second");
}

#[test]
fn settle_without_retry_reports_the_direct_error() {
    let e = TryUrl::settle(Err("first".to_string()), None).expect_err("failed");
    assert_eq!(e.diagnostic, "first");
}
