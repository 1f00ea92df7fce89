use http_forward::error::ConfigError;
use http_forward::target::{get_forward_addr, join_url, resolve_target, ForwardTarget, UriParts};

fn parts(scheme: Option<&str>, authority: Option<&str>, host: Option<&str>, port: Option<u16>) -> UriParts {
    UriParts {
        scheme: scheme.map(String::from),
        authority: authority.map(String::from),
        host: host.map(String::from),
        port,
    }
}

#[test]
fn path_without_query_is_appended() {
    assert_eq!(join_url("http://localhost:9000", "/a/b", None), "http://localhost:9000/a/b");
}

#[test]
fn query_follows_a_question_mark() {
    assert_eq!(join_url("http://localhost:9000", "/a", Some("x=1")), "http://localhost:9000/a?x=1");
    assert_eq!(join_url("http://localhost:9000", "/a", Some("")), "http://localhost:9000/a?");
    assert_eq!(join_url("", "", None), "");
}

#[test]
fn target_of_a_path_without_query() {
    let t = get_forward_addr("/a/b", None, "http://localhost:9000").unwrap();
    assert_eq!(
        t,
        ForwardTarget {
            addr: String::from("localhost:9000"),
            url: String::from("http://localhost:9000/a/b"),
            authority: String::from("localhost:9000"),
        }
    );
}

#[test]
fn target_of_a_path_with_query() {
    let t = get_forward_addr("/a", Some("x=1"), "http://localhost:9000").unwrap();
    assert_eq!(t.url, "http://localhost:9000/a?x=1");
    assert_eq!(t.addr, "localhost:9000");
}

#[test]
fn port_defaults_by_scheme() {
    let t = get_forward_addr("/", None, "http://example.com").unwrap();
    assert_eq!(t.addr, "example.com:80");
    assert_eq!(t.authority, "example.com");
    let t = get_forward_addr("/", None, "https://example.com").unwrap();
    assert_eq!(t.addr, "example.com:443");
    let t = get_forward_addr("/x", None, "HTTP://Example.com").unwrap();
    assert_eq!(t.addr, "Example.com:80");
}

#[test]
fn authority_keeps_user_and_port() {
    let t = get_forward_addr("/p", None, "http://user:pw@example.com:8081").unwrap();
    assert_eq!(t.authority, "user:pw@example.com:8081");
    assert_eq!(t.addr, "example.com:8081");
}

#[test]
fn other_schemes_have_no_default_port() {
    assert_eq!(get_forward_addr("/", None, "ftp://example.com"), Err(ConfigError::UnsupportedScheme));
    assert_eq!(get_forward_addr("/", None, "ftp://example.com:21").unwrap().addr, "example.com:21");
}

#[test]
fn forward_address_must_be_a_uri() {
    assert_eq!(get_forward_addr("/a b", None, "http://example.com"), Err(ConfigError::InvalidUri));
    assert_eq!(get_forward_addr("", None, ""), Err(ConfigError::InvalidUri));
    assert_eq!(get_forward_addr("/", None, "http://"), Err(ConfigError::InvalidUri));
}

#[test]
fn forward_address_must_name_a_host() {
    assert_eq!(get_forward_addr("/a", None, ""), Err(ConfigError::MissingHost));
}

#[test]
fn resolve_follows_the_parts() {
    let url = || String::from("u");
    let ok = |p: UriParts| resolve_target(url(), Ok(p));
    assert_eq!(
        ok(parts(Some("http"), Some("h"), Some("h"), None)),
        Ok(ForwardTarget { addr: String::from("h:80"), url: url(), authority: String::from("h") })
    );
    assert_eq!(ok(parts(Some("https"), Some("h"), Some("h"), None)).unwrap().addr, "h:443");
    assert_eq!(ok(parts(Some("https"), Some("h:1"), Some("h"), Some(1))).unwrap().addr, "h:1");
    assert_eq!(ok(parts(None, Some("h:65535"), Some("h"), Some(65535))).unwrap().addr, "h:65535");
    assert_eq!(ok(parts(Some("HTTP"), Some("h"), Some("h"), None)), Err(ConfigError::UnsupportedScheme));
    assert_eq!(ok(parts(None, Some("h"), Some("h"), None)), Err(ConfigError::UnsupportedScheme));
    assert_eq!(ok(parts(Some("http"), None, None, None)), Err(ConfigError::MissingHost));
    assert_eq!(ok(parts(Some("http"), Some("h"), None, Some(1))), Err(ConfigError::MissingHost));
    assert_eq!(ok(parts(Some("http"), None, Some("h"), Some(1))), Err(ConfigError::MissingHost));
}

#[test]
fn resolve_reports_a_failed_parse() {
    let failed = "http://exa mple".parse::<http::Uri>().unwrap_err();
    assert_eq!(resolve_target(String::from("http://exa mple"), Err(failed)), Err(ConfigError::InvalidUri));
}
