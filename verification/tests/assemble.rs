use http::header::{HeaderMap, HeaderName, HeaderValue};
use http_forward::assemble::{assemble_redirect_req, assemble_with, rewrite_headers, AssembleError, MAP_ROOM};
use http_forward::message::OutboundRequest;
use http_forward::target::ForwardTarget;

fn headers(list: &[(&'static str, &[u8])]) -> HeaderMap {
    let mut map = HeaderMap::new();
    for (name, value) in list {
        map.append(HeaderName::from_static(name), HeaderValue::from_bytes(value).unwrap());
    }
    map
}

fn value(bytes: &[u8]) -> HeaderValue {
    HeaderValue::from_bytes(bytes).unwrap()
}

fn target(authority: &str) -> ForwardTarget {
    ForwardTarget {
        addr: String::from("localhost:9000"),
        url: String::from("http://localhost:9000/a"),
        authority: String::from(authority),
    }
}

fn full_map() -> HeaderMap {
    let mut map = HeaderMap::new();
    let mut i = 0u32;
    while map.try_append(HeaderName::from_bytes(format!("x-{}", i).as_bytes()).unwrap(), value(b"v")).is_ok() {
        i += 1;
    }
    map
}

#[test]
fn host_is_set_to_the_authority() {
    let inbound = headers(&[("host", b"proxy.example:8080"), ("accept", b"*/*")]);
    let req = assemble_redirect_req(target("localhost:9000"), String::from("GET"), vec![], &inbound).unwrap();
    assert_eq!(req.headers, headers(&[("host", b"localhost:9000"), ("accept", b"*/*")]));
}

#[test]
fn every_inbound_host_value_is_replaced() {
    for inbound in [&b""[..], b"a", b"localhost:9000", b"\xff\xfe", b"evil.example"] {
        let out = rewrite_headers(&headers(&[("host", inbound)]), value(b"backend:1")).unwrap();
        assert_eq!(out, headers(&[("host", b"backend:1")]));
    }
}

#[test]
fn request_without_host_gains_one() {
    let out = rewrite_headers(&headers(&[("accept", b"*/*")]), value(b"new")).unwrap();
    assert_eq!(out, headers(&[("accept", b"*/*"), ("host", b"new")]));
    let out = rewrite_headers(&HeaderMap::new(), value(b"new")).unwrap();
    assert_eq!(out, headers(&[("host", b"new")]));
}

#[test]
fn several_hosts_become_one() {
    let inbound = headers(&[("host", b"a"), ("x", b"1"), ("host", b"b"), ("host", b"c")]);
    let out = rewrite_headers(&inbound, value(b"x")).unwrap();
    assert_eq!(out, headers(&[("x", b"1"), ("host", b"x")]));
    assert_eq!(out.get_all("host").iter().count(), 1);
    assert_eq!(out.len(), 2);
}

#[test]
fn host_is_matched_whatever_its_case_on_the_wire() {
    let mut inbound = HeaderMap::new();
    inbound.append(HeaderName::from_bytes(b"Host").unwrap(), value(b"a"));
    inbound.append(HeaderName::from_bytes(b"HOST").unwrap(), value(b"b"));
    let out = rewrite_headers(&inbound, value(b"x")).unwrap();
    assert_eq!(out, headers(&[("host", b"x")]));
}

#[test]
fn other_headers_are_kept_with_their_duplicates() {
    let inbound = headers(&[
        ("connection", b"keep-alive"),
        ("x-a", b"1"),
        ("host", b"old"),
        ("x-a", b"2"),
        ("hosts", b"kept"),
        ("hos", b"kept"),
        ("x-bin", b"\x80\xff"),
    ]);
    let out = rewrite_headers(&inbound, value(b"new")).unwrap();
    let expected = headers(&[
        ("connection", b"keep-alive"),
        ("x-a", b"1"),
        ("host", b"new"),
        ("x-a", b"2"),
        ("hosts", b"kept"),
        ("hos", b"kept"),
        ("x-bin", b"\x80\xff"),
    ]);
    assert_eq!(out, expected);
    assert_eq!(out.len(), inbound.len());
    let twice: Vec<&[u8]> = out.get_all("x-a").iter().map(|v| v.as_bytes()).collect();
    assert_eq!(twice, vec![&b"1"[..], &b"2"[..]]);
}

#[test]
fn inbound_headers_are_left_as_they_were() {
    let inbound = headers(&[("host", b"old"), ("x", b"1")]);
    let _ = rewrite_headers(&inbound, value(b"new")).unwrap();
    assert_eq!(inbound, headers(&[("host", b"old"), ("x", b"1")]));
}

#[test]
fn assembled_request_keeps_method_url_and_body() {
    let body = vec![0u8, 159, 146, 150, 255];
    let req =
        assemble_redirect_req(target("localhost:9000"), String::from("POST"), body.clone(), &HeaderMap::new())
            .unwrap();
    assert_eq!(
        req,
        OutboundRequest {
            method: String::from("POST"),
            url: String::from("http://localhost:9000/a"),
            headers: headers(&[("host", b"localhost:9000")]),
            body,
        }
    );
}

#[test]
fn authority_that_is_no_header_value_fails_assembly() {
    for bad in ["a\nb", "a\rb", "\u{0}", "a\u{7f}"] {
        let r = assemble_redirect_req(target(bad), String::from("GET"), vec![], &headers(&[("host", b"x")]));
        assert_eq!(r, Err(AssembleError));
    }
}

#[test]
fn authority_may_hold_tabs_and_bytes_above_ascii() {
    let r = assemble_redirect_req(target("a\tb\u{e9}"), String::from("GET"), vec![], &HeaderMap::new());
    assert_eq!(r.unwrap().headers, headers(&[("host", "a\tb\u{e9}".as_bytes())]));
}

#[test]
fn assembly_follows_what_the_map_gave_back() {
    let refused = full_map().try_append(HeaderName::from_static("one-more"), value(b"v")).unwrap_err();
    assert_eq!(assemble_with(target("t"), String::from("GET"), vec![1], Err(refused)), Err(AssembleError));
    let r = assemble_with(target("t"), String::from("GET"), vec![1], Ok(headers(&[("host", b"v")])));
    assert_eq!(
        r,
        Ok(OutboundRequest {
            method: String::from("GET"),
            url: String::from("http://localhost:9000/a"),
            headers: headers(&[("host", b"v")]),
            body: vec![1],
        })
    );
}

#[test]
fn full_map_fails_assembly() {
    let full = full_map();
    assert!(rewrite_headers(&full, value(b"new")).is_err());
    assert_eq!(assemble_redirect_req(target("t"), String::from("GET"), vec![], &full), Err(AssembleError));
}

fn map_of(n: usize) -> HeaderMap {
    let mut map = HeaderMap::new();
    for i in 0..n {
        map.append(HeaderName::from_bytes(format!("x-{}", i).as_bytes()).unwrap(), value(b"v"));
    }
    map
}

#[test]
fn map_with_room_always_takes_host() {
    for n in [0usize, 1, 7, 8, 100, 6143, 6144, 6145, MAP_ROOM - 1] {
        let inbound = map_of(n);
        assert_eq!(inbound.len(), n);
        let out = rewrite_headers(&inbound, value(b"new")).unwrap();
        assert_eq!(out.len(), n + 1);
        assert_eq!(out.get("host"), Some(&value(b"new")));
        let req = assemble_redirect_req(target("new"), String::from("GET"), vec![], &inbound).unwrap();
        assert_eq!(req.headers, out);
    }
}

#[test]
fn map_with_room_takes_host_when_made_with_any_capacity() {
    for capacity in [0usize, 1, 3, 1000, 24576] {
        let mut inbound = HeaderMap::with_capacity(capacity);
        inbound.append(HeaderName::from_static("x"), value(b"1"));
        let out = rewrite_headers(&inbound, value(b"new")).unwrap();
        assert_eq!(out, headers(&[("x", b"1"), ("host", b"new")]));
    }
}
