use http_forward::drain::Side;
use http_forward::logger::{
    body_line, body_preview, content_type, origin_line, redirect_line, stage_line, status_line, text_of,
    BodyPreview,
};
use http_forward::message::{headers_of, Header};

fn header(name: &str, value: &[u8]) -> Header {
    Header { name: String::from(name), value: value.to_vec() }
}

#[test]
fn images_are_shown_by_type_only() {
    let png = [0x89u8, b'P', b'N', b'G', 0xff];
    assert_eq!(body_preview(Some("image/png"), &png), BodyPreview::ContentType(String::from("image/png")));
    assert_eq!(body_preview(Some("image"), b"text"), BodyPreview::ContentType(String::from("image")));
    assert_eq!(body_preview(Some("image/gif"), b""), BodyPreview::ContentType(String::from("image/gif")));
}

#[test]
fn empty_bodies_are_told_apart() {
    assert_eq!(body_preview(None, b""), BodyPreview::Empty);
    assert_eq!(body_preview(Some(""), b""), BodyPreview::Empty);
    assert_eq!(body_preview(Some("text/plain"), b""), BodyPreview::Empty);
    assert_ne!(body_preview(Some("text/plain"), b" "), BodyPreview::Empty);
}

#[test]
fn text_is_shown_as_text() {
    assert_eq!(body_preview(None, b"hello"), BodyPreview::Text(String::from("hello")));
    assert_eq!(body_preview(Some("Image/png"), "h\u{e9}".as_bytes()), BodyPreview::Text(String::from("h\u{e9}")));
    assert_eq!(body_preview(Some("an image"), b"x"), BodyPreview::Text(String::from("x")));
}

#[test]
fn bytes_that_are_no_text_are_counted() {
    assert_eq!(body_preview(None, &[0xc3, 0x28]), BodyPreview::Bytes(2));
    assert_eq!(body_preview(Some("application/octet-stream"), &[0xff; 70000]), BodyPreview::Bytes(70000));
}

#[test]
fn text_of_reads_utf8_only() {
    assert_eq!(text_of(b""), Some(String::new()));
    assert_eq!(text_of("gr\u{fc}n \u{1f600}".as_bytes()), Some(String::from("gr\u{fc}n \u{1f600}")));
    assert_eq!(text_of(&[0x80]), None);
    assert_eq!(text_of(&[0xed, 0xa0, 0x80]), None);
    assert_eq!(text_of(&[0xc0, 0x80]), None);
}

#[test]
fn last_readable_content_type_is_captured() {
    assert_eq!(content_type(&vec![]), "");
    assert_eq!(content_type(&vec![header("accept", b"image/png")]), "");
    assert_eq!(content_type(&vec![header("content-type", b"image/png"), header("x", b"y")]), "image/png");
    assert_eq!(content_type(&vec![header("Content-Type", b"a"), header("content-type", b"b")]), "b");
    assert_eq!(content_type(&vec![header("content-type", b"a"), header("content-type", &[0xff])]), "a");
    assert_eq!(content_type(&vec![header("content-type", &[0xff])]), "");
}

#[test]
fn lines_begin_with_the_correlation_id() {
    assert_eq!(origin_line("id-1", "/a?x=1", "GET"), "[id-1]origin:/a?x=1, method:GET");
    assert_eq!(redirect_line("id-1", "http://localhost:9000/a"), "[id-1]redirect url:http://localhost:9000/a");
    assert_eq!(stage_line("id-1", "forward connect error"), "[id-1]forward connect error");
    assert_eq!(status_line("id-1", 404), "[id-1]forward response status:404");
    assert_eq!(status_line("", 0), "[]forward response status:0");
}

#[test]
fn body_lines_follow_the_preview() {
    let line = |side, preview: BodyPreview| body_line("t", side, &preview);
    assert_eq!(line(Side::Response, BodyPreview::ContentType(String::from("image/png"))), "[t]respBody body type: image/png");
    assert_eq!(line(Side::Request, BodyPreview::Empty), "[t]reqBody body is empty");
    assert_eq!(line(Side::Request, BodyPreview::Text(String::from("a=b"))), "[t]reqBody body: a=b");
    assert_eq!(line(Side::Response, BodyPreview::Bytes(65536)), "[t]respBody body: 65536 bytes");
    assert_eq!(line(Side::Response, BodyPreview::Bytes(0)), "[t]respBody body: 0 bytes");
}

#[test]
fn entries_of_a_map_are_listed() {
    let mut map = http::HeaderMap::new();
    assert_eq!(headers_of(&map), vec![]);
    map.append(http::header::CONTENT_TYPE, http::HeaderValue::from_static("image/png"));
    map.append(http::header::SET_COOKIE, http::HeaderValue::from_bytes(b"a=\xff").unwrap());
    map.append(http::header::SET_COOKIE, http::HeaderValue::from_static("b=2"));
    let mut listed = headers_of(&map);
    listed.sort_by(|a, b| (&a.name, &a.value).cmp(&(&b.name, &b.value)));
    assert_eq!(
        listed,
        vec![header("content-type", b"image/png"), header("set-cookie", b"a=\xff"), header("set-cookie", b"b=2")]
    );
    assert_eq!(content_type(&headers_of(&map)), "image/png");
}
