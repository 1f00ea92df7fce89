//! Diagnostic lines. Every function here only reads what it is shown and
//! returns a line of text; writing the line out is left to the caller.

use vstd::prelude::*;
use vstd::string::*;
use vstd::utf8::{decode_utf8, encode_utf8, valid_utf8};

use crate::drain::{side_tag, Side};
use crate::message::{Header, HeaderView};
use crate::text::{chars_of, decimal, eq_lowered, lowered, push_decimal, starts_with, window_is};

verus! {

/// Reads `bytes` as text with `std::str::from_utf8`.
///
/// Trusted: the bytes are text exactly when they are valid UTF-8, and the
/// text then has these very bytes.
#[verifier::external_body]
fn utf8_text(bytes: &[u8]) -> (res: Option<&str>)
    ensures
        res is Some <==> valid_utf8(bytes@),
        res matches Some(text) ==> encode_utf8(text@) == bytes@,
{
    std::str::from_utf8(bytes).ok()
}

/// Reads `bytes` as text, where they are text.
pub fn text_of(bytes: &[u8]) -> (res: Option<String>)
    ensures
        match res {
            Some(text) => valid_utf8(bytes@) && text@ == decode_utf8(bytes@),
            None => !valid_utf8(bytes@),
        },
{
    match utf8_text(bytes) {
        Some(text) => {
            proof {
                vstd::utf8::encode_utf8_decode_utf8(text@);
            }
            Some(String::from_str(text))
        },
        None => None,
    }
}

/// Whether a header gives a content type that can be read: its name is
/// `content-type` in any mix of case, and its value is text.
pub open spec fn names_content_type(header: HeaderView) -> bool {
    lowered(header.name) == "content-type"@ && valid_utf8(header.value)
}

/// The content type that a list of headers gives: the value of the last
/// header that names one; empty where there is none.
pub open spec fn captured_type(headers: Seq<HeaderView>) -> Seq<char>
    decreases headers.len(),
{
    if headers.len() == 0 {
        Seq::empty()
    } else if names_content_type(headers.last()) {
        decode_utf8(headers.last().value)
    } else {
        captured_type(headers.drop_last())
    }
}

/// Picks the content type out of a response's headers.
pub fn content_type(headers: &Vec<Header>) -> (res: String)
    ensures
        res@ == captured_type(headers.deep_view()),
{
    let ghost all = headers.deep_view();
    let mut found = String::new();
    let mut i: usize = 0;
    while i < headers.len()
        invariant
            i <= headers.len(),
            all == headers.deep_view(),
            found@ == captured_type(all.take(i as int)),
        decreases headers.len() - i,
    {
        let header = &headers[i];
        proof {
            assert(all.take(i + 1).drop_last() =~= all.take(i as int));
            assert(all.take(i + 1).last() == header@);
        }
        if eq_lowered(header.name.as_str(), "content-type") {
            match text_of(header.value.as_slice()) {
                Some(text) => {
                    found = text;
                },
                None => {},
            }
        }
        i += 1;
    }
    assert(all.take(i as int) =~= all);
    found
}

/// What a body is shown as.
#[derive(Clone, Debug, PartialEq, Eq)]
pub enum BodyPreview {
    /// Only the content type, for an image.
    ContentType(String),
    /// The body is empty.
    Empty,
    /// The body as text.
    Text(String),
    /// Only the number of bytes, for a body that is no text.
    Bytes(usize),
}

/// [`BodyPreview`] as plain values.
pub enum BodyPreviewView {
    ContentType(Seq<char>),
    Empty,
    Text(Seq<char>),
    Bytes(nat),
}

impl View for BodyPreview {
    type V = BodyPreviewView;

    open spec fn view(&self) -> BodyPreviewView {
        match self {
            BodyPreview::ContentType(t) => BodyPreviewView::ContentType(t@),
            BodyPreview::Empty => BodyPreviewView::Empty,
            BodyPreview::Text(t) => BodyPreviewView::Text(t@),
            BodyPreview::Bytes(n) => BodyPreviewView::Bytes(*n as nat),
        }
    }
}

/// How a body is shown: an image by its content type alone and never as
/// text; an empty body as empty; text as text; anything else by its size.
pub open spec fn previewed(content_type: Option<Seq<char>>, body: Seq<u8>) -> BodyPreviewView {
    if content_type matches Some(t) && starts_with(t, "image"@) {
        BodyPreviewView::ContentType(content_type->0)
    } else if body.len() == 0 {
        BodyPreviewView::Empty
    } else if valid_utf8(body) {
        BodyPreviewView::Text(decode_utf8(body))
    } else {
        BodyPreviewView::Bytes(body.len())
    }
}

/// Whether `text` begins with `prefix`.
fn begins_with(text: &str, prefix: &str) -> (res: bool)
    ensures
        res == starts_with(text@, prefix@),
{
    let t = chars_of(text);
    let p = chars_of(prefix);
    if p.len() > t.len() {
        return false;
    }
    let found = window_is(&t, 0, p.len(), prefix);
    found
}

/// Decides how a body is shown.
pub fn body_preview(content_type: Option<&str>, body: &[u8]) -> (res: BodyPreview)
    ensures
        res@ == previewed(
            match content_type {
                Some(t) => Some(t@),
                None => None,
            },
            body@,
        ),
{
    match content_type {
        Some(t) => {
            if begins_with(t, "image") {
                return BodyPreview::ContentType(String::from_str(t));
            }
        },
        None => {},
    }
    if body.len() == 0 {
        return BodyPreview::Empty;
    }
    match text_of(body) {
        Some(text) => BodyPreview::Text(text),
        None => BodyPreview::Bytes(body.len()),
    }
}

/// The beginning of every line: the correlation id in square brackets.
pub open spec fn prefix(trace_id: Seq<char>) -> Seq<char> {
    "["@ + trace_id + "]"@
}

/// The line that tells what a body holds.
pub open spec fn body_text(trace_id: Seq<char>, side: Side, preview: BodyPreviewView) -> Seq<char> {
    let start = prefix(trace_id) + side_tag(side);
    match preview {
        BodyPreviewView::ContentType(t) => start + " body type: "@ + t,
        BodyPreviewView::Empty => start + " body is empty"@,
        BodyPreviewView::Text(t) => start + " body: "@ + t,
        BodyPreviewView::Bytes(n) => start + " body: "@ + decimal(n) + " bytes"@,
    }
}

/// Starts a line with the correlation id.
fn begin(trace_id: &str) -> (line: String)
    ensures
        line@ == prefix(trace_id@),
{
    let mut line = String::from_str("[");
    line.append(trace_id);
    line.append("]");
    line
}

/// `[<id>]origin:<uri>, method:<method>`: the request as it came in.
pub fn origin_line(trace_id: &str, uri: &str, method: &str) -> (line: String)
    ensures
        line@ == prefix(trace_id@) + "origin:"@ + uri@ + ", method:"@ + method@,
{
    let mut line = begin(trace_id);
    line.append("origin:");
    line.append(uri);
    line.append(", method:");
    line.append(method);
    line
}

/// `[<id>]redirect url:<url>`: where the request goes.
pub fn redirect_line(trace_id: &str, url: &str) -> (line: String)
    ensures
        line@ == prefix(trace_id@) + "redirect url:"@ + url@,
{
    let mut line = begin(trace_id);
    line.append("redirect url:");
    line.append(url);
    line
}

/// `[<id>]<message>`: a stage's report.
pub fn stage_line(trace_id: &str, message: &str) -> (line: String)
    ensures
        line@ == prefix(trace_id@) + message@,
{
    let mut line = begin(trace_id);
    line.append(message);
    line
}

/// `[<id>]forward response status:<status>`: what the backend answered.
pub fn status_line(trace_id: &str, status: u16) -> (line: String)
    ensures
        line@ == prefix(trace_id@) + "forward response status:"@ + decimal(status as nat),
{
    let mut line = begin(trace_id);
    line.append("forward response status:");
    push_decimal(&mut line, status as u64);
    line
}

/// The line that tells what a body holds.
pub fn body_line(trace_id: &str, side: Side, preview: &BodyPreview) -> (line: String)
    ensures
        line@ == body_text(trace_id@, side, preview@),
{
    let mut line = begin(trace_id);
    line.append(side.tag());
    match preview {
        BodyPreview::ContentType(t) => {
            line.append(" body type: ");
            line.append(t.as_str());
        },
        BodyPreview::Empty => {
            line.append(" body is empty");
        },
        BodyPreview::Text(t) => {
            line.append(" body: ");
            line.append(t.as_str());
        },
        BodyPreview::Bytes(n) => {
            line.append(" body: ");
            push_decimal(&mut line, *n as u64);
            line.append(" bytes");
        },
    }
    line
}

/// A body whose content type begins with `image` is never shown as text,
/// whatever its bytes are.
pub proof fn images_are_never_decoded(content_type: Seq<char>, body: Seq<u8>)
    requires
        starts_with(content_type, "image"@),
    ensures
        previewed(Some(content_type), body) == BodyPreviewView::ContentType(content_type),
{
}

/// An empty body and a body with bytes are never shown alike: only an empty
/// body is shown as empty, and apart from images every empty body is.
pub proof fn empty_bodies_stand_out(content_type: Option<Seq<char>>, body: Seq<u8>)
    ensures
        previewed(content_type, body) is Empty ==> body.len() == 0,
        body.len() == 0 && !(content_type matches Some(t) && starts_with(t, "image"@))
            ==> previewed(content_type, body) is Empty,
{
}

} // verus!
