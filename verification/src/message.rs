//! The messages that pass through the proxy, held as plain values.

use vstd::multiset::Multiset;
use vstd::prelude::*;
use vstd::string::*;
use vstd::utf8::encode_utf8;

verus! {

#[verifier::external_type_specification]
#[verifier::external_body]
#[verifier::reject_recursive_types(T)]
pub struct ExHeaderMap<T>(http::HeaderMap<T>);

#[verifier::external_type_specification]
#[verifier::external_body]
pub struct ExHeaderValue(http::HeaderValue);

/// What a header map holds: each name, with the bytes of one of its values,
/// as often as the map holds that value under that name. A map has no order
/// that a caller could rely on.
pub uninterp spec fn header_entries(map: http::HeaderMap) -> Multiset<(Seq<char>, Seq<u8>)>;

/// The bytes that a header value holds.
pub uninterp spec fn value_bytes(value: http::HeaderValue) -> Seq<u8>;

/// One header line as plain values: a name and the bytes of its value.
#[derive(Clone, Debug, PartialEq, Eq)]
pub struct Header {
    pub name: String,
    pub value: Vec<u8>,
}

/// A [`Header`] as plain values.
pub struct HeaderView {
    pub name: Seq<char>,
    pub value: Seq<u8>,
}

impl View for Header {
    type V = HeaderView;

    open spec fn view(&self) -> HeaderView {
        HeaderView { name: self.name@, value: self.value@ }
    }
}

impl DeepView for Header {
    type V = HeaderView;

    open spec fn deep_view(&self) -> HeaderView {
        self@
    }
}

/// An inbound request without its body: method, path, query and headers.
#[derive(Debug, PartialEq, Eq)]
pub struct RequestHead {
    pub method: String,
    pub path: String,
    pub query: Option<String>,
    pub headers: http::HeaderMap,
}

/// A [`RequestHead`] as plain values.
pub struct RequestHeadView {
    pub method: Seq<char>,
    pub path: Seq<char>,
    pub query: Option<Seq<char>>,
    pub headers: Multiset<(Seq<char>, Seq<u8>)>,
}

impl View for RequestHead {
    type V = RequestHeadView;

    open spec fn view(&self) -> RequestHeadView {
        RequestHeadView {
            method: self.method@,
            path: self.path@,
            query: match self.query {
                Some(q) => Some(q@),
                None => None,
            },
            headers: header_entries(self.headers),
        }
    }
}

/// The request that goes to the backend.
#[derive(Debug, PartialEq, Eq)]
pub struct OutboundRequest {
    pub method: String,
    pub url: String,
    pub headers: http::HeaderMap,
    pub body: Vec<u8>,
}

/// An [`OutboundRequest`] as plain values.
pub struct OutboundRequestView {
    pub method: Seq<char>,
    pub url: Seq<char>,
    pub headers: Multiset<(Seq<char>, Seq<u8>)>,
    pub body: Seq<u8>,
}

impl View for OutboundRequest {
    type V = OutboundRequestView;

    open spec fn view(&self) -> OutboundRequestView {
        OutboundRequestView {
            method: self.method@,
            url: self.url@,
            headers: header_entries(self.headers),
            body: self.body@,
        }
    }
}

/// Status and headers of the backend's response, before its body is read.
#[derive(Debug, PartialEq, Eq)]
pub struct ResponseHead {
    pub status: u16,
    pub headers: http::HeaderMap,
}

/// A [`ResponseHead`] as plain values.
pub struct ResponseHeadView {
    pub status: u16,
    pub headers: Multiset<(Seq<char>, Seq<u8>)>,
}

impl View for ResponseHead {
    type V = ResponseHeadView;

    open spec fn view(&self) -> ResponseHeadView {
        ResponseHeadView { status: self.status, headers: header_entries(self.headers) }
    }
}

/// What the caller receives: a status, headers and a body.
#[derive(Debug, PartialEq, Eq)]
pub struct ResponseEnvelope {
    pub status: u16,
    pub headers: http::HeaderMap,
    pub body: Vec<u8>,
}

/// A [`ResponseEnvelope`] as plain values.
pub struct ResponseEnvelopeView {
    pub status: u16,
    pub headers: Multiset<(Seq<char>, Seq<u8>)>,
    pub body: Seq<u8>,
}

impl View for ResponseEnvelope {
    type V = ResponseEnvelopeView;

    open spec fn view(&self) -> ResponseEnvelopeView {
        ResponseEnvelopeView {
            status: self.status,
            headers: header_entries(self.headers),
            body: self.body@,
        }
    }
}

/// Whether a byte may stand in a header value: anything from the space on,
/// except DEL, and the tab.
pub open spec fn is_value_byte(b: u8) -> bool {
    (b >= 32 && b != 127) || b == 9
}

/// Whether `bytes` can be a header value.
pub open spec fn is_header_value(bytes: Seq<u8>) -> bool {
    forall|i: int| 0 <= i < bytes.len() ==> is_value_byte(#[trigger] bytes[i])
}

/// The entries that a list of headers stands for.
pub open spec fn listed(list: Seq<HeaderView>) -> Multiset<(Seq<char>, Seq<u8>)> {
    list.map_values(|h: HeaderView| (h.name, h.value)).to_multiset()
}

/// Makes an empty map with `http::HeaderMap::new`.
///
/// Trusted: the new map holds nothing.
#[verifier::external_body]
fn no_headers() -> (res: http::HeaderMap)
    ensures
        header_entries(res) == Multiset::<(Seq<char>, Seq<u8>)>::empty(),
{
    http::HeaderMap::new()
}

/// Walks a map with `http::HeaderMap::iter` and hands each entry out as
/// plain values: the name by `HeaderName::as_str`, the value by
/// `HeaderValue::as_bytes`.
///
/// Trusted: the walk yields every name once for each of its values, so the
/// list stands for what the map holds; the order is the map's own.
#[verifier::external_body]
fn list_headers(map: &http::HeaderMap) -> (res: Vec<Header>)
    ensures
        listed(res.deep_view()) == header_entries(*map),
{
    map.iter().map(|(name, value)| Header { name: String::from(name.as_str()), value: value.as_bytes().to_vec() }).collect()
}

/// The entries of a map as a list, in the order in which the map yields them.
pub fn headers_of(map: &http::HeaderMap) -> (res: Vec<Header>)
    ensures
        listed(res.deep_view()) == header_entries(*map),
{
    list_headers(map)
}

/// The reply that reports a failed stage: status 200, no headers, and the
/// stage's message as the body.
pub open spec fn diagnostic(message: Seq<char>) -> ResponseEnvelopeView {
    ResponseEnvelopeView { status: 200, headers: Multiset::empty(), body: encode_utf8(message) }
}

impl ResponseEnvelope {
    /// The reply that reports a failed stage.
    pub fn diagnostic(message: &str) -> (res: ResponseEnvelope)
        ensures
            res@ == diagnostic(message@),
    {
        ResponseEnvelope { status: 200, headers: no_headers(), body: message.as_bytes_vec() }
    }
}

} // verus!
