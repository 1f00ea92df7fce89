//! Building the outbound request: the inbound headers are carried over,
//! except `Host`, which is set to the backend's authority.

use vstd::multiset::Multiset;
use vstd::prelude::*;
use vstd::string::*;
use vstd::utf8::encode_utf8;

use crate::message::{
    header_entries, is_header_value, value_bytes, OutboundRequest, OutboundRequestView,
};
use crate::target::{ForwardTarget, ForwardTargetView};

verus! {

#[verifier::external_type_specification]
#[verifier::external_body]
pub struct ExInvalidHeaderValue(http::header::InvalidHeaderValue);

#[verifier::external_type_specification]
#[verifier::external_body]
pub struct ExMaxSizeReached(http::header::MaxSizeReached);

/// The outbound request could not be put together.
#[derive(Clone, Copy, Debug, PartialEq, Eq, Structural)]
pub struct AssembleError;

/// A header map with fewer entries than this takes one more name whatever
/// its state: it refuses only when its table would outgrow 32768 slots, and
/// the fullest table that is still doubled holds a fifth of that.
pub const MAP_ROOM: usize = 6554;

/// Whether `name` is a header name in plain lower case: one to sixty-four
/// characters, each a lower-case letter, a digit or a hyphen.
pub open spec fn is_plain_name(name: Seq<char>) -> bool {
    &&& 0 < name.len() <= 64
    &&& forall|i: int|
        0 <= i < name.len() ==> {
            let c = #[trigger] name[i];
            ('a' <= c && c <= 'z') || ('0' <= c && c <= '9') || c == '-'
        }
}

/// The entries after `name` was set to `value`: what stood under `name` is
/// gone, `value` stands there once, and every other entry is as it was.
pub open spec fn with_header(
    entries: Multiset<(Seq<char>, Seq<u8>)>,
    name: Seq<char>,
    value: Seq<u8>,
) -> Multiset<(Seq<char>, Seq<u8>)> {
    entries.filter(|e: (Seq<char>, Seq<u8>)| e.0 != name).insert((name, value))
}

/// Whether an entry is a `Host` header. A map holds its names in lower case.
pub open spec fn is_host(entry: (Seq<char>, Seq<u8>)) -> bool {
    entry.0 == "host"@
}

/// The headers as they go out: every inbound entry that is not `Host`, as
/// often as it came in, and one `Host` entry with the authority.
pub open spec fn rewritten(entries: Multiset<(Seq<char>, Seq<u8>)>, authority: Seq<u8>) -> Multiset<
    (Seq<char>, Seq<u8>),
> {
    with_header(entries, "host"@, authority)
}

/// The outbound request for a target, or the failure to build one. Building
/// needs the target's authority to be a header value and the map to take the
/// entry; `fits` says whether the map did.
pub open spec fn assembled(
    target: ForwardTargetView,
    method: Seq<char>,
    body: Seq<u8>,
    entries: Multiset<(Seq<char>, Seq<u8>)>,
    fits: bool,
) -> Result<OutboundRequestView, AssembleError> {
    if is_header_value(encode_utf8(target.authority)) && fits {
        Ok(
            OutboundRequestView {
                method,
                url: target.url,
                headers: rewritten(entries, encode_utf8(target.authority)),
                body,
            },
        )
    } else {
        Err(AssembleError)
    }
}

/// Makes a header value of `text` with `http::HeaderValue::try_from`.
///
/// Trusted: the conversion succeeds exactly when every byte of `text` may
/// stand in a header value, and the value then holds the bytes of `text`.
#[verifier::external_body]
fn header_value(text: &str) -> (res: Result<http::HeaderValue, http::header::InvalidHeaderValue>)
    ensures
        res is Ok <==> is_header_value(encode_utf8(text@)),
        res matches Ok(value) ==> value_bytes(value) == encode_utf8(text@),
{
    http::HeaderValue::try_from(String::from(text))
}

/// Copies a map with its `Clone`.
///
/// Trusted: the copy holds what the map holds.
#[verifier::external_body]
fn copy_headers(map: &http::HeaderMap) -> (res: http::HeaderMap)
    ensures
        header_entries(res) == header_entries(*map),
{
    map.clone()
}

/// Sets a header with `http::HeaderMap::try_insert`, the name given as text.
///
/// Trusted: a plain lower-case name is a header name as it stands. Where the
/// map takes the entry, all values it held under the name are gone, `value`
/// stands under the name once, and every other entry is as it was. A map
/// with fewer than `MAP_ROOM` entries always takes it; a fuller one may
/// refuse, and nothing is said of it then.
#[verifier::external_body]
fn set_header(map: &mut http::HeaderMap, name: &'static str, value: http::HeaderValue) -> (res:
    Result<(), http::header::MaxSizeReached>)
    requires
        is_plain_name(name@),
    ensures
        res is Ok ==> header_entries(*final(map)) == with_header(
            header_entries(*old(map)),
            name@,
            value_bytes(value),
        ),
        header_entries(*old(map)).len() < MAP_ROOM ==> res is Ok,
{
    map.try_insert(name, value)?;
    Ok(())
}

/// Copies `headers` and sets `Host` to `authority` in the copy. A map with
/// fewer than `MAP_ROOM` entries is always rewritten.
pub fn rewrite_headers(headers: &http::HeaderMap, authority: http::HeaderValue) -> (res: Result<
    http::HeaderMap,
    http::header::MaxSizeReached,
>)
    ensures
        res matches Ok(map) ==> header_entries(map) == rewritten(
            header_entries(*headers),
            value_bytes(authority),
        ),
        header_entries(*headers).len() < MAP_ROOM ==> res is Ok,
{
    let mut out = copy_headers(headers);
    proof {
        reveal_strlit("host");
    }
    match set_header(&mut out, "host", authority) {
        Ok(_) => Ok(out),
        Err(e) => Err(e),
    }
}

/// Decides the outbound request from the headers as the map gave them back.
pub fn assemble_with(
    target: ForwardTarget,
    method: String,
    body: Vec<u8>,
    headers: Result<http::HeaderMap, http::header::MaxSizeReached>,
) -> (res: Result<OutboundRequest, AssembleError>)
    ensures
        match headers {
            Ok(map) => res matches Ok(request) && request@ == (OutboundRequestView {
                method: method@,
                url: target@.url,
                headers: header_entries(map),
                body: body@,
            }),
            Err(_) => res matches Err(_),
        },
{
    match headers {
        Ok(map) => Ok(OutboundRequest { method, url: target.url, headers: map, body }),
        Err(_) => Err(AssembleError),
    }
}

/// The view of an assembly's outcome.
pub open spec fn outcome_view(res: Result<OutboundRequest, AssembleError>) -> Result<
    OutboundRequestView,
    AssembleError,
> {
    match res {
        Ok(request) => Ok(request@),
        Err(e) => Err(e),
    }
}

/// Builds the request that goes to the backend: the inbound method and body,
/// the target's URI, and the inbound headers with `Host` set to the target's
/// authority. It fails where the authority cannot be a header value. Beyond
/// that it can fail only on a map of `MAP_ROOM` entries or more, where the
/// map itself decides whether it takes the entry.
pub fn assemble_redirect_req(
    target: ForwardTarget,
    method: String,
    body: Vec<u8>,
    headers: &http::HeaderMap,
) -> (res: Result<OutboundRequest, AssembleError>)
    ensures
        outcome_view(res) == assembled(target@, method@, body@, header_entries(*headers), true)
            || (header_entries(*headers).len() >= MAP_ROOM && outcome_view(res) == assembled(
            target@,
            method@,
            body@,
            header_entries(*headers),
            false,
        )),
{
    match header_value(target.authority.as_str()) {
        Ok(authority) => {
            let rewritten = rewrite_headers(headers, authority);
            assemble_with(target, method, body, rewritten)
        },
        Err(_) => Err(AssembleError),
    }
}

/// Exactly one `Host` entry goes out, and it holds the backend's authority,
/// whatever the inbound request held under `Host`: nothing, one value or
/// several. Every other entry goes out as often as it came in.
pub proof fn host_is_always_rewritten(
    entries: Multiset<(Seq<char>, Seq<u8>)>,
    authority: Seq<u8>,
    entry: (Seq<char>, Seq<u8>),
)
    ensures
        is_host(entry) ==> rewritten(entries, authority).count(entry) == if entry.1
            == authority {
            1nat
        } else {
            0nat
        },
        !is_host(entry) ==> rewritten(entries, authority).count(entry) == entries.count(entry),
        rewritten(entries, authority).filter(|e: (Seq<char>, Seq<u8>)| is_host(e))
            == Multiset::singleton(("host"@, authority)),
{
    let out = rewritten(entries, authority);
    let hosts = out.filter(|e: (Seq<char>, Seq<u8>)| is_host(e));
    let one = Multiset::singleton(("host"@, authority));
    assert forall|e: (Seq<char>, Seq<u8>)| hosts.count(e) == one.count(e) by {
        if is_host(e) && e.1 == authority {
            assert(e == ("host"@, authority));
        }
    }
    assert(hosts =~= one);
}

/// An assembled request carries the method and the body it was given, goes to
/// the target's URI, and names the target's authority in its one `Host`
/// entry.
pub proof fn assembled_request_is_faithful(
    target: ForwardTargetView,
    method: Seq<char>,
    body: Seq<u8>,
    entries: Multiset<(Seq<char>, Seq<u8>)>,
    fits: bool,
)
    ensures
        assembled(target, method, body, entries, fits) matches Ok(request) ==> {
            &&& request.method == method
            &&& request.body == body
            &&& request.url == target.url
            &&& request.headers.filter(|e: (Seq<char>, Seq<u8>)| is_host(e))
                == Multiset::singleton(("host"@, encode_utf8(target.authority)))
        },
{
    host_is_always_rewritten(entries, encode_utf8(target.authority), ("host"@, Seq::empty()));
}

} // verus!
