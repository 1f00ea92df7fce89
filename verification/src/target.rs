//! Where a request is forwarded to: the backend's base address joined with
//! the request's path and query, and the socket address that follows from it.

use vstd::prelude::*;
use vstd::string::*;

use crate::error::ConfigError;
use crate::text::{decimal, push_decimal};

verus! {

#[verifier::external_type_specification]
#[verifier::external_body]
pub struct ExInvalidUri(http::uri::InvalidUri);

/// The parts of a URI that forwarding reads.
#[derive(Clone, Debug, PartialEq, Eq)]
pub struct UriParts {
    /// The scheme, in lower case for `http` and `https`.
    pub scheme: Option<String>,
    /// The whole authority: user information, host and port as written.
    pub authority: Option<String>,
    /// The host alone.
    pub host: Option<String>,
    /// The port, where one is written that fits sixteen bits.
    pub port: Option<u16>,
}

/// [`UriParts`] as plain values.
pub struct UriPartsView {
    pub scheme: Option<Seq<char>>,
    pub authority: Option<Seq<char>>,
    pub host: Option<Seq<char>>,
    pub port: Option<u16>,
}

/// The view of a text that may be absent.
pub open spec fn text_view(text: Option<String>) -> Option<Seq<char>> {
    match text {
        Some(t) => Some(t@),
        None => None,
    }
}

impl View for UriParts {
    type V = UriPartsView;

    open spec fn view(&self) -> UriPartsView {
        UriPartsView {
            scheme: text_view(self.scheme),
            authority: text_view(self.authority),
            host: text_view(self.host),
            port: self.port,
        }
    }
}

/// What parsing `text` as a URI yields: its parts, or nothing where `text` is
/// no URI.
pub uninterp spec fn uri_parts(text: Seq<char>) -> Option<UriPartsView>;

/// Parses `text` with `http::Uri`'s `FromStr` and reads the result through
/// `Uri::scheme_str`, `Uri::authority`, `Uri::host` and `Uri::port_u16`.
///
/// Trusted: the parse depends on `text` alone, so its outcome is
/// `uri_parts(text)`; it is an error exactly where that is `None`.
#[verifier::external_body]
fn split_uri(text: &str) -> (res: Result<UriParts, http::uri::InvalidUri>)
    ensures
        match res {
            Ok(parts) => uri_parts(text@) == Some(parts@),
            Err(_) => uri_parts(text@) is None,
        },
{
    let uri = text.parse::<http::Uri>()?;
    Ok(
        UriParts {
            scheme: uri.scheme_str().map(String::from),
            authority: uri.authority().map(|a| String::from(a.as_str())),
            host: uri.host().map(String::from),
            port: uri.port_u16(),
        },
    )
}

/// The target of one forwarded request.
#[derive(Clone, Debug, PartialEq, Eq)]
pub struct ForwardTarget {
    /// `host:port`, the address to connect to.
    pub addr: String,
    /// The full URI of the outbound request.
    pub url: String,
    /// The authority of that URI, which becomes the outbound `Host`.
    pub authority: String,
}

/// A [`ForwardTarget`] as plain values.
pub struct ForwardTargetView {
    pub addr: Seq<char>,
    pub url: Seq<char>,
    pub authority: Seq<char>,
}

impl View for ForwardTarget {
    type V = ForwardTargetView;

    open spec fn view(&self) -> ForwardTargetView {
        ForwardTargetView { addr: self.addr@, url: self.url@, authority: self.authority@ }
    }
}

/// The outbound URI as text: the backend's base, then the inbound path, then
/// a question mark and the query where the request has one.
pub open spec fn forward_url(forward_to: Seq<char>, path: Seq<char>, query: Option<Seq<char>>) -> Seq<
    char,
> {
    match query {
        Some(q) => forward_to + path + "?"@ + q,
        None => forward_to + path,
    }
}

/// The port a URI stands for: the one it writes, else 80 for `http` and 443
/// for `https`; no other scheme has a default.
pub open spec fn target_port(parts: UriPartsView) -> Option<u16> {
    match parts.port {
        Some(port) => Some(port),
        None => if parts.scheme == Some("http"@) {
            Some(80u16)
        } else if parts.scheme == Some("https"@) {
            Some(443u16)
        } else {
            None
        },
    }
}

/// The target that follows from the outbound URI `url` and from what parsing
/// it gave.
pub open spec fn resolved(url: Seq<char>, parts: Option<UriPartsView>) -> Result<
    ForwardTargetView,
    ConfigError,
> {
    match parts {
        None => Err(ConfigError::InvalidUri),
        Some(p) => match (p.host, p.authority) {
            (Some(host), Some(authority)) => match target_port(p) {
                Some(port) => Ok(
                    ForwardTargetView {
                        addr: host + ":"@ + decimal(port as nat),
                        url,
                        authority,
                    },
                ),
                None => Err(ConfigError::UnsupportedScheme),
            },
            _ => Err(ConfigError::MissingHost),
        },
    }
}

/// Joins the backend's base address with a request's path and query.
pub fn join_url(forward_to: &str, path: &str, query: Option<&str>) -> (url: String)
    ensures
        url@ == forward_url(
            forward_to@,
            path@,
            match query {
                Some(q) => Some(q@),
                None => None,
            },
        ),
{
    let mut url = String::from_str(forward_to);
    url.append(path);
    match query {
        Some(q) => {
            url.append("?");
            url.append(q);
        },
        None => {},
    }
    url
}

/// Whether `text` is present and spells `word`.
fn is_word(text: &Option<String>, word: &str) -> (res: bool)
    ensures
        res == (text_view(*text) == Some(word@)),
{
    match text {
        Some(t) => {
            let w = String::from_str(word);
            *t == w
        },
        None => false,
    }
}

/// Decides the target from the outbound URI and the outcome of parsing it.
pub fn resolve_target(url: String, parsed: Result<UriParts, http::uri::InvalidUri>) -> (res: Result<
    ForwardTarget,
    ConfigError,
>)
    ensures
        match res {
            Ok(target) => resolved(
                url@,
                match parsed {
                    Ok(p) => Some(p@),
                    Err(_) => None,
                },
            ) == Ok::<ForwardTargetView, ConfigError>(target@),
            Err(e) => resolved(
                url@,
                match parsed {
                    Ok(p) => Some(p@),
                    Err(_) => None,
                },
            ) == Err::<ForwardTargetView, ConfigError>(e),
        },
{
    let parts = match parsed {
        Ok(parts) => parts,
        Err(_) => {
            return Err(ConfigError::InvalidUri);
        },
    };
    let port: Option<u16> = match parts.port {
        Some(port) => Some(port),
        None => if is_word(&parts.scheme, "http") {
            Some(80)
        } else if is_word(&parts.scheme, "https") {
            Some(443)
        } else {
            None
        },
    };
    let UriParts { scheme: _, authority, host, port: _ } = parts;
    match (host, authority) {
        (Some(host), Some(authority)) => match port {
            Some(port) => {
                let mut addr = host;
                addr.append(":");
                push_decimal(&mut addr, port as u64);
                Ok(ForwardTarget { addr, url, authority })
            },
            None => Err(ConfigError::UnsupportedScheme),
        },
        _ => Err(ConfigError::MissingHost),
    }
}

/// Resolves where a request with this path and query goes, given the
/// backend's base address.
pub fn get_forward_addr(path: &str, query: Option<&str>, forward_to: &str) -> (res: Result<
    ForwardTarget,
    ConfigError,
>)
    ensures
        ({
            let url = forward_url(
                forward_to@,
                path@,
                match query {
                    Some(q) => Some(q@),
                    None => None,
                },
            );
            match res {
                Ok(target) => resolved(url, uri_parts(url)) == Ok::<ForwardTargetView, ConfigError>(
                    target@,
                ),
                Err(e) => resolved(url, uri_parts(url)) == Err::<ForwardTargetView, ConfigError>(e),
            }
        }),
{
    let url = join_url(forward_to, path, query);
    let parsed = split_uri(url.as_str());
    resolve_target(url, parsed)
}

} // verus!
