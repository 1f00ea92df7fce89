//! Endpoint descriptors of the form `scheme://[host][:port]`.

use vstd::prelude::*;
use vstd::string::*;

use crate::error::ConfigError;
use crate::text::{
    after_first, before_first, chars_of, decimal, parse_port, port_number, push_decimal,
    split_once, window_is,
};

verus! {

/// The two descriptors the proxy is started with.
#[derive(Clone, Debug, PartialEq, Eq)]
pub struct Args {
    /// Where to listen.
    pub listen: String,
    /// Where to forward to.
    pub forward: String,
}

/// Application protocol of an endpoint.
#[derive(Clone, Copy, Debug, PartialEq, Eq, Structural)]
pub enum Protocol {
    Http,
    Http2,
}

/// How an endpoint is reached: in the clear or secured. The marker is read
/// from the descriptor and carried along; nothing here acts on it.
#[derive(Clone, Copy, Debug, PartialEq, Eq, Structural)]
pub enum Transport {
    Tcp,
    Tls,
}

/// A resolved endpoint: its port is always set, its host never empty when it
/// comes from [`parse_args`].
#[derive(Clone, Copy, Debug, PartialEq, Eq)]
pub struct Connection<'a> {
    pub transport: Transport,
    pub host: &'a str,
    pub port: u16,
}

/// What a [`Connection`] holds, as plain values.
pub struct ConnectionView {
    pub transport: Transport,
    pub host: Seq<char>,
    pub port: u16,
}

impl<'a> View for Connection<'a> {
    type V = ConnectionView;

    open spec fn view(&self) -> ConnectionView {
        ConnectionView { transport: self.transport, host: self.host@, port: self.port }
    }
}

/// The name under which a transport is shown.
pub open spec fn transport_name(transport: Transport) -> Seq<char> {
    match transport {
        Transport::Tcp => "tcp"@,
        Transport::Tls => "tls"@,
    }
}

/// The line that shows an endpoint.
pub open spec fn display_line(c: ConnectionView) -> Seq<char> {
    "transport:"@ + transport_name(c.transport) + ", host: "@ + c.host + ", port: "@ + decimal(
        c.port as nat,
    )
}

impl<'a> Connection<'a> {
    pub fn new(transport: Transport, host: &'a str, port: u16) -> (res: Connection<'a>)
        ensures
            res@ == (ConnectionView { transport, host: host@, port }),
    {
        Connection { transport, host, port }
    }

    /// The line `transport:<tcp|tls>, host: <host>, port: <port>`.
    pub fn display(&self) -> (line: String)
        ensures
            line@ == display_line(self@),
    {
        let mut line = String::from_str("transport:");
        match self.transport {
            Transport::Tcp => line.append("tcp"),
            Transport::Tls => line.append("tls"),
        }
        line.append(", host: ");
        line.append(self.host);
        line.append(", port: ");
        push_decimal(&mut line, self.port as u64);
        line
    }
}

/// What a descriptor denotes.
///
/// The text before the first `://` is the scheme: `http` alone stands for the
/// plain transport and the default port 80, any other scheme for the secured
/// transport and 443. What follows, up to a further `://` if there is one, is
/// split at colons: the first piece is the host, loopback when empty, and the
/// second piece, when there is one, is the port.
pub open spec fn parsed(s: Seq<char>) -> Result<ConnectionView, ConfigError> {
    match after_first(s, "://"@) {
        None => Err(ConfigError::MalformedDescriptor),
        Some(rest) => {
            let plain = before_first(s, "://"@) == "http"@;
            let transport = if plain {
                Transport::Tcp
            } else {
                Transport::Tls
            };
            let endpoint = before_first(rest, "://"@);
            let name = before_first(endpoint, ":"@);
            let host = if name.len() == 0 {
                "127.0.0.1"@
            } else {
                name
            };
            match after_first(endpoint, ":"@) {
                None => Ok(
                    ConnectionView {
                        transport,
                        host,
                        port: if plain {
                            80
                        } else {
                            443
                        },
                    },
                ),
                Some(tail) => match port_number(before_first(tail, ":"@)) {
                    Some(port) => Ok(ConnectionView { transport, host, port }),
                    None => Err(ConfigError::InvalidPort),
                },
            }
        },
    }
}

/// Reads an endpoint descriptor.
pub fn parse_args<'a>(s: &'a str) -> (res: Result<Connection<'a>, ConfigError>)
    ensures
        match res {
            Ok(c) => parsed(s@) == Ok::<ConnectionView, ConfigError>(c@),
            Err(e) => parsed(s@) == Err::<ConnectionView, ConfigError>(e),
        },
{
    let chars = chars_of(s);
    let sep = chars_of("://");
    let colon = chars_of(":");
    let n: usize = chars.len();
    assert(chars@.subrange(0, n as int) =~= s@);
    let (scheme_end, rest) = split_once(&chars, 0, n, &sep);
    let begin: usize = match rest {
        None => {
            return Err(ConfigError::MalformedDescriptor);
        },
        Some(begin) => begin,
    };
    let plain = window_is(&chars, 0, scheme_end, "http");
    let transport = if plain {
        Transport::Tcp
    } else {
        Transport::Tls
    };
    let (end, _) = split_once(&chars, begin, n, &sep);
    let (name_end, tail) = split_once(&chars, begin, end, &colon);
    let host = if begin == name_end {
        "127.0.0.1"
    } else {
        s.substring_char(begin, name_end)
    };
    assert(s@.subrange(begin as int, name_end as int) =~= chars@.subrange(
        begin as int,
        name_end as int,
    ));
    match tail {
        None => {
            let port: u16 = if plain {
                80
            } else {
                443
            };
            Ok(Connection { transport, host, port })
        },
        Some(after) => {
            let (stop, _) = split_once(&chars, after, end, &colon);
            match parse_port(&chars, after, stop) {
                Some(port) => Ok(Connection { transport, host, port }),
                None => Err(ConfigError::InvalidPort),
            }
        },
    }
}

/// Every descriptor that can be read gives a host that is not empty: where
/// the descriptor names none, the host is loopback.
pub proof fn parsed_host_is_never_empty(s: Seq<char>)
    ensures
        parsed(s) matches Ok(c) ==> c.host.len() > 0,
{
    reveal_strlit("127.0.0.1");
}

} // verus!
