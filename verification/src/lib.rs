//! Decision logic of a single-hop HTTP forwarding proxy.
//!
//! The crate holds everything the proxy decides: how an endpoint descriptor is
//! read, where a request is forwarded to, how its headers are rewritten, how a
//! streamed body is gathered, and which reply each outcome of the outbound
//! exchange leads to. Sockets, tasks and the HTTP framing itself are left to
//! the program that drives these functions.

pub mod assemble;
pub mod connector;
pub mod drain;
pub mod error;
pub mod logger;
pub mod message;
pub mod relay;
pub mod target;
pub mod text;
