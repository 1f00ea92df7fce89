//! Faults of the deployment itself, as opposed to faults of one request.

use vstd::prelude::*;

verus! {

/// A configuration fault: the proxy was started with, or pointed at, something
/// it cannot work with.
#[derive(Clone, Copy, Debug, PartialEq, Eq, Structural)]
pub enum ConfigError {
    /// An endpoint descriptor without `://`.
    MalformedDescriptor,
    /// An endpoint descriptor whose port is not a number below 65536.
    InvalidPort,
    /// The forward address, joined with a request's path and query, is not a
    /// URI.
    InvalidUri,
    /// The forward URI names no host.
    MissingHost,
    /// The forward URI gives no port and its scheme has no default one.
    UnsupportedScheme,
}

} // verus!
