//! What the machines share with the message layer.

use vstd::prelude::*;

use crate::header::Host;
use crate::uri::Url;

verus! {

/// The target of a request.
#[derive(Debug, PartialEq, Eq)]
pub enum RequestUri {
    /// A path on the host, as in `GET /where HTTP/1.1`.
    AbsolutePath(String),
    /// A whole URL, as sent to a proxy.
    AbsoluteUri(Url),
    /// A host and port, as in a `CONNECT` request.
    Authority(String),
    /// The `*` of an `OPTIONS` request.
    Star,
}

/// The head of a request: its target, its `Host` header, and whatever else
/// the message layer keeps there.
#[derive(Debug, PartialEq, Eq)]
pub struct RequestHead<X> {
    pub uri: RequestUri,
    pub host: Option<Host>,
    pub rest: X,
}

/// What a handler wants of its connection next.
pub trait Next: Sized {
    /// The connection is to be closed and forgotten.
    fn remove() -> Self;
}

} // verus!
