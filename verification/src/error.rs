//! Errors.

use vstd::prelude::*;

use crate::uri::UrlError;

verus! {

/// What went wrong: with a URL, on a stream (`I`), or in an SSL
/// implementation (`S`).
#[derive(Debug, PartialEq, Eq)]
pub enum Error<I, S> {
    Uri(UrlError),
    Io(I),
    Ssl(S),
}

/// The kinds of I/O error that this library raises itself.
#[derive(Clone, Copy, Debug, PartialEq, Eq, Structural)]
pub enum ErrorKind {
    InvalidInput,
    ConnectionAborted,
    Other,
}

/// An I/O error that this library raises over a cause.
#[derive(Debug, PartialEq, Eq)]
pub struct Raised<X> {
    pub kind: ErrorKind,
    pub cause: X,
}

/// An I/O error: one that a stream reported, or one raised over a cause.
#[derive(Debug, PartialEq, Eq)]
pub enum IoError<I, X> {
    Reported(I),
    Raised(Raised<X>),
}

} // verus!
