//! Headers.

use vstd::prelude::*;

verus! {

/// The `Host` header of a request.
#[derive(Debug, PartialEq, Eq)]
pub struct Host {
    pub hostname: String,
    pub port: Option<u16>,
}

} // verus!
