//! What HTTP requests are made of.

use vstd::prelude::*;

verus! {

/// The method of an HTTP request.
#[derive(Copy, Clone, Eq, PartialEq, Debug, Structural)]
pub enum HttpMethod {
    Delete,
    Get,
    Head,
    Post,
    Put,
}

} // verus!
