//! Wire-level tag types: HTTP method and body content types.

use vstd::prelude::*;

verus! {

/// The HTTP method used when a client executes an endpoint.
#[derive(Clone, Copy, Debug, PartialEq, Eq, Structural)]
pub enum RequestMethod {
    DELETE,
    GET,
    HEAD,
    LIST,
    PATCH,
    POST,
    PUT,
}

/// The content type of a request body.
#[derive(Clone, Copy, Debug, PartialEq, Eq, Structural)]
pub enum RequestType {
    JSON,
}

/// The content type of a response body.
#[derive(Clone, Copy, Debug, PartialEq, Eq, Structural)]
pub enum ResponseType {
    JSON,
}

} // verus!
