//! The error taxonomy of this library: flat, and terminal at this layer.

use vstd::prelude::*;

verus! {

/// An error raised while building a request, executing it through a
/// client, or parsing its response.
///
/// Transport failures are defined by the client collaborator and
/// middleware failures by the middleware hook; both travel through this
/// layer unchanged, in the variants reserved for them.
#[derive(Debug)]
pub enum ClientError {
    /// The endpoint failed to serialize to the request body format.
    DataParseError { source: serde_json::Error },
    /// A middleware hook rejected the call; the description is the hook's own.
    MiddleWareError { description: String },
    /// The transport client failed; the description is the client's own.
    RequestError { description: String },
    /// The response body failed to deserialize. `content` carries the body
    /// as text when the body is valid UTF-8, and is `None` otherwise.
    ResponseParseError { source: serde_json::Error, content: Option<String> },
    /// The base URL is malformed; `url` is the offending string.
    UrlParseError { url: String },
}

} // verus!
