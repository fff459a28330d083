//! Transport-agnostic request and response values, the request body
//! rules, and response parsing.

use vstd::prelude::*;
use vstd::utf8::{decode_utf8, valid_utf8};

use crate::enums::{RequestType, ResponseType, RequestMethod};
use crate::errors::ClientError;

verus! {

/// A transport-agnostic HTTP request: built fresh for one execution,
/// handed to the client collaborator, never reused.
pub struct Request {
    /// The fully composed URL, as bytes.
    pub url: Vec<u8>,
    /// The HTTP method.
    pub method: RequestMethod,
    /// Headers: empty when built, populated by middleware.
    pub headers: Vec<(String, String)>,
    /// The body bytes.
    pub body: Vec<u8>,
}

/// A transport-agnostic HTTP response, as the client collaborator
/// produced it; middleware may mutate it before parsing.
pub struct Response {
    /// The status code.
    pub status: u16,
    /// The response headers.
    pub headers: Vec<(String, String)>,
    /// The body bytes.
    pub body: Vec<u8>,
}

/// The serialized form of an endpoint with no meaningful fields: `{}`.
pub open spec fn empty_object_text() -> Seq<u8> {
    seq![123u8, 125u8]
}

/// The serialized form `null`.
pub open spec fn null_text() -> Seq<u8> {
    seq![110u8, 117u8, 108u8, 108u8]
}

/// The body determined by a serialized endpoint and an optional raw
/// override: the override verbatim when present; otherwise the
/// serialized text, with the two structurally empty forms `{}` and
/// `null` replaced by an empty body.
pub open spec fn body_of(serialized: Seq<u8>, data: Option<Seq<u8>>) -> Seq<u8> {
    match data {
        Some(d) => d,
        None => if serialized == empty_object_text() || serialized == null_text() {
            Seq::empty()
        } else {
            serialized
        },
    }
}

/// What a body built without an override can look like: never the
/// literal `{}` and never the literal `null`.
pub open spec fn normalized_body(b: Seq<u8>) -> bool {
    b != empty_object_text() && b != null_text()
}

/// Law: when the override is absent or empty and the endpoint's
/// serialized field-set is structurally empty, the built body is the
/// empty byte sequence, not the text `{}` or `null`.
pub proof fn lemma_empty_fields_give_empty_body(serialized: Seq<u8>, data: Option<Seq<u8>>)
    requires
        data is None || data == Some(Seq::<u8>::empty()),
        serialized == empty_object_text() || serialized == null_text(),
    ensures
        body_of(serialized, data) == Seq::<u8>::empty(),
{
}

/// Law: a non-empty raw override becomes the body exactly, whatever
/// the endpoint's own fields would have serialized to.
pub proof fn lemma_data_override_wins(serialized: Seq<u8>, d: Seq<u8>)
    requires
        d.len() > 0,
    ensures
        body_of(serialized, Some(d)) == d,
{
}

fn is_structurally_empty(b: &Vec<u8>) -> (r: bool)
    ensures
        r == !normalized_body(b@),
{
    if b.len() == 2 && *b.get(0).unwrap() == 123 && *b.get(1).unwrap() == 125 {
        proof {
            assert(b@ =~= empty_object_text());
        }
        true
    } else if b.len() == 4 && *b.get(0).unwrap() == 110 && *b.get(1).unwrap() == 117 && *b.get(
        2,
    ).unwrap() == 108 && *b.get(3).unwrap() == 108 {
        proof {
            assert(b@ =~= null_text());
        }
        true
    } else {
        proof {
            if b@ == empty_object_text() {
                assert(b@[0] == 123 && b@[1] == 125 && b@.len() == 2);
            }
            if b@ == null_text() {
                assert(b@[0] == 110 && b@[1] == 117 && b@[2] == 108 && b@[3] == 108 && b@.len()
                    == 4);
            }
        }
        false
    }
}

/// Combines the endpoint's serialized form with the optional raw
/// override into the final request body.
pub fn body_bytes(serialized: Vec<u8>, data: Option<Vec<u8>>) -> (r: Vec<u8>)
    ensures
        r@ == body_of(serialized@, data.deep_view()),
{
    match data {
        Some(d) => d,
        None => {
            if is_structurally_empty(&serialized) {
                Vec::new()
            } else {
                serialized
            }
        },
    }
}

/// Builds the request body for an endpoint: the raw override when one
/// is given, else the endpoint's JSON serialization, normalized so
/// that a structurally empty serialization becomes an empty body.
pub fn build_body<E: serde::Serialize>(endpoint: &E, ty: RequestType, data: Option<Vec<u8>>) -> (r: Result<
    Vec<u8>,
    ClientError,
>)
    ensures
        data matches Some(d) ==> (r matches Ok(b) && b@ == d@),
        r matches Err(e) ==> data is None && e matches ClientError::DataParseError { .. },
        data is None ==> match r {
            Ok(b) => normalized_body(b@),
            Err(_) => true,
        },
{
    match ty {
        RequestType::JSON => match data {
            Some(d) => Ok(d),
            None => match serde_json::to_vec(endpoint) {
                Ok(s) => {
                    let b = body_bytes(s, None);
                    proof {
                        assert(empty_object_text().len() == 2);
                        assert(null_text().len() == 4);
                        if s@ == empty_object_text() || s@ == null_text() {
                            assert(b@.len() == 0);
                        }
                        assert(normalized_body(b@));
                    }
                    Ok(b)
                },
                Err(e) => Err(ClientError::DataParseError { source: e }),
            },
        },
    }
}

/// Whether `content` is the best-effort text of `body`: the decoded
/// text when the body is valid UTF-8, absent otherwise.
pub open spec fn content_of(body: Seq<u8>, content: Option<String>) -> bool {
    match content {
        Some(s) => valid_utf8(body) && s@ == decode_utf8(body),
        None => !valid_utf8(body),
    }
}

/// Relies on String::from_utf8: it succeeds exactly on the bodies that
/// are valid UTF-8, and then returns their decoded text.
#[verifier::external_body]
fn utf8_content(body: &Vec<u8>) -> (r: Option<String>)
    ensures
        content_of(body@, r),
{
    String::from_utf8(body.clone()).ok()
}

/// Parses a raw response body into the declared result type.
///
/// An empty body always yields no result, whatever the declared
/// response type. A non-empty body is deserialized from JSON; on
/// failure the error carries the body as text when it is valid UTF-8.
pub fn parse<T: serde::de::DeserializeOwned>(ty: ResponseType, body: &Vec<u8>) -> (r: Result<
    Option<T>,
    ClientError,
>)
    ensures
        body@.len() == 0 ==> (r matches Ok(x) && x is None),
        body@.len() > 0 ==> match r {
            Ok(x) => x is Some,
            Err(e) => e matches ClientError::ResponseParseError { source: _, content }
                && content_of(body@, content),
        },
{
    if body.len() == 0 {
        return Ok(None);
    }
    match ty {
        ResponseType::JSON => match serde_json::from_slice::<T>(body.as_slice()) {
            Ok(v) => Ok(Some(v)),
            Err(e) => Err(
                ClientError::ResponseParseError { source: e, content: utf8_content(body) },
            ),
        },
    }
}

} // verus!
