//! The [Endpoint] trait and the execution entry points around it.

use vstd::prelude::*;
use vstd::utf8::encode_utf8;

use crate::enums::{RequestMethod, RequestType, ResponseType};
use crate::errors::ClientError;
use crate::http::{build_body, normalized_body, parse, Request, Response};
use crate::query::{QueryValue, QueryValueV};
use crate::url::{base_ok, build_url, built_url};

verus! {

/// A generic wrapper that can be applied to [Endpoint] results.
///
/// Some APIs enclose every response in a common envelope holding the
/// actual data in a subfield. Implementing this trait for the envelope
/// lets [Endpoint::exec_wrap] deserialize straight into it; the only
/// requirement is that [Wrapper::Value] encloses the [Endpoint::Output].
pub trait Wrapper: Sized {
    /// The endpoint result type this wrapper encloses.
    type Value;
}

/// The transport collaborator: supplies the base URL and performs the
/// network exchange. This is the sole network dependency of this
/// library; implementations live outside it.
pub trait Client {
    /// The base URL, in spec. Implementations override this to
    /// describe themselves; the default describes an empty base.
    open spec fn spec_base(&self) -> Seq<char> {
        Seq::empty()
    }

    /// The base URL that every endpoint path is joined to.
    fn base(&self) -> (r: String)
        ensures
            r@ == self.spec_base(),
    ;

    /// Performs the network exchange for one request. What comes back
    /// is the transport's affair; nothing is promised of it here.
    fn execute(&self, req: Request) -> (r: Result<Response, ClientError>);
}

/// The transport collaborator for blocking execution: the same
/// contract as [Client], for transports that block the calling thread
/// instead of suspending a task.
pub trait BlockingClient {
    /// The base URL, in spec. Implementations override this to
    /// describe themselves; the default describes an empty base.
    open spec fn spec_base(&self) -> Seq<char> {
        Seq::empty()
    }

    /// The base URL that every endpoint path is joined to.
    fn base(&self) -> (r: String)
        ensures
            r@ == self.spec_base(),
    ;

    /// Performs the network exchange for one request.
    fn execute(&self, req: Request) -> (r: Result<Response, ClientError>);
}

/// A pair of hooks invoked around execution: one may mutate the fully
/// built request before transport, the other the raw response before
/// parsing. Either may reject the call by failing; its error aborts
/// the call and propagates verbatim. Each hook also receives the
/// endpoint value being executed, for context.
pub trait MiddleWare: Send + Sync {
    /// May inspect, mutate or reject the outgoing request.
    fn request<E>(&self, endpoint: &E, req: &mut Request) -> (r: Result<(), ClientError>);

    /// May inspect, mutate or reject the incoming response.
    fn response<E>(&self, endpoint: &E, resp: &mut Response) -> (r: Result<(), ClientError>);
}

/// Whether `e` is the URL-parse error owed for the malformed base.
pub open spec fn is_url_parse_error(e: ClientError, base: Seq<char>) -> bool {
    e matches ClientError::UrlParseError { url } && url@ == base
}

/// What a request freshly built from `base` and `endpoint` holds: the
/// composed URL, the endpoint's method, no headers yet, and the body
/// the override or the normalized serialization determines.
pub open spec fn req_built<E: Endpoint>(endpoint: &E, base: Seq<char>, req: Request) -> bool {
    &&& req.url@ == built_url(
        encode_utf8(base),
        encode_utf8(endpoint.spec_path()),
        endpoint.spec_query(),
    )
    &&& req.method == endpoint.spec_method()
    &&& req.headers@.len() == 0
    &&& match endpoint.spec_data() {
        Some(d) => req.body@ == d,
        None => normalized_body(req.body@),
    }
}

/// A remote HTTP endpoint which can be executed using a [Client].
///
/// An endpoint consists of a relative `path` joined to the base URL of
/// a client, a `method`, optional `query` parameters, and a body:
/// either the raw `data` override or the JSON serialization of the
/// endpoint value itself. The raw response body deserializes into
/// [Endpoint::Output].
///
/// The four spec functions are the endpoint's description in the
/// contracts; the executable methods return exactly them.
pub trait Endpoint: Send + Sync + Sized {
    /// The type that a successful response body deserializes into.
    type Output;

    /// The relative path, in spec. Implementations override the four
    /// spec functions to describe themselves; the defaults describe an
    /// endpoint with an empty description.
    open spec fn spec_path(&self) -> Seq<char> {
        Seq::empty()
    }

    /// The method, in spec.
    open spec fn spec_method(&self) -> RequestMethod {
        RequestMethod::GET
    }

    /// The query pairs, in spec.
    open spec fn spec_query(&self) -> Seq<(Seq<char>, QueryValueV)> {
        Seq::empty()
    }

    /// The raw body override, in spec.
    open spec fn spec_data(&self) -> Option<Seq<u8>> {
        None
    }

    /// The relative URL path of this endpoint, joined to a client's
    /// base URL to form the fully qualified URL.
    fn path(&self) -> (r: String)
        ensures
            r@ == self.spec_path(),
    ;

    /// The HTTP method used when executing this endpoint.
    fn method(&self) -> (r: RequestMethod)
        ensures
            r == self.spec_method(),
    ;

    /// Query parameters to add to the request; most endpoints have none.
    fn query(&self) -> (r: Vec<(String, QueryValue)>)
        ensures
            r.deep_view() == self.spec_query(),
    ;

    /// Raw request data sent verbatim instead of serializing the
    /// endpoint's own fields.
    fn data(&self) -> (r: Option<Vec<u8>>)
        ensures
            r.deep_view() == self.spec_data(),
    ;

    /// The content type of the request body.
    const REQUEST_BODY_TYPE: RequestType;

    /// The content type of the response body.
    const RESPONSE_BODY_TYPE: ResponseType;

    /// Executes the endpoint using the given [Client] and returns the
    /// deserialized [Endpoint::Output], or no result on an empty body.
    fn exec<C: Client>(&self, client: &C) -> (r: Result<Option<Self::Output>, ClientError>) where
        Self: serde::Serialize,
        Self::Output: serde::de::DeserializeOwned,
        ensures
            !base_ok(encode_utf8(client.spec_base())) ==> (r matches Err(e)
                && is_url_parse_error(e, client.spec_base())),
    {
        let base = client.base();
        let path = self.path();
        let query = self.query();
        let url = match build_url(base.as_str(), path.as_str(), &query) {
            Ok(u) => u,
            Err(e) => return Err(e),
        };
        let body = match build_body(self, Self::REQUEST_BODY_TYPE, self.data()) {
            Ok(b) => b,
            Err(e) => return Err(e),
        };
        let req = Request { url, method: self.method(), headers: Vec::new(), body };
        let resp = match exec(client, req) {
            Ok(x) => x,
            Err(e) => return Err(e),
        };
        parse::<Self::Output>(Self::RESPONSE_BODY_TYPE, &resp.body)
    }

    /// Executes the endpoint using the given [Client] and [MiddleWare],
    /// returning the deserialized [Endpoint::Output].
    fn exec_mut<C: Client, M: MiddleWare>(&self, client: &C, middle: &M) -> (r: Result<
        Option<Self::Output>,
        ClientError,
    >) where
        Self: serde::Serialize,
        Self::Output: serde::de::DeserializeOwned,
        ensures
            !base_ok(encode_utf8(client.spec_base())) ==> (r matches Err(e)
                && is_url_parse_error(e, client.spec_base())),
    {
        let base = client.base();
        let path = self.path();
        let query = self.query();
        let url = match build_url(base.as_str(), path.as_str(), &query) {
            Ok(u) => u,
            Err(e) => return Err(e),
        };
        let body = match build_body(self, Self::REQUEST_BODY_TYPE, self.data()) {
            Ok(b) => b,
            Err(e) => return Err(e),
        };
        let mut req = Request { url, method: self.method(), headers: Vec::new(), body };
        match middle.request(self, &mut req) {
            Ok(_) => (),
            Err(e) => return Err(e),
        }
        let resp = match exec_mut(client, self, req, middle) {
            Ok(x) => x,
            Err(e) => return Err(e),
        };
        parse::<Self::Output>(Self::RESPONSE_BODY_TYPE, &resp.body)
    }

    /// Executes the endpoint using the given [Client] and returns the
    /// deserialized [Endpoint::Output] wrapped in a [Wrapper].
    fn exec_wrap<C, W>(&self, client: &C) -> (r: Result<Option<W>, ClientError>) where
        Self: serde::Serialize,
        C: Client,
        W: Wrapper<Value = Self::Output> + serde::de::DeserializeOwned,
        ensures
            !base_ok(encode_utf8(client.spec_base())) ==> (r matches Err(e)
                && is_url_parse_error(e, client.spec_base())),
    {
        let base = client.base();
        let path = self.path();
        let query = self.query();
        let url = match build_url(base.as_str(), path.as_str(), &query) {
            Ok(u) => u,
            Err(e) => return Err(e),
        };
        let body = match build_body(self, Self::REQUEST_BODY_TYPE, self.data()) {
            Ok(b) => b,
            Err(e) => return Err(e),
        };
        let req = Request { url, method: self.method(), headers: Vec::new(), body };
        let resp = match exec(client, req) {
            Ok(x) => x,
            Err(e) => return Err(e),
        };
        parse::<W>(Self::RESPONSE_BODY_TYPE, &resp.body)
    }

    /// Executes the endpoint using the given [Client] and [MiddleWare],
    /// returning the deserialized [Endpoint::Output] wrapped in a
    /// [Wrapper].
    fn exec_wrap_mut<C, M, W>(&self, client: &C, middle: &M) -> (r: Result<
        Option<W>,
        ClientError,
    >) where
        Self: serde::Serialize,
        C: Client,
        M: MiddleWare,
        W: Wrapper<Value = Self::Output> + serde::de::DeserializeOwned,
        ensures
            !base_ok(encode_utf8(client.spec_base())) ==> (r matches Err(e)
                && is_url_parse_error(e, client.spec_base())),
    {
        let base = client.base();
        let path = self.path();
        let query = self.query();
        let url = match build_url(base.as_str(), path.as_str(), &query) {
            Ok(u) => u,
            Err(e) => return Err(e),
        };
        let body = match build_body(self, Self::REQUEST_BODY_TYPE, self.data()) {
            Ok(b) => b,
            Err(e) => return Err(e),
        };
        let mut req = Request { url, method: self.method(), headers: Vec::new(), body };
        match middle.request(self, &mut req) {
            Ok(_) => (),
            Err(e) => return Err(e),
        }
        let resp = match exec_mut(client, self, req, middle) {
            Ok(x) => x,
            Err(e) => return Err(e),
        };
        parse::<W>(Self::RESPONSE_BODY_TYPE, &resp.body)
    }

    /// Executes the endpoint using the given [Client], returning the raw
    /// response body.
    fn exec_raw<C: Client>(&self, client: &C) -> (r: Result<Vec<u8>, ClientError>) where
        Self: serde::Serialize,
        ensures
            !base_ok(encode_utf8(client.spec_base())) ==> (r matches Err(e)
                && is_url_parse_error(e, client.spec_base())),
    {
        let base = client.base();
        let path = self.path();
        let query = self.query();
        let url = match build_url(base.as_str(), path.as_str(), &query) {
            Ok(u) => u,
            Err(e) => return Err(e),
        };
        let body = match build_body(self, Self::REQUEST_BODY_TYPE, self.data()) {
            Ok(b) => b,
            Err(e) => return Err(e),
        };
        let req = Request { url, method: self.method(), headers: Vec::new(), body };
        let resp = match exec(client, req) {
            Ok(x) => x,
            Err(e) => return Err(e),
        };
        Ok(resp.body)
    }

    /// Executes the endpoint using the given [Client] and [MiddleWare],
    /// returning the raw response body.
    fn exec_raw_mut<C: Client, M: MiddleWare>(&self, client: &C, middle: &M) -> (r: Result<
        Vec<u8>,
        ClientError,
    >) where
        Self: serde::Serialize,
        ensures
            !base_ok(encode_utf8(client.spec_base())) ==> (r matches Err(e)
                && is_url_parse_error(e, client.spec_base())),
    {
        let base = client.base();
        let path = self.path();
        let query = self.query();
        let url = match build_url(base.as_str(), path.as_str(), &query) {
            Ok(u) => u,
            Err(e) => return Err(e),
        };
        let body = match build_body(self, Self::REQUEST_BODY_TYPE, self.data()) {
            Ok(b) => b,
            Err(e) => return Err(e),
        };
        let mut req = Request { url, method: self.method(), headers: Vec::new(), body };
        match middle.request(self, &mut req) {
            Ok(_) => (),
            Err(e) => return Err(e),
        }
        let resp = match exec_mut(client, self, req, middle) {
            Ok(x) => x,
            Err(e) => return Err(e),
        };
        Ok(resp.body)
    }

    /// Executes the endpoint using the given [BlockingClient] and
    /// returns the deserialized [Endpoint::Output].
    fn exec_block<C: BlockingClient>(&self, client: &C) -> (r: Result<
        Option<Self::Output>,
        ClientError,
    >) where
        Self: serde::Serialize,
        Self::Output: serde::de::DeserializeOwned,
        ensures
            !base_ok(encode_utf8(client.spec_base())) ==> (r matches Err(e)
                && is_url_parse_error(e, client.spec_base())),
    {
        let base = client.base();
        let path = self.path();
        let query = self.query();
        let url = match build_url(base.as_str(), path.as_str(), &query) {
            Ok(u) => u,
            Err(e) => return Err(e),
        };
        let body = match build_body(self, Self::REQUEST_BODY_TYPE, self.data()) {
            Ok(b) => b,
            Err(e) => return Err(e),
        };
        let req = Request { url, method: self.method(), headers: Vec::new(), body };
        let resp = match exec_block(client, req) {
            Ok(x) => x,
            Err(e) => return Err(e),
        };
        parse::<Self::Output>(Self::RESPONSE_BODY_TYPE, &resp.body)
    }

    /// Executes the endpoint using the given [BlockingClient] and
    /// [MiddleWare], returning the deserialized [Endpoint::Output].
    fn exec_mut_block<C: BlockingClient, M: MiddleWare>(&self, client: &C, middle: &M) -> (r:
        Result<Option<Self::Output>, ClientError>) where
        Self: serde::Serialize,
        Self::Output: serde::de::DeserializeOwned,
        ensures
            !base_ok(encode_utf8(client.spec_base())) ==> (r matches Err(e)
                && is_url_parse_error(e, client.spec_base())),
    {
        let base = client.base();
        let path = self.path();
        let query = self.query();
        let url = match build_url(base.as_str(), path.as_str(), &query) {
            Ok(u) => u,
            Err(e) => return Err(e),
        };
        let body = match build_body(self, Self::REQUEST_BODY_TYPE, self.data()) {
            Ok(b) => b,
            Err(e) => return Err(e),
        };
        let mut req = Request { url, method: self.method(), headers: Vec::new(), body };
        match middle.request(self, &mut req) {
            Ok(_) => (),
            Err(e) => return Err(e),
        }
        let resp = match exec_mut_block(client, self, req, middle) {
            Ok(x) => x,
            Err(e) => return Err(e),
        };
        parse::<Self::Output>(Self::RESPONSE_BODY_TYPE, &resp.body)
    }

    /// Executes the endpoint using the given [BlockingClient] and
    /// returns the deserialized [Endpoint::Output] wrapped in a
    /// [Wrapper].
    fn exec_wrap_block<C, W>(&self, client: &C) -> (r: Result<Option<W>, ClientError>) where
        Self: serde::Serialize,
        C: BlockingClient,
        W: Wrapper<Value = Self::Output> + serde::de::DeserializeOwned,
        ensures
            !base_ok(encode_utf8(client.spec_base())) ==> (r matches Err(e)
                && is_url_parse_error(e, client.spec_base())),
    {
        let base = client.base();
        let path = self.path();
        let query = self.query();
        let url = match build_url(base.as_str(), path.as_str(), &query) {
            Ok(u) => u,
            Err(e) => return Err(e),
        };
        let body = match build_body(self, Self::REQUEST_BODY_TYPE, self.data()) {
            Ok(b) => b,
            Err(e) => return Err(e),
        };
        let req = Request { url, method: self.method(), headers: Vec::new(), body };
        let resp = match exec_block(client, req) {
            Ok(x) => x,
            Err(e) => return Err(e),
        };
        parse::<W>(Self::RESPONSE_BODY_TYPE, &resp.body)
    }

    /// Executes the endpoint using the given [BlockingClient] and
    /// [MiddleWare], returning the deserialized [Endpoint::Output]
    /// wrapped in a [Wrapper].
    fn exec_wrap_mut_block<C, M, W>(&self, client: &C, middle: &M) -> (r: Result<
        Option<W>,
        ClientError,
    >) where
        Self: serde::Serialize,
        C: BlockingClient,
        M: MiddleWare,
        W: Wrapper<Value = Self::Output> + serde::de::DeserializeOwned,
        ensures
            !base_ok(encode_utf8(client.spec_base())) ==> (r matches Err(e)
                && is_url_parse_error(e, client.spec_base())),
    {
        let base = client.base();
        let path = self.path();
        let query = self.query();
        let url = match build_url(base.as_str(), path.as_str(), &query) {
            Ok(u) => u,
            Err(e) => return Err(e),
        };
        let body = match build_body(self, Self::REQUEST_BODY_TYPE, self.data()) {
            Ok(b) => b,
            Err(e) => return Err(e),
        };
        let mut req = Request { url, method: self.method(), headers: Vec::new(), body };
        match middle.request(self, &mut req) {
            Ok(_) => (),
            Err(e) => return Err(e),
        }
        let resp = match exec_mut_block(client, self, req, middle) {
            Ok(x) => x,
            Err(e) => return Err(e),
        };
        parse::<W>(Self::RESPONSE_BODY_TYPE, &resp.body)
    }

    /// Executes the endpoint using the given [BlockingClient],
    /// returning the raw response body.
    fn exec_raw_block<C: BlockingClient>(&self, client: &C) -> (r: Result<Vec<u8>, ClientError>) where
        Self: serde::Serialize,
        ensures
            !base_ok(encode_utf8(client.spec_base())) ==> (r matches Err(e)
                && is_url_parse_error(e, client.spec_base())),
    {
        let base = client.base();
        let path = self.path();
        let query = self.query();
        let url = match build_url(base.as_str(), path.as_str(), &query) {
            Ok(u) => u,
            Err(e) => return Err(e),
        };
        let body = match build_body(self, Self::REQUEST_BODY_TYPE, self.data()) {
            Ok(b) => b,
            Err(e) => return Err(e),
        };
        let req = Request { url, method: self.method(), headers: Vec::new(), body };
        let resp = match exec_block(client, req) {
            Ok(x) => x,
            Err(e) => return Err(e),
        };
        Ok(resp.body)
    }

    /// Executes the endpoint using the given [BlockingClient] and
    /// [MiddleWare], returning the raw response body.
    fn exec_raw_mut_block<C: BlockingClient, M: MiddleWare>(&self, client: &C, middle: &M) -> (r:
        Result<Vec<u8>, ClientError>) where
        Self: serde::Serialize,
        ensures
            !base_ok(encode_utf8(client.spec_base())) ==> (r matches Err(e)
                && is_url_parse_error(e, client.spec_base())),
    {
        let base = client.base();
        let path = self.path();
        let query = self.query();
        let url = match build_url(base.as_str(), path.as_str(), &query) {
            Ok(u) => u,
            Err(e) => return Err(e),
        };
        let body = match build_body(self, Self::REQUEST_BODY_TYPE, self.data()) {
            Ok(b) => b,
            Err(e) => return Err(e),
        };
        let mut req = Request { url, method: self.method(), headers: Vec::new(), body };
        match middle.request(self, &mut req) {
            Ok(_) => (),
            Err(e) => return Err(e),
        }
        let resp = match exec_mut_block(client, self, req, middle) {
            Ok(x) => x,
            Err(e) => return Err(e),
        };
        Ok(resp.body)
    }
}

/// Builds a [Request] from the base URL and an [Endpoint].
///
/// A malformed base fails with the URL-parse error before anything
/// else; with a well-formed base, only serialization of an endpoint
/// without a raw override can fail.
pub fn build<E: Endpoint + serde::Serialize>(base: &str, endpoint: &E) -> (r: Result<Request, ClientError>)
    ensures
        !base_ok(encode_utf8(base@)) ==> (r matches Err(e) && is_url_parse_error(e, base@)),
        base_ok(encode_utf8(base@)) ==> match r {
            Ok(req) => req_built(endpoint, base@, req),
            Err(e) => endpoint.spec_data() is None && e matches ClientError::DataParseError {
                ..
            },
        },
        base_ok(encode_utf8(base@)) && endpoint.spec_data() is Some ==> r is Ok,
{
    let path = endpoint.path();
    let query = endpoint.query();
    let url = match build_url(base, path.as_str(), &query) {
        Ok(u) => u,
        Err(e) => return Err(e),
    };
    let data = endpoint.data();
    let ghost data_view = data.deep_view();
    let body = match build_body(endpoint, E::REQUEST_BODY_TYPE, data) {
        Ok(b) => b,
        Err(e) => return Err(e),
    };
    let req = Request { url, method: endpoint.method(), headers: Vec::new(), body };
    proof {
        assert(data_view == endpoint.spec_data());
        match endpoint.spec_data() {
            Some(dv) => {
                assert(req.body@ == dv);
            },
            None => {
                assert(normalized_body(req.body@));
            },
        }
    }
    Ok(req)
}

/// Builds a [Request] from the base URL and an [Endpoint], then lets
/// the [MiddleWare]'s request hook mutate or reject it. What the hook
/// does to the request is its own affair; a malformed base still fails
/// with the URL-parse error, before the hook runs.
pub fn build_mut<E: Endpoint + serde::Serialize, M: MiddleWare>(base: &str, endpoint: &E, middle: &M) -> (r: Result<
    Request,
    ClientError,
>)
    ensures
        !base_ok(encode_utf8(base@)) ==> (r matches Err(e) && is_url_parse_error(e, base@)),
{
    let mut req = match build(base, endpoint) {
        Ok(q) => q,
        Err(e) => return Err(e),
    };
    match middle.request(endpoint, &mut req) {
        Ok(_) => Ok(req),
        Err(e) => Err(e),
    }
}

/// Hands the request to the client's transport.
fn exec<C: Client>(client: &C, req: Request) -> (r: Result<Response, ClientError>) {
    client.execute(req)
}

/// Hands the request to the client's transport, then lets the
/// [MiddleWare]'s response hook mutate or reject the response.
fn exec_mut<C: Client, E, M: MiddleWare>(
    client: &C,
    endpoint: &E,
    req: Request,
    middle: &M,
) -> (r: Result<Response, ClientError>) {
    let mut resp = match client.execute(req) {
        Ok(x) => x,
        Err(e) => return Err(e),
    };
    match middle.response(endpoint, &mut resp) {
        Ok(_) => Ok(resp),
        Err(e) => Err(e),
    }
}

/// Hands the request to the blocking client's transport.
fn exec_block<C: BlockingClient>(client: &C, req: Request) -> (r: Result<Response, ClientError>) {
    client.execute(req)
}

/// Hands the request to the blocking client's transport, then lets the
/// [MiddleWare]'s response hook mutate or reject the response.
fn exec_mut_block<C: BlockingClient, E, M: MiddleWare>(
    client: &C,
    endpoint: &E,
    req: Request,
    middle: &M,
) -> (r: Result<Response, ClientError>) {
    let mut resp = match client.execute(req) {
        Ok(x) => x,
        Err(e) => return Err(e),
    };
    match middle.response(endpoint, &mut resp) {
        Ok(_) => Ok(resp),
        Err(e) => Err(e),
    }
}

} // verus!
