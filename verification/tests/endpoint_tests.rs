use serde::ser::SerializeStruct;

use rustify::endpoint::{build, BlockingClient, Client, Endpoint, MiddleWare, Wrapper};
use rustify::enums::{RequestMethod, RequestType, ResponseType};
use rustify::errors::ClientError;
use rustify::http::{Request, Response};
use rustify::query::QueryValue;

struct EmptyEp;

impl serde::Serialize for EmptyEp {
    fn serialize<S: serde::Serializer>(&self, s: S) -> Result<S::Ok, S::Error> {
        let st = s.serialize_struct("EmptyEp", 0)?;
        st.end()
    }
}

impl Endpoint for EmptyEp {
    type Output = serde_json::Value;

    fn path(&self) -> String {
        String::from("v1/items")
    }

    fn method(&self) -> RequestMethod {
        RequestMethod::GET
    }

    fn query(&self) -> Vec<(String, QueryValue)> {
        Vec::new()
    }

    fn data(&self) -> Option<Vec<u8>> {
        None
    }

    const REQUEST_BODY_TYPE: RequestType = RequestType::JSON;

    const RESPONSE_BODY_TYPE: ResponseType = ResponseType::JSON;
}

struct NamedEp {
    name: String,
}

impl serde::Serialize for NamedEp {
    fn serialize<S: serde::Serializer>(&self, s: S) -> Result<S::Ok, S::Error> {
        let mut st = s.serialize_struct("NamedEp", 1)?;
        st.serialize_field("name", &self.name)?;
        st.end()
    }
}

impl Endpoint for NamedEp {
    type Output = serde_json::Value;

    fn path(&self) -> String {
        String::from("v1/items")
    }

    fn method(&self) -> RequestMethod {
        RequestMethod::POST
    }

    fn query(&self) -> Vec<(String, QueryValue)> {
        Vec::new()
    }

    fn data(&self) -> Option<Vec<u8>> {
        None
    }

    const REQUEST_BODY_TYPE: RequestType = RequestType::JSON;

    const RESPONSE_BODY_TYPE: ResponseType = ResponseType::JSON;
}

struct RawEp {
    name: String,
    payload: Vec<u8>,
}

impl serde::Serialize for RawEp {
    fn serialize<S: serde::Serializer>(&self, s: S) -> Result<S::Ok, S::Error> {
        let mut st = s.serialize_struct("RawEp", 1)?;
        st.serialize_field("name", &self.name)?;
        st.end()
    }
}

impl Endpoint for RawEp {
    type Output = serde_json::Value;

    fn path(&self) -> String {
        String::from("upload")
    }

    fn method(&self) -> RequestMethod {
        RequestMethod::PUT
    }

    fn query(&self) -> Vec<(String, QueryValue)> {
        Vec::new()
    }

    fn data(&self) -> Option<Vec<u8>> {
        Some(self.payload.clone())
    }

    const REQUEST_BODY_TYPE: RequestType = RequestType::JSON;

    const RESPONSE_BODY_TYPE: ResponseType = ResponseType::JSON;
}

struct QueryEp;

impl serde::Serialize for QueryEp {
    fn serialize<S: serde::Serializer>(&self, s: S) -> Result<S::Ok, S::Error> {
        let st = s.serialize_struct("QueryEp", 0)?;
        st.end()
    }
}

impl Endpoint for QueryEp {
    type Output = serde_json::Value;

    fn path(&self) -> String {
        String::from("search")
    }

    fn method(&self) -> RequestMethod {
        RequestMethod::GET
    }

    fn query(&self) -> Vec<(String, QueryValue)> {
        vec![
            (String::from("a"), QueryValue::Str(String::from("b c"))),
            (String::from("n"), QueryValue::Int(-5)),
            (String::from("f"), QueryValue::Bool(true)),
            (String::from("z"), QueryValue::Null),
        ]
    }

    fn data(&self) -> Option<Vec<u8>> {
        None
    }

    const REQUEST_BODY_TYPE: RequestType = RequestType::JSON;

    const RESPONSE_BODY_TYPE: ResponseType = ResponseType::JSON;
}

struct FixedClient {
    base_url: String,
    body: Vec<u8>,
}

impl Client for FixedClient {
    fn base(&self) -> String {
        self.base_url.clone()
    }

    fn execute(&self, _req: Request) -> Result<Response, ClientError> {
        Ok(Response { status: 200, headers: Vec::new(), body: self.body.clone() })
    }
}

impl BlockingClient for FixedClient {
    fn base(&self) -> String {
        self.base_url.clone()
    }

    fn execute(&self, _req: Request) -> Result<Response, ClientError> {
        Ok(Response { status: 200, headers: Vec::new(), body: self.body.clone() })
    }
}

struct AuthCheckingClient;

impl Client for AuthCheckingClient {
    fn base(&self) -> String {
        String::from("http://api.example.com")
    }

    fn execute(&self, req: Request) -> Result<Response, ClientError> {
        for (k, v) in req.headers.iter() {
            if k == "Authorization" && v == "Bearer T" {
                return Ok(Response { status: 200, headers: Vec::new(), body: Vec::new() });
            }
        }
        Err(ClientError::RequestError { description: String::from("missing authorization") })
    }
}

struct AuthMiddle;

impl MiddleWare for AuthMiddle {
    fn request<E>(&self, _endpoint: &E, req: &mut Request) -> Result<(), ClientError> {
        req.headers.push((String::from("Authorization"), String::from("Bearer T")));
        Ok(())
    }

    fn response<E>(&self, _endpoint: &E, _resp: &mut Response) -> Result<(), ClientError> {
        Ok(())
    }
}

struct Env {
    data: serde_json::Value,
}

impl<'de> serde::Deserialize<'de> for Env {
    fn deserialize<D: serde::Deserializer<'de>>(d: D) -> Result<Env, D::Error> {
        let v = serde_json::Value::deserialize(d)?;
        Ok(Env { data: v.get("data").cloned().unwrap_or(serde_json::Value::Null) })
    }
}

impl Wrapper for Env {
    type Value = serde_json::Value;
}

fn json(text: &str) -> serde_json::Value {
    serde_json::from_str(text).unwrap()
}

#[test]
fn empty_fields_give_empty_body_and_plain_url() {
    let req = build("http://api.example.com", &EmptyEp).unwrap();
    assert_eq!(req.url, b"http://api.example.com/v1/items".to_vec());
    assert_eq!(req.method, RequestMethod::GET);
    assert!(req.body.is_empty());
    assert!(req.headers.is_empty());
}

#[test]
fn named_fields_serialize_into_body() {
    let req = build("http://api.example.com", &NamedEp { name: String::from("x") }).unwrap();
    assert_eq!(req.body, b"{\"name\":\"x\"}".to_vec());
    assert_eq!(req.method, RequestMethod::POST);
}

#[test]
fn data_override_wins_over_fields() {
    let ep = RawEp { name: String::from("ignored"), payload: b"RAW BYTES".to_vec() };
    let req = build("http://api.example.com", &ep).unwrap();
    assert_eq!(req.body, b"RAW BYTES".to_vec());
}

#[test]
fn malformed_base_fails_with_url_parse_error() {
    match build("not a url", &EmptyEp) {
        Err(ClientError::UrlParseError { url }) => assert_eq!(url, "not a url"),
        _ => panic!("expected a URL parse error"),
    }
}

#[test]
fn base_with_trailing_slash_joins_cleanly() {
    let req = build("http://api.example.com/api/", &EmptyEp).unwrap();
    assert_eq!(req.url, b"http://api.example.com/api/v1/items".to_vec());
}

#[test]
fn query_pairs_are_rendered_and_encoded() {
    let req = build("http://api.example.com", &QueryEp).unwrap();
    assert_eq!(req.url, b"http://api.example.com/search?a=b%20c&n=-5&f=true&z=null".to_vec());
}

#[test]
fn query_value_rendering_is_exact() {
    assert_eq!(QueryValue::Int(-5).render(), b"-5".to_vec());
    assert_eq!(QueryValue::Int(1234567890).render(), b"1234567890".to_vec());
    assert_eq!(QueryValue::Int(0).render(), b"0".to_vec());
    assert_eq!(
        QueryValue::Int(i64::MIN).render(),
        b"-9223372036854775808".to_vec()
    );
    assert_eq!(QueryValue::Bool(false).render(), b"false".to_vec());
    assert_eq!(QueryValue::Null.render(), b"null".to_vec());
    assert_eq!(QueryValue::Str(String::from("b c")).render(), b"b c".to_vec());
}

#[test]
fn body_bytes_drops_structurally_empty_forms() {
    assert!(rustify::http::body_bytes(b"{}".to_vec(), None).is_empty());
    assert!(rustify::http::body_bytes(b"null".to_vec(), None).is_empty());
    assert_eq!(
        rustify::http::body_bytes(b"{\"a\":1}".to_vec(), None),
        b"{\"a\":1}".to_vec()
    );
    assert_eq!(
        rustify::http::body_bytes(b"{}".to_vec(), Some(b"RAW".to_vec())),
        b"RAW".to_vec()
    );
}

#[test]
fn empty_body_parses_to_no_result() {
    let r: Result<Option<serde_json::Value>, ClientError> =
        rustify::http::parse(ResponseType::JSON, &Vec::new());
    match r {
        Ok(None) => (),
        _ => panic!("expected no result"),
    }
}

#[test]
fn parse_round_trip_is_pure_and_exact() {
    let body = b"{\"count\":3}".to_vec();
    let first: Option<serde_json::Value> =
        rustify::http::parse(ResponseType::JSON, &body).unwrap();
    let second: Option<serde_json::Value> =
        rustify::http::parse(ResponseType::JSON, &body).unwrap();
    assert_eq!(first, second);
    assert_eq!(first.unwrap(), json("{\"count\":3}"));
}

#[test]
fn parse_error_keeps_utf8_body_as_text() {
    let body = b"not json".to_vec();
    let r: Result<Option<serde_json::Value>, ClientError> =
        rustify::http::parse(ResponseType::JSON, &body);
    match r {
        Err(ClientError::ResponseParseError { content, .. }) => {
            assert_eq!(content, Some(String::from("not json")));
        },
        _ => panic!("expected a response parse error"),
    }
}

#[test]
fn parse_error_omits_non_utf8_body() {
    let body = vec![0xffu8, 0xfe, 0x01];
    let r: Result<Option<serde_json::Value>, ClientError> =
        rustify::http::parse(ResponseType::JSON, &body);
    match r {
        Err(ClientError::ResponseParseError { content, .. }) => assert_eq!(content, None),
        _ => panic!("expected a response parse error"),
    }
}

#[test]
fn exec_returns_typed_result() {
    let client = FixedClient {
        base_url: String::from("http://api.example.com"),
        body: b"{\"count\":3}".to_vec(),
    };
    let ep = NamedEp { name: String::from("x") };
    let got = Endpoint::exec(&ep, &client).unwrap();
    assert_eq!(got, Some(json("{\"count\":3}")));
}

#[test]
fn exec_on_empty_transport_body_returns_none() {
    let client = FixedClient { base_url: String::from("http://api.example.com"), body: Vec::new() };
    let got = Endpoint::exec(&EmptyEp, &client).unwrap();
    assert_eq!(got, None);
}

#[test]
fn exec_raw_returns_transport_bytes() {
    let client = FixedClient {
        base_url: String::from("http://api.example.com"),
        body: b"anything at all".to_vec(),
    };
    let got = EmptyEp.exec_raw(&client).unwrap();
    assert_eq!(got, b"anything at all".to_vec());
}

#[test]
fn exec_wrap_deserializes_into_the_envelope() {
    let client = FixedClient {
        base_url: String::from("http://api.example.com"),
        body: b"{\"data\":{\"count\":3},\"meta\":1}".to_vec(),
    };
    let got: Option<Env> = EmptyEp.exec_wrap(&client).unwrap();
    assert_eq!(got.unwrap().data, json("{\"count\":3}"));
}

#[test]
fn middleware_header_reaches_the_transport() {
    let got = EmptyEp.exec_mut(&AuthCheckingClient, &AuthMiddle).unwrap();
    assert_eq!(got, None);
}

#[test]
fn without_middleware_the_transport_sees_no_header() {
    match Endpoint::exec(&EmptyEp, &AuthCheckingClient) {
        Err(ClientError::RequestError { description }) => {
            assert_eq!(description, "missing authorization");
        },
        _ => panic!("expected the transport to reject the call"),
    }
}

#[test]
fn blocking_execution_matches_the_plain_one() {
    let client = FixedClient {
        base_url: String::from("http://api.example.com"),
        body: b"{\"count\":3}".to_vec(),
    };
    let got = EmptyEp.exec_block(&client).unwrap();
    assert_eq!(got, Some(json("{\"count\":3}")));
    let raw = EmptyEp.exec_raw_block(&client).unwrap();
    assert_eq!(raw, b"{\"count\":3}".to_vec());
}

#[test]
fn exec_with_malformed_base_fails_before_transport() {
    let client = FixedClient { base_url: String::from("nonsense"), body: b"{}".to_vec() };
    match Endpoint::exec(&EmptyEp, &client) {
        Err(ClientError::UrlParseError { url }) => assert_eq!(url, "nonsense"),
        _ => panic!("expected a URL parse error"),
    }
}

struct BrokenEp;

impl serde::Serialize for BrokenEp {
    fn serialize<S: serde::Serializer>(&self, _s: S) -> Result<S::Ok, S::Error> {
        Err(serde::ser::Error::custom("refuses to serialize"))
    }
}

impl Endpoint for BrokenEp {
    type Output = serde_json::Value;

    fn path(&self) -> String {
        String::from("broken")
    }

    fn method(&self) -> RequestMethod {
        RequestMethod::GET
    }

    fn query(&self) -> Vec<(String, QueryValue)> {
        Vec::new()
    }

    fn data(&self) -> Option<Vec<u8>> {
        None
    }

    const REQUEST_BODY_TYPE: RequestType = RequestType::JSON;

    const RESPONSE_BODY_TYPE: ResponseType = ResponseType::JSON;
}

struct RejectingMiddle;

impl MiddleWare for RejectingMiddle {
    fn request<E>(&self, _endpoint: &E, _req: &mut Request) -> Result<(), ClientError> {
        Err(ClientError::MiddleWareError { description: String::from("rejected") })
    }

    fn response<E>(&self, _endpoint: &E, _resp: &mut Response) -> Result<(), ClientError> {
        Ok(())
    }
}

#[test]
fn failing_serialization_gives_data_parse_error() {
    match build("http://api.example.com", &BrokenEp) {
        Err(ClientError::DataParseError { .. }) => (),
        _ => panic!("expected a data parse error"),
    }
}

#[test]
fn rejecting_middleware_aborts_the_call_verbatim() {
    let client = FixedClient {
        base_url: String::from("http://api.example.com"),
        body: b"{\"count\":3}".to_vec(),
    };
    match EmptyEp.exec_mut(&client, &RejectingMiddle) {
        Err(ClientError::MiddleWareError { description }) => assert_eq!(description, "rejected"),
        _ => panic!("expected the middleware's own error"),
    }
}

#[test]
fn remaining_exec_variants_compose_the_same_way() {
    let client = FixedClient {
        base_url: String::from("http://api.example.com"),
        body: b"{\"data\":{\"count\":3}}".to_vec(),
    };
    let wrapped: Option<Env> = EmptyEp.exec_wrap_mut(&client, &AuthMiddle).unwrap();
    assert_eq!(wrapped.unwrap().data, json("{\"count\":3}"));
    let raw = EmptyEp.exec_raw_mut(&client, &AuthMiddle).unwrap();
    assert_eq!(raw, b"{\"data\":{\"count\":3}}".to_vec());
    let typed = EmptyEp.exec_mut_block(&client, &AuthMiddle).unwrap();
    assert_eq!(typed, Some(json("{\"data\":{\"count\":3}}")));
    let wrapped_block: Option<Env> = EmptyEp.exec_wrap_mut_block(&client, &AuthMiddle).unwrap();
    assert_eq!(wrapped_block.unwrap().data, json("{\"count\":3}"));
    let raw_block = EmptyEp.exec_raw_mut_block(&client, &AuthMiddle).unwrap();
    assert_eq!(raw_block, b"{\"data\":{\"count\":3}}".to_vec());
    let wrapped_plain: Option<Env> = EmptyEp.exec_wrap_block(&client).unwrap();
    assert_eq!(wrapped_plain.unwrap().data, json("{\"count\":3}"));
}
