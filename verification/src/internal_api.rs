//! The request engine: authorization decoration, one trusted transport call,
//! response classification, and decoding of page envelopes.
//!
//! Every page fetch — the initial one and every follow-up inside a page
//! sequence — passes through [`API::get`], so authorization and error
//! handling are uniform across the whole pagination lifetime.

use vstd::prelude::*;
use vstd::string::StringExecFns;

use crate::api::API;
use crate::error::Error;
use crate::json::{decode_values, decode_values_of, json_field, json_of, parse_json, FromJson, Json};

verus! {

/// The credential strategy a client holds: a bearer token, or a username and
/// password pair. A client without one sends anonymous requests.
#[derive(Debug)]
pub enum AuthType {
    Bearer { token: String },
    Basic { username: String, password: String },
}

/// The authorization decoration decided for one outgoing request.
#[derive(Debug, PartialEq)]
pub enum RequestAuth {
    /// no decoration at all
    Anonymous,
    /// a ready `Authorization` header value
    AuthorizationHeader(String),
    /// username and password, encoded by the transport as HTTP basic auth
    BasicCredentials { username: String, password: String },
}

/// A [`RequestAuth`], seen through deep views.
pub enum RequestAuthModel {
    Anonymous,
    AuthorizationHeader(Seq<char>),
    BasicCredentials(Seq<char>, Seq<char>),
}

impl DeepView for RequestAuth {
    type V = RequestAuthModel;

    open spec fn deep_view(&self) -> RequestAuthModel {
        match self {
            RequestAuth::Anonymous => RequestAuthModel::Anonymous,
            RequestAuth::AuthorizationHeader(v) => RequestAuthModel::AuthorizationHeader(v@),
            RequestAuth::BasicCredentials { username, password } =>
                RequestAuthModel::BasicCredentials(username@, password@),
        }
    }
}

/// The decoration a credential decides: nothing, the full `Authorization`
/// header value for a bearer token, or the pair the transport encodes as
/// HTTP basic auth. A function of the credential alone — neither the URL
/// nor how many pages were already fetched enter into it.
pub open spec fn decoration_of(auth: Option<AuthType>) -> RequestAuthModel {
    match auth {
        None => RequestAuthModel::Anonymous,
        Some(AuthType::Bearer { token }) => RequestAuthModel::AuthorizationHeader(
            "Bearer "@ + token@,
        ),
        Some(AuthType::Basic { username, password }) => RequestAuthModel::BasicCredentials(
            username@,
            password@,
        ),
    }
}

/// The HTTP methods the client issues.
#[derive(Debug, Clone, Copy, PartialEq, Eq, Structural)]
pub enum Method {
    Get,
    Post,
}

impl API {
    /// Decide the authorization decoration for one request. The decision is a
    /// function of the client's credential alone, so every request a client
    /// issues — the initial fetch and every follow-up page — carries the
    /// same decoration.
    pub fn request_auth(&self) -> (r: RequestAuth)
        ensures
            r.deep_view() == decoration_of(self.auth_type),
    {
        match &self.auth_type {
            None => RequestAuth::Anonymous,
            Some(AuthType::Bearer { token }) => RequestAuth::AuthorizationHeader(
                String::from_str("Bearer ").concat(token.as_str()),
            ),
            Some(AuthType::Basic { username, password }) => RequestAuth::BasicCredentials {
                username: username.clone(),
                password: password.clone(),
            },
        }
    }
}

#[verifier::external_type_specification]
#[verifier::external_body]
pub struct ExReqwestBlockingClient(reqwest::blocking::Client);

/// Whether the URL parser accepts `s`: a function of the characters alone.
pub uninterp spec fn parses_as_url(s: Seq<char>) -> bool;

/// Relies on `reqwest::Url::parse`: whether `s` is a well-formed absolute
/// URL. The answer depends on the characters of `s` alone.
#[verifier::external_body]
pub fn url_parses(s: &str) -> (r: bool)
    ensures
        r == parses_as_url(s@),
{
    reqwest::Url::parse(s).is_ok()
}

/// Relies on `reqwest::blocking::ClientBuilder::build`: reuses the client's
/// connection pool when one is held, and makes a fresh client otherwise. A
/// client that cannot be set up (TLS backend or resolver initialization)
/// comes back as the builder's own account of it, not a panic.
#[verifier::external_body]
fn obtain_client(held: &Option<reqwest::blocking::Client>) -> Result<
    reqwest::blocking::Client,
    String,
> {
    match held {
        Some(c) => Ok(c.clone()),
        None => reqwest::blocking::Client::builder().build().map_err(|e| e.to_string()),
    }
}

#[verifier::external_type_specification]
#[verifier::external_body]
pub struct ExReqwestBlockingRequestBuilder(reqwest::blocking::RequestBuilder);

/// Relies on `reqwest::blocking::Client::request`: starts building one
/// request for the given method and URL.
#[verifier::external_body]
fn prepare_request(
    client: &reqwest::blocking::Client,
    method: &Method,
    url: &str,
) -> reqwest::blocking::RequestBuilder {
    let m = match method {
        Method::Get => reqwest::Method::GET,
        Method::Post => reqwest::Method::POST,
    };
    client.request(m, url)
}

/// Relies on `reqwest::blocking::RequestBuilder`: attaches the decided
/// authorization — the ready `Authorization` header value as that header,
/// or the username and password as HTTP basic auth — and nothing for an
/// anonymous request.
#[verifier::external_body]
fn apply_auth(
    rb: reqwest::blocking::RequestBuilder,
    auth: &RequestAuth,
) -> reqwest::blocking::RequestBuilder {
    match auth {
        RequestAuth::Anonymous => rb,
        RequestAuth::AuthorizationHeader(v) => rb.header(reqwest::header::AUTHORIZATION, v.as_str()),
        RequestAuth::BasicCredentials { username, password } => rb.basic_auth(username, Some(password)),
    }
}

/// Relies on `reqwest::blocking::RequestBuilder`: attaches the encoded JSON
/// body, when there is one, together with its content type.
#[verifier::external_body]
fn apply_body(
    rb: reqwest::blocking::RequestBuilder,
    body: &Option<String>,
) -> reqwest::blocking::RequestBuilder {
    match body {
        Some(b) => rb.body(b.clone()).header(reqwest::header::CONTENT_TYPE, "application/json"),
        None => rb,
    }
}

/// Relies on `reqwest::blocking::RequestBuilder::send`: performs the one
/// blocking request and reads the response's status and full body text. A
/// non-success status is a normal result; only connection, name-resolution
/// and body-read failures come back as an error, rendered as the
/// transport's own account of it. No retries.
#[verifier::external_body]
fn dispatch(rb: reqwest::blocking::RequestBuilder) -> Result<(u16, String), String> {
    match rb.send() {
        Ok(resp) => {
            let status = resp.status().as_u16();
            resp.text().map(|t| (status, t)).map_err(|e| e.to_string())
        },
        Err(e) => Err(e.to_string()),
    }
}

/// A status in the range the server uses for success.
pub open spec fn is_success_status(status: u16) -> bool {
    200 <= status < 300
}

/// The message a non-success response carries: the string under
/// `error.message` in the body, when the body parses and has one; the fixed
/// sentinel otherwise. A malformed error body degrades to the sentinel, it
/// never produces a second-order failure.
pub open spec fn error_message_of(body: Seq<char>) -> Seq<char> {
    match json_of(body) {
        Some(j) => match json_field(j, "error"@) {
            Some(e) => match json_field(e, "message"@) {
                Some(Json::Str(m)) => m@,
                _ => "unspecified error"@,
            },
            None => "unspecified error"@,
        },
        None => "unspecified error"@,
    }
}

/// Pull the server-supplied message out of a non-success body, degrading to
/// the fixed sentinel when the body is not the expected error envelope.
pub fn extract_error_message(body: &str) -> (r: String)
    ensures
        r@ == error_message_of(body@),
{
    match parse_json(body) {
        Ok(j) => match j.get("error") {
            Some(e) => match e.get("message") {
                Some(m) => match m.as_str() {
                    Some(s) => s.clone(),
                    None => String::from_str("unspecified error"),
                },
                None => String::from_str("unspecified error"),
            },
            None => String::from_str("unspecified error"),
        },
        Err(_) => String::from_str("unspecified error"),
    }
}

/// What the classifier decides about one raw response.
#[derive(Debug, PartialEq)]
pub enum Outcome {
    /// success: the body, handed on for decoding
    Success(String),
    /// a protocol-level error: the status and the best-effort message
    ProtocolError(u16, String),
}

/// Classify one raw response: success passes the body through untouched; a
/// non-success status becomes a protocol error carrying the status and the
/// best-effort server message.
pub fn classify(status_code: u16, body: String) -> (r: Outcome)
    ensures
        is_success_status(status_code) ==> r == Outcome::Success(body),
        !is_success_status(status_code) ==> (r matches Outcome::ProtocolError(s, m) && s
            == status_code && m@ == error_message_of(body@)),
{
    if 200 <= status_code && status_code < 300 {
        Outcome::Success(body)
    } else {
        let message = extract_error_message(body.as_str());
        Outcome::ProtocolError(status_code, message)
    }
}

/// One fetched page: an ordered batch of items, the cursor to the next page
/// when there is one, and informational size metadata.
#[derive(Debug)]
pub struct Page<T> {
    /// page size the server applied
    pub pagelen: u8,
    /// total number of items in the whole collection, when reported
    pub size: Option<u16>,
    /// index of this page
    pub page: u8,
    /// absolute URL of the next page, when more pages exist
    pub next: Option<String>,
    /// absolute URL of the previous page, when one exists
    pub previous: Option<String>,
    /// the items of this page, in server order
    pub values: Vec<T>,
}

/// A page, seen through deep views: strings as their characters, items as
/// their own deep views.
#[verifier::ext_equal]
pub struct PageModel<V> {
    pub pagelen: u8,
    pub size: Option<u16>,
    pub page: u8,
    pub next: Option<Seq<char>>,
    pub previous: Option<Seq<char>>,
    pub values: Seq<V>,
}

impl<T: DeepView> DeepView for Page<T> {
    type V = PageModel<T::V>;

    open spec fn deep_view(&self) -> PageModel<T::V> {
        PageModel {
            pagelen: self.pagelen,
            size: self.size,
            page: self.page,
            next: self.next.deep_view(),
            previous: self.previous.deep_view(),
            values: self.values.deep_view(),
        }
    }
}

/// A required integer field that must fit a `u8`.
pub open spec fn u8_field_of(j: Json, key: Seq<char>) -> Option<u8> {
    match json_field(j, key) {
        Some(Json::Int(n)) => if 0 <= n <= u8::MAX {
            Some(n as u8)
        } else {
            None
        },
        _ => None,
    }
}

/// An optional integer field that must fit a `u16` when present; absent and
/// `null` both read as nothing.
pub open spec fn opt_u16_field_of(j: Json, key: Seq<char>) -> Option<Option<u16>> {
    match json_field(j, key) {
        None => Some(None),
        Some(Json::Null) => Some(None),
        Some(Json::Int(n)) => if 0 <= n <= u16::MAX {
            Some(Some(n as u16))
        } else {
            None
        },
        Some(_) => None,
    }
}

/// An optional string field; absent and `null` both read as nothing.
pub open spec fn opt_string_field_of(j: Json, key: Seq<char>) -> Option<Option<Seq<char>>> {
    match json_field(j, key) {
        None => Some(None),
        Some(Json::Null) => Some(None),
        Some(Json::Str(s)) => Some(Some(s@)),
        Some(_) => None,
    }
}

/// Read a required `u8` field off `j`.
pub fn read_u8_field(j: &Json, key: &str) -> (r: Option<u8>)
    ensures
        r == u8_field_of(*j, key@),
{
    match j.get(key) {
        Some(v) => match v.as_int() {
            Some(n) => if 0 <= n && n <= 255 {
                Some(n as u8)
            } else {
                None
            },
            None => None,
        },
        None => None,
    }
}

/// Read an optional `u16` field off `j`.
pub fn read_opt_u16_field(j: &Json, key: &str) -> (r: Option<Option<u16>>)
    ensures
        r == opt_u16_field_of(*j, key@),
{
    match j.get(key) {
        Some(v) => match v {
            Json::Null => Some(None),
            Json::Int(n) => if 0 <= *n && *n <= 65535 {
                Some(Some(*n as u16))
            } else {
                None
            },
            _ => None,
        },
        None => Some(None),
    }
}

/// Read an optional string field off `j`.
pub fn read_opt_string_field(j: &Json, key: &str) -> (r: Option<Option<String>>)
    ensures
        r.deep_view() == opt_string_field_of(*j, key@),
{
    match j.get(key) {
        Some(v) => match v {
            Json::Null => Some(None),
            Json::Str(s) => Some(Some(s.clone())),
            _ => None,
        },
        None => Some(None),
    }
}

/// The page described by the JSON document `j`, when `j` is a well-formed
/// page envelope for items of type `T`.
pub open spec fn page_decodes<T: FromJson>(j: Json) -> Option<PageModel<T::V>> {
    match (
        u8_field_of(j, "pagelen"@),
        opt_u16_field_of(j, "size"@),
        u8_field_of(j, "page"@),
        opt_string_field_of(j, "next"@),
        opt_string_field_of(j, "previous"@),
    ) {
        (Some(pagelen), Some(size), Some(page), Some(next), Some(previous)) => match json_field(
            j,
            "values"@,
        ) {
            Some(Json::Arr(elems)) => match decode_values_of::<T>(elems@) {
                Some(values) => Some(
                    PageModel { pagelen, size, page, next, previous, values },
                ),
                None => None,
            },
            _ => None,
        },
        _ => None,
    }
}

impl<T: FromJson> FromJson for Page<T> {
    open spec fn json_decodes(j: Json) -> Option<PageModel<T::V>> {
        page_decodes::<T>(j)
    }

    fn from_json(j: &Json) -> (r: Option<Self>)
        ensures
            r.deep_view() == page_decodes::<T>(*j),
    {
        let pagelen = match read_u8_field(j, "pagelen") {
            Some(v) => v,
            None => return None,
        };
        let size = match read_opt_u16_field(j, "size") {
            Some(v) => v,
            None => return None,
        };
        let page = match read_u8_field(j, "page") {
            Some(v) => v,
            None => return None,
        };
        let next = match read_opt_string_field(j, "next") {
            Some(v) => v,
            None => return None,
        };
        let previous = match read_opt_string_field(j, "previous") {
            Some(v) => v,
            None => return None,
        };
        let elems = match j.get("values") {
            Some(v) => v,
            None => return None,
        };
        let arr = match elems.as_arr() {
            Some(a) => a,
            None => return None,
        };
        let values = match decode_values::<T>(arr) {
            Some(v) => v,
            None => return None,
        };
        let result = Page { pagelen, size, page, next, previous, values };
        proof {
            assert(Some(result).deep_view() =~= page_decodes::<T>(*j));
        }
        Some(result)
    }
}

/// Interpret one raw response, exactly as the classifier and the decoder
/// say: a success body must parse and decode; a non-success status becomes
/// an error response carrying the status and the best-effort message.
pub fn parse_response<T: FromJson>(url: &str, status_code: u16, body: String) -> (r: Result<
    T,
    Error,
>)
    ensures
        !is_success_status(status_code) ==> (r matches Err(Error::ErrorResponse {
            url: u,
            status_code: s,
            message: m,
        }) && u@ == url@ && s == status_code && m@ == error_message_of(body@)),
        is_success_status(status_code) ==> match json_of(body@) {
            Some(j) => match T::json_decodes(j) {
                Some(model) => r matches Ok(t) && t.deep_view() == model,
                None => r matches Err(Error::Deserialization { .. }),
            },
            None => r matches Err(Error::Deserialization { .. }),
        },
        r matches Ok(t) ==> ({
            &&& is_success_status(status_code)
            &&& json_of(body@) matches Some(j)
            &&& T::json_decodes(j) matches Some(model)
            &&& t.deep_view() == model
        }),
{
    match classify(status_code, body) {
        Outcome::Success(text) => match parse_json(text.as_str()) {
            Ok(j) => match T::from_json(&j) {
                Some(t) => Ok(t),
                None => Err(
                    Error::Deserialization {
                        detail: String::from_str("response body does not have the expected shape"),
                    },
                ),
            },
            Err(detail) => Err(Error::Deserialization { detail }),
        },
        Outcome::ProtocolError(status, message) => Err(
            Error::ErrorResponse { url: String::from_str(url), status_code: status, message },
        ),
    }
}

impl API {
    /// Send one request and interpret the raw response. What came back over
    /// the network is not pinned down by anything, so the contract states
    /// what holds of every outcome: a returned value was decoded from some
    /// body the parser accepted, and every error names the requested URL.
    pub(crate) fn send_request_and_parse_response<T: FromJson>(
        &self,
        method: Method,
        url: &String,
        body: &Option<String>,
    ) -> (r: Result<T, Error>)
        ensures
            r matches Ok(t) ==> exists|b: Seq<char>|
                {
                    &&& #[trigger] json_of(b) matches Some(j)
                    &&& T::json_decodes(j) matches Some(model)
                    &&& t.deep_view() == model
                },
            r matches Err(e) ==> !(e matches Error::InvalidUrl { .. }),
            r matches Err(Error::Http { url: u, .. }) ==> u@ == url@,
            r matches Err(Error::ErrorResponse { url: u, status_code: s, message: m }) ==> u@
                == url@ && !is_success_status(s) && exists|b: Seq<char>| m@
                == #[trigger] error_message_of(b),
    {
        let client = match obtain_client(&self.client) {
            Ok(c) => c,
            Err(detail) => {
                return Err(Error::Http { url: url.clone(), detail });
            },
        };
        let auth = self.request_auth();
        let request = apply_body(apply_auth(prepare_request(&client, &method, url.as_str()), &auth), body);
        match dispatch(request) {
            Ok((status_code, text)) => {
                parse_response::<T>(url.as_str(), status_code, text)
            },
            Err(detail) => Err(Error::Http { url: url.clone(), detail }),
        }
    }

    /// Fetch one resource with `GET` and decode the response body.
    pub(crate) fn get<T: FromJson>(&self, url: &String) -> (r: Result<T, Error>)
        ensures
            r matches Ok(t) ==> parses_as_url(url@) && exists|b: Seq<char>|
                {
                    &&& #[trigger] json_of(b) matches Some(j)
                    &&& T::json_decodes(j) matches Some(model)
                    &&& t.deep_view() == model
                },
            r matches Err(Error::InvalidUrl { url: u }) ==> u@ == url@ && !parses_as_url(url@),
            r matches Err(Error::Http { url: u, .. }) ==> u@ == url@,
            r matches Err(Error::ErrorResponse { url: u, status_code: s, .. }) ==> u@ == url@
                && !is_success_status(s),
            r matches Err(Error::ErrorResponse { message: m, .. }) ==> exists|b: Seq<char>| m@
                == #[trigger] error_message_of(b),
            !parses_as_url(url@) ==> r matches Err(Error::InvalidUrl { .. }),
    {
        if !url_parses(url.as_str()) {
            return Err(Error::InvalidUrl { url: url.clone() });
        }
        self.send_request_and_parse_response::<T>(Method::Get, url, &None)
    }

    /// Send `body` with `POST` and decode the response body.
    pub(crate) fn post<T: FromJson>(&self, url: &String, body: String) -> (r: Result<T, Error>)
        ensures
            r matches Ok(t) ==> parses_as_url(url@) && exists|b: Seq<char>|
                {
                    &&& #[trigger] json_of(b) matches Some(j)
                    &&& T::json_decodes(j) matches Some(model)
                    &&& t.deep_view() == model
                },
            r matches Err(Error::InvalidUrl { url: u }) ==> u@ == url@ && !parses_as_url(url@),
            r matches Err(Error::Http { url: u, .. }) ==> u@ == url@,
            r matches Err(Error::ErrorResponse { url: u, status_code: s, .. }) ==> u@ == url@
                && !is_success_status(s),
            r matches Err(Error::ErrorResponse { message: m, .. }) ==> exists|b: Seq<char>| m@
                == #[trigger] error_message_of(b),
            !parses_as_url(url@) ==> r matches Err(Error::InvalidUrl { .. }),
    {
        if !url_parses(url.as_str()) {
            return Err(Error::InvalidUrl { url: url.clone() });
        }
        self.send_request_and_parse_response::<T>(Method::Post, url, &Some(body))
    }

    /// Fetch the first page of a collection and wrap it with the derived
    /// "more pages exist" flag.
    pub(crate) fn get_paginated<'a, T: FromJson>(&'a self, url: String) -> (r: Result<
        crate::pagination::Paginated<'a, T>,
        Error,
    >)
        ensures
            r matches Ok(p) ==> ({
                &&& p.client == self
                &&& p.has_more == (p.current_page.next is Some)
                &&& exists|b: Seq<char>|
                    {
                        &&& #[trigger] json_of(b) matches Some(j)
                        &&& page_decodes::<T>(j) matches Some(model)
                        &&& p.current_page.deep_view() == model
                    }
            }),
            r matches Err(Error::InvalidUrl { url: u }) ==> u@ == url@ && !parses_as_url(url@),
            r matches Err(Error::Http { url: u, .. }) ==> u@ == url@,
            r matches Err(Error::ErrorResponse { url: u, status_code: s, .. }) ==> u@ == url@
                && !is_success_status(s),
            r matches Err(Error::ErrorResponse { message: m, .. }) ==> exists|b: Seq<char>| m@
                == #[trigger] error_message_of(b),
            !parses_as_url(url@) ==> r matches Err(Error::InvalidUrl { .. }),
    {
        match self.get::<Page<T>>(&url) {
            Ok(page) => {
                let has_more = page.next.is_some();
                Ok(crate::pagination::Paginated { has_more, current_page: page, client: self })
            },
            Err(e) => Err(e),
        }
    }
}

} // verus!
