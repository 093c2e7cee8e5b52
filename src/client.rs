//! The client facades: base URL handling, request preparation and response
//! decoding. Sending a prepared request is left to the caller's transport loop.
use vstd::prelude::*;

use crate::catalog::{
    default_server_url, openapi_default_server_url, openapi_operations, OperationDefinition,
};
use crate::error::{is_http_status, is_invalid_base_url, is_invalid_path, ClientError};
use crate::resolve::{resolve, resolve_error, resolve_succeeds, resolved_method, resolved_path};
use crate::text::{
    ends_with_slash, is_blank, is_blank_exec, trim_leading, trim_leading_slashes,
};

verus! {

/// A pooled asynchronous HTTP transport.
#[verifier::external_type_specification]
#[verifier::external_body]
pub struct ExAsyncTransport(reqwest::Client);

/// A pooled blocking HTTP transport.
#[verifier::external_type_specification]
#[verifier::external_body]
pub struct ExBlockingTransport(reqwest::blocking::Client);

/// Shares the connection pool of an asynchronous transport.
pub assume_specification[ <reqwest::Client as Clone>::clone ](c: &reqwest::Client) -> reqwest::Client;

/// A parsed JSON document.
#[verifier::external_type_specification]
#[verifier::external_body]
pub struct ExJsonValue(serde_json::Value);

/// Whether the JSON parser accepts `text` as one JSON document.
pub uninterp spec fn json_accepts(text: Seq<char>) -> bool;

/// The serialization of the URL that parsing `text` gives, if it parses.
pub uninterp spec fn parsed_url(text: Seq<char>) -> Option<Seq<char>>;

/// The path of the URL serialized as `url`, if `url` parses.
pub uninterp spec fn url_path_of(url: Seq<char>) -> Option<Seq<char>>;

/// The serialization of the URL serialized as `url` after its path is set to
/// `path`, if `url` parses.
pub uninterp spec fn url_with_path(url: Seq<char>, path: Seq<char>) -> Option<Seq<char>>;

/// The serialization of `relative` resolved against the URL serialized as
/// `url`, if both steps succeed.
pub uninterp spec fn url_joined(url: Seq<char>, relative: Seq<char>) -> Option<Seq<char>>;

/// Relies on `url::Url::parse`: the serialization of the parsed URL, or
/// `None` when `text` is not an absolute URL.
#[verifier::external_body]
fn parse_url(text: &str) -> (r: Option<String>)
    ensures
        match r {
            Some(u) => parsed_url(text@) == Some(u@),
            None => parsed_url(text@) is None,
        },
{
    url::Url::parse(text).ok().map(String::from)
}

/// Relies on `url::Url::path`: the percent-encoded path of the URL
/// serialized as `url`.
#[verifier::external_body]
fn url_path(url: &str) -> (r: Option<String>)
    ensures
        match r {
            Some(p) => url_path_of(url@) == Some(p@),
            None => url_path_of(url@) is None,
        },
{
    url::Url::parse(url).ok().map(|u| u.path().to_owned())
}

/// Relies on `url::Url::set_path`: the URL serialized as `url`, with its path
/// replaced by `path`.
#[verifier::external_body]
fn set_url_path(url: &str, path: &str) -> (r: Option<String>)
    ensures
        match r {
            Some(u) => url_with_path(url@, path@) == Some(u@),
            None => url_with_path(url@, path@) is None,
        },
{
    match url::Url::parse(url) {
        Ok(mut u) => {
            u.set_path(path);
            Some(String::from(u))
        },
        Err(_) => None,
    }
}

/// Relies on `url::Url::join`: `relative` resolved against the URL
/// serialized as `url`.
#[verifier::external_body]
fn join_url(url: &str, relative: &str) -> (r: Option<String>)
    ensures
        match r {
            Some(u) => url_joined(url@, relative@) == Some(u@),
            None => url_joined(url@, relative@) is None,
        },
{
    url::Url::parse(url).and_then(|u| u.join(relative)).ok().map(String::from)
}

/// Relies on `reqwest::ClientBuilder::build`: a new connection-pooling
/// asynchronous transport, or the error that kept it from starting.
#[verifier::external_body]
fn new_async_transport() -> (r: Result<reqwest::Client, reqwest::Error>) {
    reqwest::Client::builder().build()
}

/// Relies on `serde_json::from_str`: parses `text` as one JSON document; it
/// succeeds exactly on the texts the parser accepts.
#[verifier::external_body]
fn parse_json(text: &str) -> (r: Result<serde_json::Value, serde_json::Error>)
    ensures
        r is Ok <==> json_accepts(text@),
{
    serde_json::from_str(text)
}

/// `path` with a `/` appended unless it already ends with one.
pub open spec fn with_trailing_slash(path: Seq<char>) -> Seq<char> {
    if path.len() > 0 && path.last() == '/' {
        path
    } else {
        path.push('/')
    }
}

/// Normalizes a URL path so that relative joins keep its last segment.
pub fn normalized_path(path: &str) -> (r: String)
    ensures
        r@ == with_trailing_slash(path@),
{
    let mut out = path.to_owned();
    if !ends_with_slash(path) {
        out.append("/");
        proof {
            reveal_strlit("/");
            assert(out@ =~= path@.push('/'));
        }
    }
    out
}

/// The URL serialized as `url` with its path ending in `/`: unchanged when
/// the path already ends with one, else with one `/` appended to the path.
pub open spec fn normalized_base(url: Seq<char>) -> Seq<char> {
    match url_path_of(url) {
        Some(p) => if p.len() > 0 && p.last() == '/' {
            url
        } else {
            match url_with_path(url, with_trailing_slash(p)) {
                Some(u) => u,
                None => url,
            }
        },
        None => url,
    }
}

/// Gives the URL serialized as `url` a path that ends with `/`, leaving it
/// alone when it has one.
fn ensure_trailing_slash(url: String) -> (r: String)
    ensures
        r@ == normalized_base(url@),
{
    match url_path(url.as_str()) {
        Some(path) => {
            if ends_with_slash(path.as_str()) {
                url
            } else {
                let normalized = normalized_path(path.as_str());
                match set_url_path(url.as_str(), normalized.as_str()) {
                    Some(u) => u,
                    None => url,
                }
            }
        },
        None => url,
    }
}

/// The URL that an endpoint path names under `base`: the path, without its
/// leading `/` characters, resolved against the base URL.
pub open spec fn endpoint_url(base: Seq<char>, path: Seq<char>) -> Option<Seq<char>> {
    url_joined(base, trim_leading(path, '/'))
}

/// The status is in the success class `2xx`.
pub open spec fn is_success(status: u16) -> bool {
    200 <= status && status < 300
}

/// The body of a successful response.
#[derive(Debug)]
pub enum JsonBody {
    /// The response text was empty or white space only: JSON `null`.
    Null,
    /// The parsed JSON document.
    Value(serde_json::Value),
}

/// Decodes a received response from its status code and raw text.
///
/// A non-`2xx` status fails with `HttpStatus`, keeping the text verbatim; a
/// blank text is JSON `null`; any other text is parsed as JSON.
pub fn decode_response(status: u16, payload: String) -> (r: Result<JsonBody, ClientError>)
    ensures
        !is_success(status) ==> (r matches Err(e) && is_http_status(e, status, payload@)),
        is_success(status) && is_blank(payload@) ==> r matches Ok(JsonBody::Null),
        is_success(status) && !is_blank(payload@) ==> {
            &&& r is Ok <==> json_accepts(payload@)
            &&& r matches Ok(b) ==> b is Value
            &&& r matches Err(e) ==> e is Json
        },
{
    if !(200 <= status && status < 300) {
        return Err(ClientError::HttpStatus { status, body: payload });
    }
    if is_blank_exec(payload.as_str()) {
        return Ok(JsonBody::Null);
    }
    match parse_json(payload.as_str()) {
        Ok(v) => Ok(JsonBody::Value(v)),
        Err(e) => Err(ClientError::Json(e)),
    }
}

/// Key/value pairs as pairs of character sequences.
pub open spec fn pairs_view(p: Seq<(String, String)>) -> Seq<(Seq<char>, Seq<char>)> {
    p.map_values(|x: (String, String)| (x.0@, x.1@))
}

/// Borrowed key/value pairs as pairs of character sequences.
pub open spec fn str_pairs_view(p: Seq<(&str, &str)>) -> Seq<(Seq<char>, Seq<char>)> {
    p.map_values(|x: (&str, &str)| (x.0@, x.1@))
}

/// The headers sent with every request: `Accept: application/json`.
pub open spec fn request_headers() -> Seq<(Seq<char>, Seq<char>)> {
    seq![("Accept"@, "application/json"@)]
}

/// A request ready to be sent by a transport.
#[derive(Debug)]
pub struct PreparedRequest {
    /// The HTTP method, as its token text (for example `GET`).
    pub method: String,
    /// The absolute URL, the endpoint path joined onto the base URL.
    pub url: String,
    /// Header names and values, in the order in which they are set.
    pub headers: Vec<(String, String)>,
    /// The token to send as `Authorization: Bearer <token>`, if any.
    pub bearer_token: Option<String>,
    /// Query pairs to append; `None` when the caller gave none.
    pub query: Option<Vec<(String, String)>>,
    /// A JSON body, sent with `Content-Type: application/json`.
    pub body: Option<serde_json::Value>,
}

/// `req` carries the method text `method` and what `prepared_with` lists.
pub open spec fn prepared_as(
    req: PreparedRequest,
    method: Seq<char>,
    url: Seq<char>,
    token: Option<Seq<char>>,
    query: Seq<(&str, &str)>,
    body: Option<serde_json::Value>,
) -> bool {
    &&& req.method@ == method
    &&& prepared_with(req, url, token, query, body)
}

/// `req` carries the URL `url`, the `Accept` header, the bearer `token`, the
/// query pairs `query` (none when empty) and `body`.
pub open spec fn prepared_with(
    req: PreparedRequest,
    url: Seq<char>,
    token: Option<Seq<char>>,
    query: Seq<(&str, &str)>,
    body: Option<serde_json::Value>,
) -> bool {
    &&& req.url@ == url
    &&& pairs_view(req.headers@) == request_headers()
    &&& match req.bearer_token {
        Some(t) => token == Some(t@),
        None => token is None,
    }
    &&& if query.len() == 0 {
        req.query is None
    } else {
        req.query matches Some(q) && pairs_view(q@) == str_pairs_view(query)
    }
    &&& req.body == body
}

/// Copies borrowed key/value pairs into owned strings.
pub fn owned_pairs(pairs: &[(&str, &str)]) -> (r: Vec<(String, String)>)
    ensures
        pairs_view(r@) == str_pairs_view(pairs@),
{
    let mut out: Vec<(String, String)> = Vec::new();
    let mut i: usize = 0;
    while i < pairs.len()
        invariant
            i <= pairs@.len(),
            pairs_view(out@) == str_pairs_view(pairs@.subrange(0, i as int)),
        decreases pairs.len() - i,
    {
        let (key, value) = pairs[i];
        let k = key.to_owned();
        let v = value.to_owned();
        let ghost prev = out@;
        out.push((k, v));
        proof {
            assert(pairs_view(out@) =~= pairs_view(prev).push((key@, value@)));
            assert(str_pairs_view(pairs@.subrange(0, i + 1)) =~= str_pairs_view(
                pairs@.subrange(0, i as int),
            ).push((key@, value@)));
        }
        i = i + 1;
    }
    assert(pairs@.subrange(0, i as int) =~= pairs@);
    out
}

/// The headers sent with every request.
fn header_list() -> (r: Vec<(String, String)>)
    ensures
        pairs_view(r@) == request_headers(),
{
    let mut headers: Vec<(String, String)> = Vec::new();
    headers.push(("Accept".to_owned(), "application/json".to_owned()));
    assert(pairs_view(headers@) =~= request_headers());
    headers
}

/// The settings shared by both client variants: the serialized base URL and
/// the token.
#[derive(Clone, Debug)]
struct Endpoint {
    base_url: String,
    authorization_token: Option<String>,
}

impl Endpoint {
    spec fn token_view(&self) -> Option<Seq<char>> {
        match self.authorization_token {
            Some(t) => Some(t@),
            None => None,
        }
    }

    fn parse(base_url: &str) -> (r: Result<Endpoint, ClientError>)
        ensures
            r is Ok <==> parsed_url(base_url@) is Some,
            r matches Ok(e) ==> e.token_view() is None && e.base_url@ == normalized_base(
                parsed_url(base_url@).unwrap(),
            ),
            r matches Err(e) ==> is_invalid_base_url(e, base_url@),
    {
        match parse_url(base_url) {
            Some(parsed) => Ok(
                Endpoint { base_url: ensure_trailing_slash(parsed), authorization_token: None },
            ),
            None => Err(ClientError::InvalidBaseUrl(base_url.to_owned())),
        }
    }

    fn build_url(&self, path: &str) -> (r: Result<String, ClientError>)
        ensures
            r is Ok <==> endpoint_url(self.base_url@, path@) is Some,
            r matches Ok(u) ==> u@ == endpoint_url(self.base_url@, path@).unwrap(),
            r matches Err(e) ==> is_invalid_path(e, path@),
    {
        let relative = trim_leading_slashes(path);
        match join_url(self.base_url.as_str(), relative) {
            Some(u) => Ok(u),
            None => Err(ClientError::InvalidPath(path.to_owned())),
        }
    }

    fn prepare(
        &self,
        method: &str,
        path: &str,
        query: &[(&str, &str)],
        body: Option<serde_json::Value>,
    ) -> (r: Result<PreparedRequest, ClientError>)
        ensures
            r is Ok <==> endpoint_url(self.base_url@, path@) is Some,
            r matches Ok(req) ==> prepared_as(
                req,
                method@,
                endpoint_url(self.base_url@, path@).unwrap(),
                self.token_view(),
                query@,
                body,
            ),
            r matches Err(e) ==> is_invalid_path(e, path@),
    {
        let url = self.build_url(path)?;
        let headers = header_list();
        let bearer_token = match &self.authorization_token {
            Some(t) => Some(t.clone()),
            None => None,
        };
        let query = if query.len() == 0 {
            None
        } else {
            Some(owned_pairs(query))
        };
        Ok(PreparedRequest { method: method.to_owned(), url, headers, bearer_token, query, body })
    }
}

/// Preparing a call to `id` with `params` on `base` succeeds: the id
/// resolves and its rendered path joins onto the base URL.
pub open spec fn call_succeeds(base: Seq<char>, id: Seq<char>, params: Seq<(&str, &str)>) -> bool {
    resolve_succeeds(id, params) && endpoint_url(base, resolved_path(id, params)) is Some
}

/// The URL of a call to `id` with `params` on `base`.
pub open spec fn call_url(base: Seq<char>, id: Seq<char>, params: Seq<(&str, &str)>) -> Seq<char> {
    endpoint_url(base, resolved_path(id, params)).unwrap()
}

/// `e` is the error that preparing a call to `id` with `params` reports: the
/// resolution error, or, once resolved, an invalid path for the resolved path.
pub open spec fn call_error(id: Seq<char>, params: Seq<(&str, &str)>, e: ClientError) -> bool {
    if resolve_succeeds(id, params) {
        is_invalid_path(e, resolved_path(id, params))
    } else {
        resolve_error(id, params, e)
    }
}

/// Resolves `operation_id` and prepares the request for it on `endpoint`.
fn prepare_call(
    endpoint: &Endpoint,
    operation_id: &str,
    path_params: &[(&str, &str)],
    query: &[(&str, &str)],
    body: Option<serde_json::Value>,
) -> (r: Result<PreparedRequest, ClientError>)
    ensures
        r is Ok <==> call_succeeds(endpoint.base_url@, operation_id@, path_params@),
        r matches Ok(req) ==> prepared_as(
            req,
            resolved_method(operation_id@),
            call_url(endpoint.base_url@, operation_id@, path_params@),
            endpoint.token_view(),
            query@,
            body,
        ),
        r matches Err(e) ==> call_error(operation_id@, path_params@, e),
{
    let (method, path) = resolve(operation_id, path_params)?;
    endpoint.prepare(method, path.as_str(), query, body)
}

/// Generic asynchronous JSON REST client: base URL, optional token, and a
/// connection-pooling transport.
#[derive(Clone, Debug)]
pub struct ApiClient {
    endpoint: Endpoint,
    http: reqwest::Client,
}

impl ApiClient {
    /// The token sent with every request, if any.
    pub closed spec fn token(&self) -> Option<Seq<char>> {
        self.endpoint.token_view()
    }

    /// The serialization of the normalized base URL.
    pub closed spec fn base(&self) -> Seq<char> {
        self.endpoint.base_url@
    }

    /// Creates a client for `base_url`, normalized to end its path with `/`.
    ///
    /// Fails with `InvalidBaseUrl` when the URL does not parse, and with
    /// `Request` when the transport cannot start.
    pub fn new(base_url: &str) -> (r: Result<ApiClient, ClientError>)
        ensures
            r matches Ok(c) ==> c.token() is None && parsed_url(base_url@) is Some && c.base()
                == normalized_base(parsed_url(base_url@).unwrap()),
            r matches Err(e) ==> if parsed_url(base_url@) is Some {
                e is Request
            } else {
                is_invalid_base_url(e, base_url@)
            },
    {
        let endpoint = Endpoint::parse(base_url)?;
        match new_async_transport() {
            Ok(http) => Ok(ApiClient { endpoint, http }),
            Err(e) => Err(ClientError::Request(e)),
        }
    }

    /// Creates a client for `base_url`, normalized to end its path with `/`,
    /// that shares the connection pool `http`. Fails with `InvalidBaseUrl`
    /// exactly when the URL does not parse.
    pub fn with_transport(base_url: &str, http: reqwest::Client) -> (r: Result<ApiClient, ClientError>)
        ensures
            r is Ok <==> parsed_url(base_url@) is Some,
            r matches Ok(c) ==> c.token() is None && c.base() == normalized_base(
                parsed_url(base_url@).unwrap(),
            ),
            r matches Err(e) ==> is_invalid_base_url(e, base_url@),
    {
        let endpoint = Endpoint::parse(base_url)?;
        Ok(ApiClient { endpoint, http })
    }

    /// Returns this client with `token` sent as `Authorization: Bearer <token>`.
    pub fn with_authorization_token(self, token: String) -> (r: ApiClient)
        ensures
            r.token() == Some(token@),
            r.base() == self.base(),
    {
        let mut endpoint = self.endpoint;
        endpoint.authorization_token = Some(token);
        ApiClient { endpoint, http: self.http }
    }

    /// Joins `path`, without its leading `/` characters, onto the base URL.
    pub fn build_url(&self, path: &str) -> (r: Result<String, ClientError>)
        ensures
            r is Ok <==> endpoint_url(self.base(), path@) is Some,
            r matches Ok(u) ==> u@ == endpoint_url(self.base(), path@).unwrap(),
            r matches Err(e) ==> is_invalid_path(e, path@),
    {
        self.endpoint.build_url(path)
    }

    /// Prepares a request for `path`, with this client's headers and token.
    pub fn prepare_request(
        &self,
        method: &str,
        path: &str,
        query: &[(&str, &str)],
        body: Option<serde_json::Value>,
    ) -> (r: Result<PreparedRequest, ClientError>)
        ensures
            r is Ok <==> endpoint_url(self.base(), path@) is Some,
            r matches Ok(req) ==> prepared_as(
                req,
                method@,
                endpoint_url(self.base(), path@).unwrap(),
                self.token(),
                query@,
                body,
            ),
            r matches Err(e) ==> is_invalid_path(e, path@),
    {
        self.endpoint.prepare(method, path, query, body)
    }

    /// The transport of this client.
    pub fn http(&self) -> &reqwest::Client {
        &self.http
    }
}

/// Generic blocking JSON REST client: base URL, optional token, and a
/// connection-pooling transport.
#[derive(Debug)]
pub struct BlockingApiClient {
    endpoint: Endpoint,
    http: reqwest::blocking::Client,
}

impl BlockingApiClient {
    /// The token sent with every request, if any.
    pub closed spec fn token(&self) -> Option<Seq<char>> {
        self.endpoint.token_view()
    }

    /// The serialization of the normalized base URL.
    pub closed spec fn base(&self) -> Seq<char> {
        self.endpoint.base_url@
    }

    /// Creates a client for `base_url`, normalized to end its path with `/`,
    /// sending over `http`. Fails with `InvalidBaseUrl` exactly when the URL
    /// does not parse.
    pub fn new(base_url: &str, http: reqwest::blocking::Client) -> (r: Result<BlockingApiClient, ClientError>)
        ensures
            r is Ok <==> parsed_url(base_url@) is Some,
            r matches Ok(c) ==> c.token() is None && c.base() == normalized_base(
                parsed_url(base_url@).unwrap(),
            ),
            r matches Err(e) ==> is_invalid_base_url(e, base_url@),
    {
        let endpoint = Endpoint::parse(base_url)?;
        Ok(BlockingApiClient { endpoint, http })
    }

    /// Returns this client with `token` sent as `Authorization: Bearer <token>`.
    pub fn with_authorization_token(self, token: String) -> (r: BlockingApiClient)
        ensures
            r.token() == Some(token@),
            r.base() == self.base(),
    {
        let mut endpoint = self.endpoint;
        endpoint.authorization_token = Some(token);
        BlockingApiClient { endpoint, http: self.http }
    }

    /// Joins `path`, without its leading `/` characters, onto the base URL.
    pub fn build_url(&self, path: &str) -> (r: Result<String, ClientError>)
        ensures
            r is Ok <==> endpoint_url(self.base(), path@) is Some,
            r matches Ok(u) ==> u@ == endpoint_url(self.base(), path@).unwrap(),
            r matches Err(e) ==> is_invalid_path(e, path@),
    {
        self.endpoint.build_url(path)
    }

    /// Prepares a request for `path`, with this client's headers and token.
    pub fn prepare_request(
        &self,
        method: &str,
        path: &str,
        query: &[(&str, &str)],
        body: Option<serde_json::Value>,
    ) -> (r: Result<PreparedRequest, ClientError>)
        ensures
            r is Ok <==> endpoint_url(self.base(), path@) is Some,
            r matches Ok(req) ==> prepared_as(
                req,
                method@,
                endpoint_url(self.base(), path@).unwrap(),
                self.token(),
                query@,
                body,
            ),
            r matches Err(e) ==> is_invalid_path(e, path@),
    {
        self.endpoint.prepare(method, path, query, body)
    }

    /// The transport of this client.
    pub fn http(&self) -> &reqwest::blocking::Client {
        &self.http
    }
}

/// Asynchronous client that calls operations of the catalog by id.
#[derive(Clone, Debug)]
pub struct IriClient {
    inner: ApiClient,
}

impl IriClient {
    /// The token sent with every request, if any.
    pub closed spec fn token(&self) -> Option<Seq<char>> {
        self.inner.token()
    }

    /// The serialization of the normalized base URL.
    pub closed spec fn base(&self) -> Seq<char> {
        self.inner.base()
    }

    /// Creates a client with an explicit base URL.
    pub fn new(base_url: &str) -> (r: Result<IriClient, ClientError>)
        ensures
            r matches Ok(c) ==> c.token() is None && parsed_url(base_url@) is Some && c.base()
                == normalized_base(parsed_url(base_url@).unwrap()),
            r matches Err(e) ==> if parsed_url(base_url@) is Some {
                e is Request
            } else {
                is_invalid_base_url(e, base_url@)
            },
    {
        let inner = ApiClient::new(base_url)?;
        Ok(IriClient { inner })
    }

    /// Creates a client with an explicit base URL that shares the connection
    /// pool `http`. Fails with `InvalidBaseUrl` exactly when the URL does not parse.
    pub fn with_transport(base_url: &str, http: reqwest::Client) -> (r: Result<IriClient, ClientError>)
        ensures
            r is Ok <==> parsed_url(base_url@) is Some,
            r matches Ok(c) ==> c.token() is None && c.base() == normalized_base(
                parsed_url(base_url@).unwrap(),
            ),
            r matches Err(e) ==> is_invalid_base_url(e, base_url@),
    {
        let inner = ApiClient::with_transport(base_url, http)?;
        Ok(IriClient { inner })
    }

    /// Creates a client for the API's default server URL.
    pub fn from_openapi_default_server() -> (r: Result<IriClient, ClientError>)
        ensures
            r matches Ok(c) ==> c.token() is None && parsed_url(default_server_url()) is Some
                && c.base() == normalized_base(parsed_url(default_server_url()).unwrap()),
            r matches Err(e) ==> if parsed_url(default_server_url()) is Some {
                e is Request
            } else {
                is_invalid_base_url(e, default_server_url())
            },
    {
        IriClient::new(openapi_default_server_url())
    }

    /// Returns this client with `token` sent as `Authorization: Bearer <token>`.
    pub fn with_authorization_token(self, token: String) -> (r: IriClient)
        ensures
            r.token() == Some(token@),
            r.base() == self.base(),
    {
        IriClient { inner: self.inner.with_authorization_token(token) }
    }

    /// Returns every operation of the catalog, in catalog order.
    pub fn operations() -> (r: &'static [OperationDefinition])
        ensures
            r@ == crate::catalog::operation_catalog(),
            r@.len() > 0,
    {
        openapi_operations()
    }

    /// Prepares a request for a raw path and method.
    pub fn prepare_request(
        &self,
        method: &str,
        path: &str,
        query: &[(&str, &str)],
        body: Option<serde_json::Value>,
    ) -> (r: Result<PreparedRequest, ClientError>)
        ensures
            r is Ok <==> endpoint_url(self.base(), path@) is Some,
            r matches Ok(req) ==> prepared_as(
                req,
                method@,
                endpoint_url(self.base(), path@).unwrap(),
                self.token(),
                query@,
                body,
            ),
            r matches Err(e) ==> is_invalid_path(e, path@),
    {
        self.inner.prepare_request(method, path, query, body)
    }

    /// Resolves `operation_id` with `path_params` and prepares its request.
    pub fn prepare_call(
        &self,
        operation_id: &str,
        path_params: &[(&str, &str)],
        query: &[(&str, &str)],
        body: Option<serde_json::Value>,
    ) -> (r: Result<PreparedRequest, ClientError>)
        ensures
            r is Ok <==> call_succeeds(self.base(), operation_id@, path_params@),
            r matches Ok(req) ==> prepared_as(
                req,
                resolved_method(operation_id@),
                call_url(self.base(), operation_id@, path_params@),
                self.token(),
                query@,
                body,
            ),
            r matches Err(e) ==> call_error(operation_id@, path_params@, e),
    {
        prepare_call(&self.inner.endpoint, operation_id, path_params, query, body)
    }

    /// The transport of this client.
    pub fn http(&self) -> &reqwest::Client {
        self.inner.http()
    }
}

/// Blocking client that calls operations of the catalog by id.
#[derive(Debug)]
pub struct BlockingIriClient {
    inner: BlockingApiClient,
}

impl BlockingIriClient {
    /// The token sent with every request, if any.
    pub closed spec fn token(&self) -> Option<Seq<char>> {
        self.inner.token()
    }

    /// The serialization of the normalized base URL.
    pub closed spec fn base(&self) -> Seq<char> {
        self.inner.base()
    }

    /// Creates a client with an explicit base URL, sending over `http`.
    pub fn new(base_url: &str, http: reqwest::blocking::Client) -> (r: Result<BlockingIriClient, ClientError>)
        ensures
            r is Ok <==> parsed_url(base_url@) is Some,
            r matches Ok(c) ==> c.token() is None && c.base() == normalized_base(
                parsed_url(base_url@).unwrap(),
            ),
            r matches Err(e) ==> is_invalid_base_url(e, base_url@),
    {
        let inner = BlockingApiClient::new(base_url, http)?;
        Ok(BlockingIriClient { inner })
    }

    /// Creates a client for the API's default server URL, sending over `http`.
    pub fn from_openapi_default_server(http: reqwest::blocking::Client) -> (r: Result<BlockingIriClient, ClientError>)
        ensures
            r is Ok <==> parsed_url(default_server_url()) is Some,
            r matches Ok(c) ==> c.token() is None && c.base() == normalized_base(
                parsed_url(default_server_url()).unwrap(),
            ),
            r matches Err(e) ==> is_invalid_base_url(e, default_server_url()),
    {
        BlockingIriClient::new(openapi_default_server_url(), http)
    }

    /// Returns this client with `token` sent as `Authorization: Bearer <token>`.
    pub fn with_authorization_token(self, token: String) -> (r: BlockingIriClient)
        ensures
            r.token() == Some(token@),
            r.base() == self.base(),
    {
        BlockingIriClient { inner: self.inner.with_authorization_token(token) }
    }

    /// Returns every operation of the catalog, in catalog order.
    pub fn operations() -> (r: &'static [OperationDefinition])
        ensures
            r@ == crate::catalog::operation_catalog(),
            r@.len() > 0,
    {
        openapi_operations()
    }

    /// Prepares a request for a raw path and method.
    pub fn prepare_request(
        &self,
        method: &str,
        path: &str,
        query: &[(&str, &str)],
        body: Option<serde_json::Value>,
    ) -> (r: Result<PreparedRequest, ClientError>)
        ensures
            r is Ok <==> endpoint_url(self.base(), path@) is Some,
            r matches Ok(req) ==> prepared_as(
                req,
                method@,
                endpoint_url(self.base(), path@).unwrap(),
                self.token(),
                query@,
                body,
            ),
            r matches Err(e) ==> is_invalid_path(e, path@),
    {
        self.inner.prepare_request(method, path, query, body)
    }

    /// Resolves `operation_id` with `path_params` and prepares its request.
    pub fn prepare_call(
        &self,
        operation_id: &str,
        path_params: &[(&str, &str)],
        query: &[(&str, &str)],
        body: Option<serde_json::Value>,
    ) -> (r: Result<PreparedRequest, ClientError>)
        ensures
            r is Ok <==> call_succeeds(self.base(), operation_id@, path_params@),
            r matches Ok(req) ==> prepared_as(
                req,
                resolved_method(operation_id@),
                call_url(self.base(), operation_id@, path_params@),
                self.token(),
                query@,
                body,
            ),
            r matches Err(e) ==> call_error(operation_id@, path_params@, e),
    {
        prepare_call(&self.inner.endpoint, operation_id, path_params, query, body)
    }

    /// The transport of this client.
    pub fn http(&self) -> &reqwest::blocking::Client {
        self.inner.http()
    }
}

} // verus!
