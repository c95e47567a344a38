use crate::outside::SharedRateLimiter;
use crate::reqwest_wrapper::client::{share_rate_limiter, Client};
use crate::reqwest_wrapper::middleware::ResponseMiddleware;
use vstd::prelude::*;

verus! {

/// The most jitter, in milliseconds, that `send` adds to a wait for the rate
/// limiter, so that requests released together do not all fire at once.
pub const SEND_JITTER_MILLIS: u64 = 50;

/// The characters of each key and value of a list of pairs.
pub open spec fn pairs_view(pairs: Seq<(&str, &str)>) -> Seq<(Seq<char>, Seq<char>)> {
    pairs.map_values(|pair: (&str, &str)| (pair.0@, pair.1@))
}

/// The characters of an optional string.
pub open spec fn optional_str_view(value: Option<&str>) -> Option<Seq<char>> {
    match value {
        Some(s) => Some(s@),
        None => None,
    }
}

/// The `reqwest` request after `edit`, or the error that it already holds.
pub open spec fn edited(
    inner: Result<reqwest::RequestBuilder, reqwest::Error>,
    edit: spec_fn(reqwest::RequestBuilder) -> reqwest::RequestBuilder,
) -> Result<reqwest::RequestBuilder, reqwest::Error> {
    match inner {
        Ok(builder) => Ok(edit(builder)),
        Err(e) => Err(e),
    }
}

/// The `reqwest` request with all its headers replaced by `headers`: its
/// request is taken out of the builder, given `headers` as its whole header
/// map, and put back with the same client. An error, held already or met when
/// the request is taken out, is kept.
pub open spec fn with_all_headers(
    inner: Result<reqwest::RequestBuilder, reqwest::Error>,
    headers: http::HeaderMap<http::HeaderValue>,
) -> Result<reqwest::RequestBuilder, reqwest::Error> {
    match inner {
        Ok(builder) => match build_split_of(builder).1 {
            Ok(request) => Ok(
                from_parts_of(build_split_of(builder).0, with_header_map_of(request, headers)),
            ),
            Err(e) => Err(e),
        },
        Err(e) => Err(e),
    }
}

/// What building a request gives: `reqwest`'s build of the builder, or the
/// error that it already holds.
pub open spec fn built(
    inner: Result<reqwest::RequestBuilder, reqwest::Error>,
) -> Result<reqwest::Request, reqwest::Error> {
    match inner {
        Ok(builder) => build_of(builder),
        Err(e) => Err(e),
    }
}

/// `after` builds to what `before` builds to with `headers` as its whole header
/// map: the same method, URL, body, timeout and version, and no other header.
/// An error that building `before` meets is what building `after` meets.
pub open spec fn builds_with_header_map(
    before: Result<reqwest::RequestBuilder, reqwest::Error>,
    after: Result<reqwest::RequestBuilder, reqwest::Error>,
    headers: http::HeaderMap<http::HeaderValue>,
) -> bool {
    match built(before) {
        Ok(request) => built(after) == Ok::<reqwest::Request, reqwest::Error>(
            with_header_map_of(request, headers),
        ),
        Err(e) => after == Err::<reqwest::RequestBuilder, reqwest::Error>(e),
    }
}

/// The request that `reqwest::RequestBuilder::header` makes of `builder`: a
/// header `key: value` appended, or an error recorded when either is invalid.
pub uninterp spec fn header_of(
    builder: reqwest::RequestBuilder,
    key: Seq<char>,
    value: Seq<char>,
) -> reqwest::RequestBuilder;

/// The request that `reqwest::RequestBuilder::basic_auth` makes of `builder`:
/// a sensitive `Authorization: Basic ..` header added.
pub uninterp spec fn basic_auth_of(
    builder: reqwest::RequestBuilder,
    username: Seq<char>,
    password: Option<Seq<char>>,
) -> reqwest::RequestBuilder;

/// The request that `reqwest::RequestBuilder::bearer_auth` makes of `builder`:
/// a sensitive `Authorization: Bearer ..` header added.
pub uninterp spec fn bearer_auth_of(builder: reqwest::RequestBuilder, token: Seq<char>) -> reqwest::RequestBuilder;

/// The request that `reqwest::RequestBuilder::body` makes of `builder`: its body set.
pub uninterp spec fn body_of(builder: reqwest::RequestBuilder, body: reqwest::Body) -> reqwest::RequestBuilder;

/// The request that `reqwest::RequestBuilder::timeout` makes of `builder`: its
/// timeout set.
pub uninterp spec fn request_timeout_of(
    builder: reqwest::RequestBuilder,
    timeout: std::time::Duration,
) -> reqwest::RequestBuilder;

/// The request that `reqwest::RequestBuilder::multipart` makes of `builder`:
/// the form as its body, with the multipart content type and, where known, length.
pub uninterp spec fn multipart_of(
    builder: reqwest::RequestBuilder,
    form: reqwest::multipart::Form,
) -> reqwest::RequestBuilder;

/// The request that `reqwest::RequestBuilder::query` makes of `builder`: the
/// pairs appended to the query string of its URL.
pub uninterp spec fn query_of(
    builder: reqwest::RequestBuilder,
    query: Seq<(Seq<char>, Seq<char>)>,
) -> reqwest::RequestBuilder;

/// The request that `reqwest::RequestBuilder::version` makes of `builder`: its
/// HTTP version set.
pub uninterp spec fn version_of(builder: reqwest::RequestBuilder, version: http::Version) -> reqwest::RequestBuilder;

/// The request that `reqwest::RequestBuilder::form` makes of `builder`: the
/// pairs, url-encoded, as its body, with the form content type unless one is set.
pub uninterp spec fn form_of(
    builder: reqwest::RequestBuilder,
    form: Seq<(Seq<char>, Seq<char>)>,
) -> reqwest::RequestBuilder;

/// The request that `reqwest::RequestBuilder::json` makes of `builder`: the
/// value, serialized to JSON, as its body, with the JSON content type unless one
/// is set.
pub uninterp spec fn json_of(builder: reqwest::RequestBuilder, json: serde_json::Value) -> reqwest::RequestBuilder;

/// What `reqwest::RequestBuilder::build` gives for `builder`: the request it
/// holds, or the first error recorded while it was built.
pub uninterp spec fn build_of(builder: reqwest::RequestBuilder) -> Result<reqwest::Request, reqwest::Error>;

/// What `reqwest::RequestBuilder::try_clone` gives for `builder`: a copy, or
/// `None` when its body is a stream or it holds an error.
pub uninterp spec fn try_clone_of(builder: reqwest::RequestBuilder) -> Option<reqwest::RequestBuilder>;

/// `reqwest::RequestBuilder::header`; its result is [`header_of`] its arguments.
#[verifier::external_body]
fn reqwest_request_header(
    builder: reqwest::RequestBuilder,
    key: &str,
    value: &str,
) -> (res: reqwest::RequestBuilder)
    ensures
        res == header_of(builder, key@, value@),
{
    builder.header(key, value)
}

/// What `reqwest::RequestBuilder::build_split` gives for `builder`: its client
/// and the request it holds, or the first error recorded while it was built.
pub uninterp spec fn build_split_of(
    builder: reqwest::RequestBuilder,
) -> (reqwest::Client, Result<reqwest::Request, reqwest::Error>);

/// `reqwest::RequestBuilder::build_split`; its result is [`build_split_of`] its
/// argument, and the request in it is what `build` gives for the same builder
/// (both hand out the builder's stored request, reqwest's `self.request`).
#[verifier::external_body]
fn reqwest_request_build_split(builder: reqwest::RequestBuilder) -> (res: (
    reqwest::Client,
    Result<reqwest::Request, reqwest::Error>,
))
    ensures
        res == build_split_of(builder),
        res.1 == build_of(builder),
{
    builder.build_split()
}

/// `request` with its header map replaced by `headers` through
/// `reqwest::Request::headers_mut`: no header it had before is left.
pub uninterp spec fn with_header_map_of(
    request: reqwest::Request,
    headers: http::HeaderMap<http::HeaderValue>,
) -> reqwest::Request;

/// `reqwest::Request::headers_mut`, through which the whole header map is
/// overwritten; its result is [`with_header_map_of`] its arguments.
#[verifier::external_body]
fn reqwest_request_set_header_map(
    request: reqwest::Request,
    headers: http::HeaderMap<http::HeaderValue>,
) -> (res: reqwest::Request)
    ensures
        res == with_header_map_of(request, headers),
{
    let mut request = request;
    *request.headers_mut() = headers;
    request
}

/// The builder that `reqwest::RequestBuilder::from_parts` assembles from
/// `client` and `request`.
pub uninterp spec fn from_parts_of(
    client: reqwest::Client,
    request: reqwest::Request,
) -> reqwest::RequestBuilder;

/// `reqwest::RequestBuilder::from_parts`; its result is [`from_parts_of`] its
/// arguments; building it gives back `request` unchanged, and splitting it gives
/// back `client` (the builder holds `client` and `Ok(request)`, which `build`
/// and `build_split` hand out).
#[verifier::external_body]
fn reqwest_request_from_parts(client: reqwest::Client, request: reqwest::Request) -> (res: reqwest::RequestBuilder)
    ensures
        res == from_parts_of(client, request),
        build_of(res) is Ok,
        build_of(res)->Ok_0 == request,
        build_split_of(res).0 == client,
{
    reqwest::RequestBuilder::from_parts(client, request)
}

/// `reqwest::RequestBuilder::basic_auth`; its result is [`basic_auth_of`] its arguments.
#[verifier::external_body]
fn reqwest_request_basic_auth(
    builder: reqwest::RequestBuilder,
    username: &str,
    password: Option<&str>,
) -> (res: reqwest::RequestBuilder)
    ensures
        res == basic_auth_of(builder, username@, optional_str_view(password)),
{
    builder.basic_auth(username, password)
}

/// `reqwest::RequestBuilder::bearer_auth`; its result is [`bearer_auth_of`] its arguments.
#[verifier::external_body]
fn reqwest_request_bearer_auth(builder: reqwest::RequestBuilder, token: &str) -> (res: reqwest::RequestBuilder)
    ensures
        res == bearer_auth_of(builder, token@),
{
    builder.bearer_auth(token)
}

/// `reqwest::RequestBuilder::body`; its result is [`body_of`] its arguments.
#[verifier::external_body]
fn reqwest_request_body(builder: reqwest::RequestBuilder, body: reqwest::Body) -> (res: reqwest::RequestBuilder)
    ensures
        res == body_of(builder, body),
{
    builder.body(body)
}

/// `reqwest::RequestBuilder::timeout`; its result is [`request_timeout_of`] its arguments.
#[verifier::external_body]
fn reqwest_request_timeout(
    builder: reqwest::RequestBuilder,
    timeout: std::time::Duration,
) -> (res: reqwest::RequestBuilder)
    ensures
        res == request_timeout_of(builder, timeout),
{
    builder.timeout(timeout)
}

/// `reqwest::RequestBuilder::multipart`; its result is [`multipart_of`] its arguments.
#[verifier::external_body]
fn reqwest_request_multipart(
    builder: reqwest::RequestBuilder,
    form: reqwest::multipart::Form,
) -> (res: reqwest::RequestBuilder)
    ensures
        res == multipart_of(builder, form),
{
    builder.multipart(form)
}

/// `reqwest::RequestBuilder::query`; its result is [`query_of`] its arguments.
#[verifier::external_body]
fn reqwest_request_query(
    builder: reqwest::RequestBuilder,
    query: &[(&str, &str)],
) -> (res: reqwest::RequestBuilder)
    ensures
        res == query_of(builder, pairs_view(query@)),
{
    builder.query(query)
}

/// `reqwest::RequestBuilder::version`; its result is [`version_of`] its arguments.
#[verifier::external_body]
fn reqwest_request_version(builder: reqwest::RequestBuilder, version: http::Version) -> (res: reqwest::RequestBuilder)
    ensures
        res == version_of(builder, version),
{
    builder.version(version)
}

/// `reqwest::RequestBuilder::form`; its result is [`form_of`] its arguments.
#[verifier::external_body]
fn reqwest_request_form(
    builder: reqwest::RequestBuilder,
    form: &[(&str, &str)],
) -> (res: reqwest::RequestBuilder)
    ensures
        res == form_of(builder, pairs_view(form@)),
{
    builder.form(form)
}

/// `reqwest::RequestBuilder::json`; its result is [`json_of`] its arguments.
#[verifier::external_body]
fn reqwest_request_json(builder: reqwest::RequestBuilder, json: &serde_json::Value) -> (res: reqwest::RequestBuilder)
    ensures
        res == json_of(builder, *json),
{
    builder.json(json)
}

/// `reqwest::RequestBuilder::build`; its result is [`build_of`] its argument.
#[verifier::external_body]
fn reqwest_request_build(builder: reqwest::RequestBuilder) -> (res: Result<reqwest::Request, reqwest::Error>)
    ensures
        res == build_of(builder),
{
    builder.build()
}

/// `reqwest::RequestBuilder::try_clone`; its result is [`try_clone_of`] its argument.
#[verifier::external_body]
fn reqwest_request_try_clone(builder: &reqwest::RequestBuilder) -> (res: Option<reqwest::RequestBuilder>)
    ensures
        res == try_clone_of(*builder),
{
    builder.try_clone()
}

/// A wait for a rate limiter that `send` performs before the request goes out.
pub struct RateLimitWait {
    /// The limiter to wait for.
    pub limiter: SharedRateLimiter,
    /// The most random extra delay, in milliseconds, added to the wait.
    pub max_jitter_millis: u64,
}

/// The wait that `send` performs for a request with rate limiter `rate_limiter`:
/// none without a limiter, else a wait for that limiter with
/// [`SEND_JITTER_MILLIS`] of jitter.
pub open spec fn planned_wait(rate_limiter: Option<SharedRateLimiter>) -> Option<RateLimitWait> {
    match rate_limiter {
        Some(limiter) => Some(RateLimitWait { limiter, max_jitter_millis: SEND_JITTER_MILLIS }),
        None => None,
    }
}

/// A request ready to be sent: first the wait, if any, then the request, and
/// its outcome goes through the response middleware.
pub struct PendingSend<MW> {
    /// The wait for a rate limiter to perform first, if any.
    pub wait: Option<RateLimitWait>,
    /// The `reqwest` request to send once the wait is over, or the error that
    /// sending gives at once.
    pub request: Result<reqwest::RequestBuilder, reqwest::Error>,
    /// The middleware that the outcome of the request goes through.
    pub response_middleware: MW,
}

/// Wrapper around `reqwest::RequestBuilder` that applies rate limiting and middleware.
#[derive(Debug)]
pub struct RequestBuilder<MW> where MW: ResponseMiddleware + Clone {
    client: Client<MW>,
    inner: Result<reqwest::RequestBuilder, reqwest::Error>,
    response_middleware: MW,
    rate_limiter: Option<SharedRateLimiter>,
}

impl<MW: ResponseMiddleware + Clone> RequestBuilder<MW> {
    /// The client that this request was created from.
    pub closed spec fn client_of(&self) -> Client<MW> {
        self.client
    }

    /// The `reqwest` request being built, or the error met while building it.
    pub closed spec fn inner_request(&self) -> Result<reqwest::RequestBuilder, reqwest::Error> {
        self.inner
    }

    /// The middleware that the response of this request goes through.
    pub closed spec fn middleware_of(&self) -> MW {
        self.response_middleware
    }

    /// The rate limiter that this request waits for before it is sent.
    pub closed spec fn rate_limiter_of(&self) -> Option<SharedRateLimiter> {
        self.rate_limiter
    }

    /// A request of `client` around `inner`: it starts with the client's
    /// middleware and the client's rate limiter.
    pub(crate) fn from_parts(client: Client<MW>, inner: reqwest::RequestBuilder) -> (request: Self)
        ensures
            request.client_of() == client,
            request.inner_request() == Ok::<reqwest::RequestBuilder, reqwest::Error>(inner),
            cloned::<MW>(client.response_middleware(), request.middleware_of()),
            request.rate_limiter_of() == client.default_rate_limiter(),
    {
        let response_middleware = client.middleware().clone();
        let rate_limiter = client.rate_limiter();
        RequestBuilder { client, inner: Ok(inner), response_middleware, rate_limiter }
    }

    /// Override the rate limiter for this request with a shared limiter.
    pub fn with_rate_limiter(self, rate_limiter: SharedRateLimiter) -> (request: Self)
        ensures
            request.client_of() == self.client_of(),
            request.inner_request() == self.inner_request(),
            request.middleware_of() == self.middleware_of(),
            request.rate_limiter_of() == Some(rate_limiter),
    {
        RequestBuilder { rate_limiter: Some(rate_limiter), ..self }
    }

    /// Add a header to this request.
    pub fn header(self, key: &str, value: &str) -> (request: Self)
        ensures
            request.inner_request() == edited(
                self.inner_request(),
                |b: reqwest::RequestBuilder| header_of(b, key@, value@),
            ),
            self.inner_request() matches Ok(b) ==> request.inner_request() == Ok::<
                reqwest::RequestBuilder,
                reqwest::Error,
            >(header_of(b, key@, value@)),
            self.inner_request() is Err ==> request.inner_request() == self.inner_request(),
            request.keeps_settings_of(self),
    {
        let inner = match self.inner {
            Ok(b) => Ok(reqwest_request_header(b, key, value)),
            Err(e) => Err(e),
        };
        RequestBuilder { inner, ..self }
    }

    /// Replace all headers on this request: afterwards it has exactly `headers`.
    pub fn headers(self, headers: http::HeaderMap<http::HeaderValue>) -> (request: Self)
        ensures
            request.inner_request() == with_all_headers(self.inner_request(), headers),
            request.keeps_settings_of(self),
            builds_with_header_map(self.inner_request(), request.inner_request(), headers),
            self.inner_request() matches Ok(b) ==> (build_of(b) matches Ok(r) ==> {
                &&& request.inner_request() is Ok
                &&& build_of(request.inner_request()->Ok_0) == Ok::<
                    reqwest::Request,
                    reqwest::Error,
                >(with_header_map_of(r, headers))
                &&& build_split_of(request.inner_request()->Ok_0).0 == build_split_of(b).0
            }),
            self.inner_request() matches Ok(b) ==> (build_of(b) matches Err(e)
                ==> request.inner_request() == Err::<reqwest::RequestBuilder, reqwest::Error>(e)),
            self.inner_request() is Err ==> request.inner_request() == self.inner_request(),
    {
        let inner = match self.inner {
            Ok(b) => {
                let (client, request) = reqwest_request_build_split(b);
                match request {
                    Ok(request) => Ok(
                        reqwest_request_from_parts(client, reqwest_request_set_header_map(request, headers)),
                    ),
                    Err(e) => Err(e),
                }
            },
            Err(e) => Err(e),
        };
        RequestBuilder { inner, ..self }
    }

    /// Add basic authentication to this request.
    pub fn basic_auth(self, username: &str, password: Option<&str>) -> (request: Self)
        ensures
            request.inner_request() == edited(
                self.inner_request(),
                |b: reqwest::RequestBuilder| basic_auth_of(b, username@, optional_str_view(password)),
            ),
            self.inner_request() matches Ok(b) ==> request.inner_request() == Ok::<
                reqwest::RequestBuilder,
                reqwest::Error,
            >(basic_auth_of(b, username@, optional_str_view(password))),
            self.inner_request() is Err ==> request.inner_request() == self.inner_request(),
            request.keeps_settings_of(self),
    {
        let inner = match self.inner {
            Ok(b) => Ok(reqwest_request_basic_auth(b, username, password)),
            Err(e) => Err(e),
        };
        RequestBuilder { inner, ..self }
    }

    /// Add bearer authentication to this request.
    pub fn bearer_auth(self, token: &str) -> (request: Self)
        ensures
            request.inner_request() == edited(
                self.inner_request(),
                |b: reqwest::RequestBuilder| bearer_auth_of(b, token@),
            ),
            self.inner_request() matches Ok(b) ==> request.inner_request() == Ok::<
                reqwest::RequestBuilder,
                reqwest::Error,
            >(bearer_auth_of(b, token@)),
            self.inner_request() is Err ==> request.inner_request() == self.inner_request(),
            request.keeps_settings_of(self),
    {
        let inner = match self.inner {
            Ok(b) => Ok(reqwest_request_bearer_auth(b, token)),
            Err(e) => Err(e),
        };
        RequestBuilder { inner, ..self }
    }

    /// Set the body of this request.
    pub fn body(self, body: reqwest::Body) -> (request: Self)
        ensures
            request.inner_request() == edited(
                self.inner_request(),
                |b: reqwest::RequestBuilder| body_of(b, body),
            ),
            self.inner_request() matches Ok(b) ==> request.inner_request() == Ok::<
                reqwest::RequestBuilder,
                reqwest::Error,
            >(body_of(b, body)),
            self.inner_request() is Err ==> request.inner_request() == self.inner_request(),
            request.keeps_settings_of(self),
    {
        let inner = match self.inner {
            Ok(b) => Ok(reqwest_request_body(b, body)),
            Err(e) => Err(e),
        };
        RequestBuilder { inner, ..self }
    }

    /// Override the timeout for this request.
    pub fn timeout(self, timeout: std::time::Duration) -> (request: Self)
        ensures
            request.inner_request() == edited(
                self.inner_request(),
                |b: reqwest::RequestBuilder| request_timeout_of(b, timeout),
            ),
            self.inner_request() matches Ok(b) ==> request.inner_request() == Ok::<
                reqwest::RequestBuilder,
                reqwest::Error,
            >(request_timeout_of(b, timeout)),
            self.inner_request() is Err ==> request.inner_request() == self.inner_request(),
            request.keeps_settings_of(self),
    {
        let inner = match self.inner {
            Ok(b) => Ok(reqwest_request_timeout(b, timeout)),
            Err(e) => Err(e),
        };
        RequestBuilder { inner, ..self }
    }

    /// Set a multipart body for this request.
    pub fn multipart(self, multipart: reqwest::multipart::Form) -> (request: Self)
        ensures
            request.inner_request() == edited(
                self.inner_request(),
                |b: reqwest::RequestBuilder| multipart_of(b, multipart),
            ),
            self.inner_request() matches Ok(b) ==> request.inner_request() == Ok::<
                reqwest::RequestBuilder,
                reqwest::Error,
            >(multipart_of(b, multipart)),
            self.inner_request() is Err ==> request.inner_request() == self.inner_request(),
            request.keeps_settings_of(self),
    {
        let inner = match self.inner {
            Ok(b) => Ok(reqwest_request_multipart(b, multipart)),
            Err(e) => Err(e),
        };
        RequestBuilder { inner, ..self }
    }

    /// Add key-value pairs to the query string of this request.
    pub fn query(self, query: &[(&str, &str)]) -> (request: Self)
        ensures
            request.inner_request() == edited(
                self.inner_request(),
                |b: reqwest::RequestBuilder| query_of(b, pairs_view(query@)),
            ),
            self.inner_request() matches Ok(b) ==> request.inner_request() == Ok::<
                reqwest::RequestBuilder,
                reqwest::Error,
            >(query_of(b, pairs_view(query@))),
            self.inner_request() is Err ==> request.inner_request() == self.inner_request(),
            request.keeps_settings_of(self),
    {
        let inner = match self.inner {
            Ok(b) => Ok(reqwest_request_query(b, query)),
            Err(e) => Err(e),
        };
        RequestBuilder { inner, ..self }
    }

    /// Override the HTTP version used for this request.
    pub fn version(self, version: http::Version) -> (request: Self)
        ensures
            request.inner_request() == edited(
                self.inner_request(),
                |b: reqwest::RequestBuilder| version_of(b, version),
            ),
            self.inner_request() matches Ok(b) ==> request.inner_request() == Ok::<
                reqwest::RequestBuilder,
                reqwest::Error,
            >(version_of(b, version)),
            self.inner_request() is Err ==> request.inner_request() == self.inner_request(),
            request.keeps_settings_of(self),
    {
        let inner = match self.inner {
            Ok(b) => Ok(reqwest_request_version(b, version)),
            Err(e) => Err(e),
        };
        RequestBuilder { inner, ..self }
    }

    /// Set a form body for this request.
    pub fn form(self, form: &[(&str, &str)]) -> (request: Self)
        ensures
            request.inner_request() == edited(
                self.inner_request(),
                |b: reqwest::RequestBuilder| form_of(b, pairs_view(form@)),
            ),
            self.inner_request() matches Ok(b) ==> request.inner_request() == Ok::<
                reqwest::RequestBuilder,
                reqwest::Error,
            >(form_of(b, pairs_view(form@))),
            self.inner_request() is Err ==> request.inner_request() == self.inner_request(),
            request.keeps_settings_of(self),
    {
        let inner = match self.inner {
            Ok(b) => Ok(reqwest_request_form(b, form)),
            Err(e) => Err(e),
        };
        RequestBuilder { inner, ..self }
    }

    /// Set a JSON body for this request.
    pub fn json(self, json: &serde_json::Value) -> (request: Self)
        ensures
            request.inner_request() == edited(
                self.inner_request(),
                |b: reqwest::RequestBuilder| json_of(b, *json),
            ),
            self.inner_request() matches Ok(b) ==> request.inner_request() == Ok::<
                reqwest::RequestBuilder,
                reqwest::Error,
            >(json_of(b, *json)),
            self.inner_request() is Err ==> request.inner_request() == self.inner_request(),
            request.keeps_settings_of(self),
    {
        let inner = match self.inner {
            Ok(b) => Ok(reqwest_request_json(b, json)),
            Err(e) => Err(e),
        };
        RequestBuilder { inner, ..self }
    }

    /// This request has the client, middleware and rate limiter of `other`.
    pub open spec fn keeps_settings_of(&self, other: Self) -> bool {
        &&& self.client_of() == other.client_of()
        &&& self.middleware_of() == other.middleware_of()
        &&& self.rate_limiter_of() == other.rate_limiter_of()
    }

    /// Build the underlying `reqwest::Request`.
    pub fn build(self) -> (res: Result<reqwest::Request, reqwest::Error>)
        ensures
            res == match self.inner_request() {
                Ok(b) => build_of(b),
                Err(e) => Err(e),
            },
    {
        match self.inner {
            Ok(b) => reqwest_request_build(b),
            Err(e) => Err(e),
        }
    }

    /// Split this request into what `send` does: the wait for its rate limiter,
    /// if it has one, then the `reqwest` request, whose outcome goes through
    /// its middleware.
    pub fn prepare_send(self) -> (pending: PendingSend<MW>)
        ensures
            pending.wait == planned_wait(self.rate_limiter_of()),
            pending.request == self.inner_request(),
            pending.response_middleware == self.middleware_of(),
    {
        let wait = match self.rate_limiter {
            Some(limiter) => Some(RateLimitWait { limiter, max_jitter_millis: SEND_JITTER_MILLIS }),
            None => None,
        };
        PendingSend { wait, request: self.inner, response_middleware: self.response_middleware }
    }

    /// A copy of this request around `inner`, a clone of its `reqwest`
    /// request: it holds clones of the client and middleware and shares the
    /// request's rate limiter, so that the copy is sent under the same limits.
    pub fn clone_with_request(&self, inner: reqwest::RequestBuilder) -> (request: Self)
        ensures
            request.inner_request() == Ok::<reqwest::RequestBuilder, reqwest::Error>(inner),
            request.client_of().inner_client() == self.client_of().inner_client(),
            request.client_of().default_rate_limiter() == self.client_of().default_rate_limiter(),
            cloned::<MW>(
                self.client_of().response_middleware(),
                request.client_of().response_middleware(),
            ),
            cloned::<MW>(self.middleware_of(), request.middleware_of()),
            request.rate_limiter_of() == self.rate_limiter_of(),
    {
        RequestBuilder {
            client: self.client.clone(),
            inner: Ok(inner),
            response_middleware: self.response_middleware.clone(),
            rate_limiter: share_rate_limiter(&self.rate_limiter),
        }
    }

    /// Attempt to clone this builder for re-use. When `reqwest` can clone the
    /// request (it holds no error and its body is not a stream), the result is
    /// [`RequestBuilder::clone_with_request`] of that clone: it is sent under
    /// the same rate limiter.
    pub fn try_clone(&self) -> (res: Option<Self>)
        ensures
            res is Some <==> (self.inner_request() matches Ok(b) && try_clone_of(b) is Some),
            res matches Some(request) ==> {
                &&& self.inner_request() matches Ok(b)
                &&& request.inner_request() == Ok::<reqwest::RequestBuilder, reqwest::Error>(
                    try_clone_of(b)->0,
                )
                &&& request.client_of().inner_client() == self.client_of().inner_client()
                &&& request.client_of().default_rate_limiter()
                    == self.client_of().default_rate_limiter()
                &&& cloned::<MW>(
                    self.client_of().response_middleware(),
                    request.client_of().response_middleware(),
                )
                &&& cloned::<MW>(self.middleware_of(), request.middleware_of())
                &&& request.rate_limiter_of() == self.rate_limiter_of()
            },
    {
        match &self.inner {
            Ok(b) => match reqwest_request_try_clone(b) {
                Some(inner) => Some(self.clone_with_request(inner)),
                None => None,
            },
            Err(_) => None,
        }
    }
}

/// A rate limiter set on a request with [`RequestBuilder::with_rate_limiter`]
/// is the one that `send` waits for, whatever limiter the client has.
pub proof fn law_override_governs_send<MW: ResponseMiddleware + Clone>(
    client: Client<MW>,
    request: RequestBuilder<MW>,
    limiter: SharedRateLimiter,
)
    requires
        request.client_of() == client,
        request.rate_limiter_of() == Some(limiter),
    ensures
        planned_wait(request.rate_limiter_of())
            == Some(RateLimitWait { limiter, max_jitter_millis: SEND_JITTER_MILLIS }),
        client.default_rate_limiter() != Some(limiter) ==> planned_wait(request.rate_limiter_of())
            != planned_wait(client.default_rate_limiter()),
{
}

/// Setting headers, authentication, a body, a timeout, a query, a version or a
/// form on a request, any number of times, leaves its client, middleware and
/// rate limiter, and so the wait that `send` performs, as they were.
pub proof fn law_setters_keep_the_wait<MW: ResponseMiddleware + Clone>(
    first: RequestBuilder<MW>,
    middle: RequestBuilder<MW>,
    last: RequestBuilder<MW>,
)
    requires
        middle.keeps_settings_of(first),
        last.keeps_settings_of(middle),
    ensures
        last.keeps_settings_of(first),
        planned_wait(last.rate_limiter_of()) == planned_wait(first.rate_limiter_of()),
{
}

/// Replacing the headers of a request and then building it gives the request
/// that building it first gives, with only its header map changed, to exactly
/// `headers`: method, URL, body, timeout and version stay. Replacing headers
/// twice builds to the first build with the second map put over the first.
pub proof fn law_headers_touch_only_the_header_map<MW: ResponseMiddleware + Clone>(
    before: RequestBuilder<MW>,
    middle: RequestBuilder<MW>,
    last: RequestBuilder<MW>,
    first_headers: http::HeaderMap<http::HeaderValue>,
    second_headers: http::HeaderMap<http::HeaderValue>,
)
    requires
        builds_with_header_map(before.inner_request(), middle.inner_request(), first_headers),
        builds_with_header_map(middle.inner_request(), last.inner_request(), second_headers),
    ensures
        built(before.inner_request()) matches Ok(request) ==> built(middle.inner_request())
            == Ok::<reqwest::Request, reqwest::Error>(with_header_map_of(request, first_headers)),
        built(before.inner_request()) matches Err(e) ==> built(middle.inner_request()) == Err::<
            reqwest::Request,
            reqwest::Error,
        >(e),
        built(before.inner_request()) matches Ok(request) ==> built(last.inner_request())
            == Ok::<reqwest::Request, reqwest::Error>(
            with_header_map_of(with_header_map_of(request, first_headers), second_headers),
        ),
        built(before.inner_request()) is Err ==> built(last.inner_request()) == built(
            before.inner_request(),
        ),
{
}

} // verus!
