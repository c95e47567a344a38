use crate::outside::SharedRateLimiter;
use crate::reqwest_wrapper::middleware::{NoopResponseMiddleware, ResponseMiddleware};
use crate::reqwest_wrapper::request_builder::{planned_wait, RateLimitWait, RequestBuilder, SEND_JITTER_MILLIS};
use vstd::prelude::*;

verus! {

/// `builder` has the configuration that `reqwest::Client::builder` starts
/// from: reqwest's defaults, with `Accept: */*` as the only default header.
pub uninterp spec fn is_default_client_builder(builder: reqwest::ClientBuilder) -> bool;

/// `reqwest::Client::builder`; its result has reqwest's default configuration.
#[verifier::external_body]
fn reqwest_client_builder() -> (res: reqwest::ClientBuilder)
    ensures
        is_default_client_builder(res),
{
    reqwest::Client::builder()
}

/// `reqwest::Client::clone`. The client is a reference-counted handle, and the
/// claim is that the clone is the same handle.
#[verifier::external_body]
fn reqwest_client_clone(client: &reqwest::Client) -> (res: reqwest::Client)
    ensures
        res == *client,
{
    client.clone()
}

/// Wrapper client that exposes ergonomic request builders with rate limiting.
#[derive(Debug)]
pub struct Client<MW = NoopResponseMiddleware> {
    inner: reqwest::Client,
    middleware: MW,
    rate_limiter: Option<SharedRateLimiter>,
}

impl<MW> Client<MW> {
    /// The `reqwest` client that performs the requests.
    pub closed spec fn inner_client(&self) -> reqwest::Client {
        self.inner
    }

    /// The middleware that every request of this client starts with.
    pub closed spec fn response_middleware(&self) -> MW {
        self.middleware
    }

    /// The rate limiter that every request of this client starts with.
    pub closed spec fn default_rate_limiter(&self) -> Option<SharedRateLimiter> {
        self.rate_limiter
    }
}

impl<MW: Clone> Clone for Client<MW> {
    fn clone(&self) -> (res: Self)
        ensures
            res.inner_client() == self.inner_client(),
            cloned::<MW>(self.response_middleware(), res.response_middleware()),
            res.default_rate_limiter() == self.default_rate_limiter(),
    {
        Client {
            inner: reqwest_client_clone(&self.inner),
            middleware: self.middleware.clone(),
            rate_limiter: share_rate_limiter(&self.rate_limiter),
        }
    }
}

impl<MW> Client<MW> {
    /// The wrapper client around what `reqwest` gave when it built its client:
    /// `reqwest`'s client with `middleware` and `rate_limiter`, or `reqwest`'s
    /// error unchanged.
    pub fn from_build_outcome(
        outcome: Result<reqwest::Client, reqwest::Error>,
        middleware: MW,
        rate_limiter: Option<SharedRateLimiter>,
    ) -> (res: Result<Client<MW>, reqwest::Error>)
        ensures
            res is Ok <==> outcome is Ok,
            res matches Ok(client) ==> {
                &&& outcome == Ok::<reqwest::Client, reqwest::Error>(client.inner_client())
                &&& client.response_middleware() == middleware
                &&& client.default_rate_limiter() == rate_limiter
            },
            res matches Err(e) ==> outcome == Err::<reqwest::Client, reqwest::Error>(e),
    {
        match outcome {
            Ok(inner) => Ok(Client { inner, middleware, rate_limiter }),
            Err(e) => Err(e),
        }
    }
}

/// Another handle to the same optional rate limiter.
pub(crate) fn share_rate_limiter(rate_limiter: &Option<SharedRateLimiter>) -> (res: Option<
    SharedRateLimiter,
>)
    ensures
        res == *rate_limiter,
{
    match rate_limiter {
        Some(limiter) => Some(limiter.share()),
        None => None,
    }
}

/// The request that `reqwest::Client::get` begins on `client` for `url`: a GET
/// request, or one holding an error when `url` is not a valid URL.
pub uninterp spec fn get_request_of(client: reqwest::Client, url: Seq<char>) -> reqwest::RequestBuilder;

/// `reqwest::Client::get`; its result is [`get_request_of`] its arguments.
#[verifier::external_body]
fn reqwest_client_get(client: &reqwest::Client, url: &str) -> (res: reqwest::RequestBuilder)
    ensures
        res == get_request_of(*client, url@),
{
    client.get(url)
}

/// The request that `reqwest::Client::post` begins on `client` for `url`: a POST
/// request, or one holding an error when `url` is not a valid URL.
pub uninterp spec fn post_request_of(client: reqwest::Client, url: Seq<char>) -> reqwest::RequestBuilder;

/// `reqwest::Client::post`; its result is [`post_request_of`] its arguments.
#[verifier::external_body]
fn reqwest_client_post(client: &reqwest::Client, url: &str) -> (res: reqwest::RequestBuilder)
    ensures
        res == post_request_of(*client, url@),
{
    client.post(url)
}

/// The request that `reqwest::Client::put` begins on `client` for `url`: a PUT
/// request, or one holding an error when `url` is not a valid URL.
pub uninterp spec fn put_request_of(client: reqwest::Client, url: Seq<char>) -> reqwest::RequestBuilder;

/// `reqwest::Client::put`; its result is [`put_request_of`] its arguments.
#[verifier::external_body]
fn reqwest_client_put(client: &reqwest::Client, url: &str) -> (res: reqwest::RequestBuilder)
    ensures
        res == put_request_of(*client, url@),
{
    client.put(url)
}

/// The request that `reqwest::Client::patch` begins on `client` for `url`: a PATCH
/// request, or one holding an error when `url` is not a valid URL.
pub uninterp spec fn patch_request_of(client: reqwest::Client, url: Seq<char>) -> reqwest::RequestBuilder;

/// `reqwest::Client::patch`; its result is [`patch_request_of`] its arguments.
#[verifier::external_body]
fn reqwest_client_patch(client: &reqwest::Client, url: &str) -> (res: reqwest::RequestBuilder)
    ensures
        res == patch_request_of(*client, url@),
{
    client.patch(url)
}

/// The request that `reqwest::Client::delete` begins on `client` for `url`: a DELETE
/// request, or one holding an error when `url` is not a valid URL.
pub uninterp spec fn delete_request_of(client: reqwest::Client, url: Seq<char>) -> reqwest::RequestBuilder;

/// `reqwest::Client::delete`; its result is [`delete_request_of`] its arguments.
#[verifier::external_body]
fn reqwest_client_delete(client: &reqwest::Client, url: &str) -> (res: reqwest::RequestBuilder)
    ensures
        res == delete_request_of(*client, url@),
{
    client.delete(url)
}

/// The request that `reqwest::Client::head` begins on `client` for `url`: a HEAD
/// request, or one holding an error when `url` is not a valid URL.
pub uninterp spec fn head_request_of(client: reqwest::Client, url: Seq<char>) -> reqwest::RequestBuilder;

/// `reqwest::Client::head`; its result is [`head_request_of`] its arguments.
#[verifier::external_body]
fn reqwest_client_head(client: &reqwest::Client, url: &str) -> (res: reqwest::RequestBuilder)
    ensures
        res == head_request_of(*client, url@),
{
    client.head(url)
}

/// The request that `reqwest::Client::request` begins on `client` with
/// `method` for `url`, or one holding an error when `url` is not a valid URL.
pub uninterp spec fn method_request_of(
    client: reqwest::Client,
    method: http::Method,
    url: Seq<char>,
) -> reqwest::RequestBuilder;

/// `reqwest::Client::request`; its result is [`method_request_of`] its arguments.
#[verifier::external_body]
fn reqwest_client_request(client: &reqwest::Client, method: http::Method, url: &str) -> (res: reqwest::RequestBuilder)
    ensures
        res == method_request_of(*client, method, url@),
{
    client.request(method, url)
}

impl<MW: ResponseMiddleware + Clone> Client<MW> {
    /// A request of this client around `inner`: it holds a clone of this client
    /// and starts with this client's middleware and rate limiter.
    pub open spec fn starts_request(&self, request: RequestBuilder<MW>) -> bool {
        &&& request.client_of().inner_client() == self.inner_client()
        &&& request.client_of().default_rate_limiter() == self.default_rate_limiter()
        &&& cloned::<MW>(self.response_middleware(), request.client_of().response_middleware())
        &&& cloned::<MW>(request.client_of().response_middleware(), request.middleware_of())
        &&& request.rate_limiter_of() == self.default_rate_limiter()
    }

    /// Begin a GET request.
    pub fn get(&self, url: &str) -> (request: RequestBuilder<MW>)
        ensures
            self.starts_request(request),
            request.inner_request() == Ok::<reqwest::RequestBuilder, reqwest::Error>(
                get_request_of(self.inner_client(), url@),
            ),
    {
        let inner = reqwest_client_get(&self.inner, url);
        RequestBuilder::from_parts(self.clone(), inner)
    }

    /// Begin a POST request.
    pub fn post(&self, url: &str) -> (request: RequestBuilder<MW>)
        ensures
            self.starts_request(request),
            request.inner_request() == Ok::<reqwest::RequestBuilder, reqwest::Error>(
                post_request_of(self.inner_client(), url@),
            ),
    {
        let inner = reqwest_client_post(&self.inner, url);
        RequestBuilder::from_parts(self.clone(), inner)
    }

    /// Begin a PUT request.
    pub fn put(&self, url: &str) -> (request: RequestBuilder<MW>)
        ensures
            self.starts_request(request),
            request.inner_request() == Ok::<reqwest::RequestBuilder, reqwest::Error>(
                put_request_of(self.inner_client(), url@),
            ),
    {
        let inner = reqwest_client_put(&self.inner, url);
        RequestBuilder::from_parts(self.clone(), inner)
    }

    /// Begin a PATCH request.
    pub fn patch(&self, url: &str) -> (request: RequestBuilder<MW>)
        ensures
            self.starts_request(request),
            request.inner_request() == Ok::<reqwest::RequestBuilder, reqwest::Error>(
                patch_request_of(self.inner_client(), url@),
            ),
    {
        let inner = reqwest_client_patch(&self.inner, url);
        RequestBuilder::from_parts(self.clone(), inner)
    }

    /// Begin a DELETE request.
    pub fn delete(&self, url: &str) -> (request: RequestBuilder<MW>)
        ensures
            self.starts_request(request),
            request.inner_request() == Ok::<reqwest::RequestBuilder, reqwest::Error>(
                delete_request_of(self.inner_client(), url@),
            ),
    {
        let inner = reqwest_client_delete(&self.inner, url);
        RequestBuilder::from_parts(self.clone(), inner)
    }

    /// Begin a HEAD request.
    pub fn head(&self, url: &str) -> (request: RequestBuilder<MW>)
        ensures
            self.starts_request(request),
            request.inner_request() == Ok::<reqwest::RequestBuilder, reqwest::Error>(
                head_request_of(self.inner_client(), url@),
            ),
    {
        let inner = reqwest_client_head(&self.inner, url);
        RequestBuilder::from_parts(self.clone(), inner)
    }

    /// Begin a request with an explicit HTTP method.
    pub fn request(&self, method: http::Method, url: &str) -> (request: RequestBuilder<MW>)
        ensures
            self.starts_request(request),
            request.inner_request() == Ok::<reqwest::RequestBuilder, reqwest::Error>(
                method_request_of(self.inner_client(), method, url@),
            ),
    {
        let inner = reqwest_client_request(&self.inner, method, url);
        RequestBuilder::from_parts(self.clone(), inner)
    }

    /// The middleware that every request of this client starts with.
    pub fn middleware(&self) -> (middleware: &MW)
        ensures
            *middleware == self.response_middleware(),
    {
        &self.middleware
    }

    /// The rate limiter that every request of this client starts with.
    pub fn rate_limiter(&self) -> (rate_limiter: Option<SharedRateLimiter>)
        ensures
            rate_limiter == self.default_rate_limiter(),
    {
        share_rate_limiter(&self.rate_limiter)
    }
}

impl Client {
    /// Start building a wrapper client with default middleware.
    pub fn builder() -> (builder: ClientBuilder<NoopResponseMiddleware>)
        ensures
            is_default_client_builder(builder.inner_builder()),
            builder.middleware_of() == NoopResponseMiddleware,
            builder.rate_limiter_of() is None,
    {
        ClientBuilder::new()
    }
}

/// The builder that `reqwest::ClientBuilder::user_agent` makes of `builder`:
/// its User-Agent header set, or an error recorded when the value is invalid.
pub uninterp spec fn user_agent_of(builder: reqwest::ClientBuilder, value: Seq<char>) -> reqwest::ClientBuilder;

/// `reqwest::ClientBuilder::user_agent`; its result is [`user_agent_of`] its arguments.
#[verifier::external_body]
fn reqwest_builder_user_agent(builder: reqwest::ClientBuilder, value: &str) -> (res: reqwest::ClientBuilder)
    ensures
        res == user_agent_of(builder, value@),
{
    builder.user_agent(value)
}

/// The builder that `reqwest::ClientBuilder::default_headers` makes of
/// `builder`: the given headers merged into its default headers.
pub uninterp spec fn default_headers_of(
    builder: reqwest::ClientBuilder,
    headers: http::HeaderMap<http::HeaderValue>,
) -> reqwest::ClientBuilder;

/// `reqwest::ClientBuilder::default_headers`; its result is [`default_headers_of`] its arguments.
#[verifier::external_body]
fn reqwest_builder_default_headers(
    builder: reqwest::ClientBuilder,
    headers: http::HeaderMap<http::HeaderValue>,
) -> (res: reqwest::ClientBuilder)
    ensures
        res == default_headers_of(builder, headers),
{
    builder.default_headers(headers)
}

/// The builder that `reqwest::ClientBuilder::timeout` makes of `builder`: its
/// default request timeout set.
pub uninterp spec fn client_timeout_of(
    builder: reqwest::ClientBuilder,
    timeout: std::time::Duration,
) -> reqwest::ClientBuilder;

/// `reqwest::ClientBuilder::timeout`; its result is [`client_timeout_of`] its arguments.
#[verifier::external_body]
fn reqwest_builder_timeout(
    builder: reqwest::ClientBuilder,
    timeout: std::time::Duration,
) -> (res: reqwest::ClientBuilder)
    ensures
        res == client_timeout_of(builder, timeout),
{
    builder.timeout(timeout)
}

/// `outcome` is one that `reqwest::ClientBuilder::build` can give for
/// `builder`: the client configured as `builder` says, or the error met when a
/// TLS backend or the system resolver configuration could not be loaded. Which
/// one comes back depends on the machine, so this is a relation, not a function.
pub uninterp spec fn is_build_outcome(
    builder: reqwest::ClientBuilder,
    outcome: Result<reqwest::Client, reqwest::Error>,
) -> bool;

/// `reqwest::ClientBuilder::build`; its result is an outcome of building
/// `builder` ([`is_build_outcome`]).
#[verifier::external_body]
fn reqwest_builder_build(builder: reqwest::ClientBuilder) -> (res: Result<reqwest::Client, reqwest::Error>)
    ensures
        is_build_outcome(builder, res),
{
    builder.build()
}

/// Builder for the wrapper client.
pub struct ClientBuilder<MW> {
    inner: reqwest::ClientBuilder,
    middleware: MW,
    rate_limiter: Option<SharedRateLimiter>,
}

impl<MW> ClientBuilder<MW> {
    /// The `reqwest` builder that will make the inner client.
    pub closed spec fn inner_builder(&self) -> reqwest::ClientBuilder {
        self.inner
    }

    /// The middleware that the built client will hand to its requests.
    pub closed spec fn middleware_of(&self) -> MW {
        self.middleware
    }

    /// The rate limiter that the built client will hand to its requests.
    pub closed spec fn rate_limiter_of(&self) -> Option<SharedRateLimiter> {
        self.rate_limiter
    }
}

impl Default for ClientBuilder<NoopResponseMiddleware> {
    fn default() -> (builder: Self)
        ensures
            is_default_client_builder(builder.inner_builder()),
            builder.middleware_of() == NoopResponseMiddleware,
            builder.rate_limiter_of() is None,
    {
        Self::new()
    }
}

impl ClientBuilder<NoopResponseMiddleware> {
    /// Create a new builder with default middleware and no rate limiter.
    pub fn new() -> (builder: Self)
        ensures
            is_default_client_builder(builder.inner_builder()),
            builder.middleware_of() == NoopResponseMiddleware,
            builder.rate_limiter_of() is None,
    {
        ClientBuilder {
            inner: reqwest_client_builder(),
            middleware: NoopResponseMiddleware,
            rate_limiter: None,
        }
    }
}

impl<MW: ResponseMiddleware + Clone> ClientBuilder<MW> {
    /// Wrap an existing `reqwest::ClientBuilder`.
    pub fn from_reqwest_builder(inner: reqwest::ClientBuilder, middleware: MW) -> (builder: Self)
        ensures
            builder.inner_builder() == inner,
            builder.middleware_of() == middleware,
            builder.rate_limiter_of() is None,
    {
        ClientBuilder { inner, middleware, rate_limiter: None }
    }

    /// Configure the underlying `reqwest::ClientBuilder` with `f`.
    pub fn configure<F>(self, f: F) -> (builder: Self) where
        F: FnOnce(reqwest::ClientBuilder) -> reqwest::ClientBuilder,

        requires
            f.requires((self.inner_builder(),)),
        ensures
            f.ensures((self.inner_builder(),), builder.inner_builder()),
            builder.middleware_of() == self.middleware_of(),
            builder.rate_limiter_of() == self.rate_limiter_of(),
    {
        ClientBuilder { inner: f(self.inner), middleware: self.middleware, rate_limiter: self.rate_limiter }
    }

    /// Replace the response middleware for this client.
    pub fn middleware<NewMW>(self, middleware: NewMW) -> (builder: ClientBuilder<NewMW>) where
        NewMW: ResponseMiddleware + Clone,

        ensures
            builder.inner_builder() == self.inner_builder(),
            builder.middleware_of() == middleware,
            builder.rate_limiter_of() == self.rate_limiter_of(),
    {
        ClientBuilder { inner: self.inner, middleware, rate_limiter: self.rate_limiter }
    }

    /// Attach a shared rate limiter used by default for requests.
    pub fn rate_limiter(self, rate_limiter: SharedRateLimiter) -> (builder: ClientBuilder<MW>)
        ensures
            builder.inner_builder() == self.inner_builder(),
            builder.middleware_of() == self.middleware_of(),
            builder.rate_limiter_of() == Some(rate_limiter),
    {
        ClientBuilder { inner: self.inner, middleware: self.middleware, rate_limiter: Some(rate_limiter) }
    }

    /// Set the User-Agent header for all requests.
    pub fn user_agent(self, value: &str) -> (builder: Self)
        ensures
            builder.inner_builder() == user_agent_of(self.inner_builder(), value@),
            builder.middleware_of() == self.middleware_of(),
            builder.rate_limiter_of() == self.rate_limiter_of(),
    {
        ClientBuilder {
            inner: reqwest_builder_user_agent(self.inner, value),
            middleware: self.middleware,
            rate_limiter: self.rate_limiter,
        }
    }

    /// Set default headers for all requests.
    pub fn default_headers(self, headers: http::HeaderMap<http::HeaderValue>) -> (builder: Self)
        ensures
            builder.inner_builder() == default_headers_of(self.inner_builder(), headers),
            builder.middleware_of() == self.middleware_of(),
            builder.rate_limiter_of() == self.rate_limiter_of(),
    {
        ClientBuilder {
            inner: reqwest_builder_default_headers(self.inner, headers),
            middleware: self.middleware,
            rate_limiter: self.rate_limiter,
        }
    }

    /// Set a default request timeout.
    pub fn timeout(self, timeout: std::time::Duration) -> (builder: Self)
        ensures
            builder.inner_builder() == client_timeout_of(self.inner_builder(), timeout),
            builder.middleware_of() == self.middleware_of(),
            builder.rate_limiter_of() == self.rate_limiter_of(),
    {
        ClientBuilder {
            inner: reqwest_builder_timeout(self.inner, timeout),
            middleware: self.middleware,
            rate_limiter: self.rate_limiter,
        }
    }

    /// Build the wrapper client. `reqwest` builds its client from this builder's
    /// configuration; when it succeeds, the wrapper client is
    /// [`ClientBuilder::attach_client`] of that client, and when it fails, its
    /// error is returned unchanged.
    pub fn build(self) -> (res: Result<Client<MW>, reqwest::Error>)
        ensures
            res matches Ok(client) ==> {
                &&& client == self.attached(client.inner_client())
                &&& client.response_middleware() == self.middleware_of()
                &&& client.default_rate_limiter() == self.rate_limiter_of()
            },
            res matches Ok(client) ==> is_build_outcome(
                self.inner_builder(),
                Ok(client.inner_client()),
            ),
            res matches Err(e) ==> is_build_outcome(self.inner_builder(), Err(e)),
            exists|outcome: Result<reqwest::Client, reqwest::Error>|
                is_build_outcome(self.inner_builder(), outcome) && res == self.attached_outcome(
                    outcome,
                ),
    {
        let ghost this = self;
        let ClientBuilder { inner, middleware, rate_limiter } = self;
        let outcome = reqwest_builder_build(inner);
        let ghost reqwest_outcome = outcome;
        let res = Client::from_build_outcome(outcome, middleware, rate_limiter);
        assert(is_build_outcome(this.inner_builder(), reqwest_outcome) && res
            == this.attached_outcome(reqwest_outcome));
        res
    }

    /// What [`ClientBuilder::build`] returns when `reqwest`'s build gives
    /// `outcome`: the client attached to this builder, or the error unchanged.
    pub open spec fn attached_outcome(
        &self,
        outcome: Result<reqwest::Client, reqwest::Error>,
    ) -> Result<Client<MW>, reqwest::Error> {
        match outcome {
            Ok(client) => Ok(self.attached(client)),
            Err(e) => Err(e),
        }
    }

    /// The client that attaching `client` to this builder gives.
    pub closed spec fn attached(&self, client: reqwest::Client) -> Client<MW> {
        Client { inner: client, middleware: self.middleware, rate_limiter: self.rate_limiter }
    }

    /// Attach an existing `reqwest::Client`.
    pub fn attach_client(self, client: reqwest::Client) -> (res: Client<MW>)
        ensures
            res == self.attached(client),
            res.inner_client() == client,
            res.response_middleware() == self.middleware_of(),
            res.default_rate_limiter() == self.rate_limiter_of(),
    {
        Client { inner: client, middleware: self.middleware, rate_limiter: self.rate_limiter }
    }
}

/// The rate limiter given to a client builder is the one that every request of
/// the built client waits for when it is sent, with [`SEND_JITTER_MILLIS`] of
/// jitter; a builder without a limiter gives requests that do not wait.
pub proof fn law_builder_limiter_governs_requests<MW: ResponseMiddleware + Clone>(
    builder: ClientBuilder<MW>,
    inner: reqwest::Client,
    request: RequestBuilder<MW>,
)
    requires
        builder.attached(inner).starts_request(request),
    ensures
        request.rate_limiter_of() == builder.rate_limiter_of(),
        builder.rate_limiter_of() matches Some(limiter) ==> planned_wait(request.rate_limiter_of())
            == Some(RateLimitWait { limiter, max_jitter_millis: SEND_JITTER_MILLIS }),
        builder.rate_limiter_of() is None ==> planned_wait(request.rate_limiter_of()) is None,
{
}

/// Configuring with `f` and then with `g` is configuring once with `g` applied
/// to `f`'s outcome: the `reqwest` builder is an outcome of `g` on an outcome
/// of `f`, and middleware and rate limiter stay. Configuring with a closure that
/// hands its builder back unchanged leaves the whole builder as it was.
pub proof fn law_configure_composes<MW, F, G>(
    first: ClientBuilder<MW>,
    middle: ClientBuilder<MW>,
    last: ClientBuilder<MW>,
    f: F,
    g: G,
) where
    F: FnOnce(reqwest::ClientBuilder) -> reqwest::ClientBuilder,
    G: FnOnce(reqwest::ClientBuilder) -> reqwest::ClientBuilder,

    requires
        f.ensures((first.inner_builder(),), middle.inner_builder()),
        middle.middleware_of() == first.middleware_of(),
        middle.rate_limiter_of() == first.rate_limiter_of(),
        g.ensures((middle.inner_builder(),), last.inner_builder()),
        last.middleware_of() == middle.middleware_of(),
        last.rate_limiter_of() == middle.rate_limiter_of(),
    ensures
        exists|between: reqwest::ClientBuilder|
            f.ensures((first.inner_builder(),), between) && g.ensures(
                (between,),
                last.inner_builder(),
            ),
        last.middleware_of() == first.middleware_of(),
        last.rate_limiter_of() == first.rate_limiter_of(),
        (forall|b: reqwest::ClientBuilder, r: reqwest::ClientBuilder|
            f.ensures((b,), r) ==> r == b) ==> middle == first,
{
    let between = middle.inner_builder();
    assert(f.ensures((first.inner_builder(),), between) && g.ensures((between,), last.inner_builder()));
}

} // verus!
