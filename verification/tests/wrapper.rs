use governor::{Quota, RateLimiter};
use reqwest_rate_limit::outside::SharedRateLimiter;
use reqwest_rate_limit::reqwest_wrapper::SEND_JITTER_MILLIS;
use reqwest_rate_limit::{Client, ClientBuilder, NoopResponseMiddleware, ResponseMiddleware};
use std::num::NonZeroU32;
use std::sync::Arc;
use std::time::Duration;

fn limiter(per_second: u32) -> SharedRateLimiter {
    SharedRateLimiter(Arc::new(RateLimiter::direct(Quota::per_second(
        NonZeroU32::new(per_second).unwrap(),
    ))))
}

fn same_limiter(a: &SharedRateLimiter, b: &SharedRateLimiter) -> bool {
    Arc::ptr_eq(&a.0, &b.0)
}

fn plain_client() -> Client<NoopResponseMiddleware> {
    ClientBuilder::new().attach_client(reqwest::Client::new())
}

#[test]
fn request_without_limiter_does_not_wait() {
    let client = plain_client();
    assert!(client.rate_limiter().is_none());
    let pending = client.get("http://example.com/").prepare_send();
    assert!(pending.wait.is_none());
}

#[test]
fn builder_limiter_is_waited_for_by_every_method() {
    let shared = limiter(5);
    let client = Client::builder()
        .rate_limiter(SharedRateLimiter(shared.0.clone()))
        .user_agent("reqwest-rate-limit-tests")
        .timeout(Duration::from_secs(5))
        .build()
        .unwrap();
    assert!(same_limiter(client.rate_limiter().as_ref().unwrap(), &shared));
    let requests = vec![
        client.get("http://example.com/a"),
        client.post("http://example.com/a"),
        client.put("http://example.com/a"),
        client.patch("http://example.com/a"),
        client.delete("http://example.com/a"),
        client.head("http://example.com/a"),
        client.request(http::Method::OPTIONS, "http://example.com/a"),
    ];
    for request in requests {
        let wait = request.prepare_send().wait.expect("the client's limiter applies");
        assert!(same_limiter(&wait.limiter, &shared));
        assert_eq!(wait.max_jitter_millis, 50);
    }
}

#[test]
fn with_rate_limiter_overrides_the_client_limiter() {
    let client_limiter = limiter(5);
    let request_limiter = limiter(7);
    let client = ClientBuilder::new()
        .rate_limiter(SharedRateLimiter(client_limiter.0.clone()))
        .attach_client(reqwest::Client::new());
    let pending = client
        .get("http://example.com/")
        .with_rate_limiter(SharedRateLimiter(request_limiter.0.clone()))
        .prepare_send();
    let wait = pending.wait.unwrap();
    assert!(same_limiter(&wait.limiter, &request_limiter));
    assert!(!same_limiter(&wait.limiter, &client_limiter));
}

#[test]
fn with_rate_limiter_on_a_client_without_limiter() {
    let request_limiter = limiter(3);
    let pending = plain_client()
        .delete("http://example.com/x")
        .with_rate_limiter(SharedRateLimiter(request_limiter.0.clone()))
        .prepare_send();
    assert!(same_limiter(&pending.wait.unwrap().limiter, &request_limiter));
}

#[test]
fn setters_keep_the_limiter() {
    let shared = limiter(5);
    let client = ClientBuilder::new()
        .rate_limiter(SharedRateLimiter(shared.0.clone()))
        .attach_client(reqwest::Client::new());
    let pending = client
        .post("http://example.com/files")
        .header("content-type", "application/json")
        .bearer_auth("token")
        .basic_auth("user", Some("pass"))
        .body(reqwest::Body::from("{\"a\":1}"))
        .timeout(Duration::from_secs(3))
        .version(http::Version::HTTP_11)
        .query(&[("page", "2")])
        .prepare_send();
    assert!(same_limiter(&pending.wait.unwrap().limiter, &shared));
}

#[test]
fn try_clone_keeps_the_limiter() {
    let shared = limiter(5);
    let client = ClientBuilder::new()
        .rate_limiter(SharedRateLimiter(shared.0.clone()))
        .attach_client(reqwest::Client::new());
    let original = client.post("http://example.com/").body(reqwest::Body::from("text"));
    let copy = original.try_clone().expect("a text body can be cloned");
    let wait = copy.prepare_send().wait.expect("the copy is sent under the same limiter");
    assert!(same_limiter(&wait.limiter, &shared));
    assert!(original.prepare_send().wait.is_some());
}

#[test]
fn try_clone_keeps_the_request() {
    let copy = plain_client()
        .put("http://example.com/files/1?x=1")
        .header("x-demo", "yes")
        .try_clone()
        .unwrap();
    let request = copy.build().unwrap();
    assert_eq!(request.method(), http::Method::PUT);
    assert_eq!(request.url().as_str(), "http://example.com/files/1?x=1");
    assert_eq!(request.headers()["x-demo"], "yes");
}

#[test]
fn methods_reach_the_built_request() {
    let client = plain_client();
    let cases = vec![
        (client.get("http://example.com/m"), http::Method::GET),
        (client.post("http://example.com/m"), http::Method::POST),
        (client.put("http://example.com/m"), http::Method::PUT),
        (client.patch("http://example.com/m"), http::Method::PATCH),
        (client.delete("http://example.com/m"), http::Method::DELETE),
        (client.head("http://example.com/m"), http::Method::HEAD),
        (client.request(http::Method::TRACE, "http://example.com/m"), http::Method::TRACE),
    ];
    for (builder, method) in cases {
        let request = builder.build().unwrap();
        assert_eq!(request.method(), method);
        assert_eq!(request.url().as_str(), "http://example.com/m");
    }
}

#[test]
fn request_settings_reach_the_built_request() {
    let request = plain_client()
        .get("http://example.com/search")
        .query(&[("foo", "a"), ("foo", "b")])
        .header("x-demo", "wrapper")
        .bearer_auth("secret")
        .timeout(Duration::from_secs(9))
        .version(http::Version::HTTP_10)
        .build()
        .unwrap();
    assert_eq!(request.url().query(), Some("foo=a&foo=b"));
    assert_eq!(request.headers()["x-demo"], "wrapper");
    assert_eq!(request.headers()["authorization"], "Bearer secret");
    assert_eq!(request.timeout(), Some(&Duration::from_secs(9)));
    assert_eq!(request.version(), http::Version::HTTP_10);
}

#[test]
fn basic_auth_reaches_the_built_request() {
    let request = plain_client()
        .get("http://example.com/")
        .basic_auth("admin", Some("good password"))
        .build()
        .unwrap();
    assert_eq!(
        request.headers()["authorization"],
        "Basic YWRtaW46Z29vZCBwYXNzd29yZA=="
    );
}

#[test]
fn headers_replace_reaches_the_built_request() {
    let mut headers = http::HeaderMap::new();
    headers.insert("accept", http::HeaderValue::from_static("application/json"));
    let request = plain_client().get("http://example.com/").headers(headers).build().unwrap();
    assert_eq!(request.headers()["accept"], "application/json");
}

#[test]
fn form_and_json_set_body_and_content_type() {
    let form = plain_client()
        .post("http://example.com/")
        .form(&[("lang", "rust")])
        .build()
        .unwrap();
    assert_eq!(form.headers()["content-type"], "application/x-www-form-urlencoded");
    assert_eq!(form.body().unwrap().as_bytes(), Some(&b"lang=rust"[..]));

    let mut map = serde_json::Map::new();
    map.insert("a".to_string(), serde_json::Value::from(1));
    let value = serde_json::Value::Object(map);
    let json = plain_client().post("http://example.com/").json(&value).build().unwrap();
    assert_eq!(json.headers()["content-type"], "application/json");
    assert_eq!(json.body().unwrap().as_bytes(), Some(&b"{\"a\":1}"[..]));
}

#[test]
fn multipart_sets_content_type() {
    let form = reqwest::multipart::Form::new().text("key", "value");
    let request = plain_client().post("http://example.com/").multipart(form).build().unwrap();
    let content_type = request.headers()["content-type"].to_str().unwrap().to_string();
    assert!(content_type.starts_with("multipart/form-data; boundary="));
}

#[test]
fn body_reaches_the_built_request() {
    let request = plain_client()
        .post("http://example.com/")
        .body(reqwest::Body::from("{\"description\":\"example\"}"))
        .build()
        .unwrap();
    assert_eq!(request.body().unwrap().as_bytes(), Some(&b"{\"description\":\"example\"}"[..]));
}

#[test]
fn invalid_header_makes_build_fail() {
    let result = plain_client().get("http://example.com/").header("bad header", "x").build();
    assert!(result.is_err());
}

#[test]
fn noop_middleware_passes_the_response_through() {
    let response = reqwest::Response::from(
        http::Response::builder().status(418).body("teapot").unwrap(),
    );
    let passed = NoopResponseMiddleware.on_response(Ok(response)).unwrap();
    assert_eq!(passed.status().as_u16(), 418);
}

#[test]
fn noop_middleware_passes_the_error_through() {
    let error = plain_client().get("not a url").build().unwrap_err();
    let message = error.to_string();
    let passed = NoopResponseMiddleware.on_response(Err(error)).unwrap_err();
    assert_eq!(passed.to_string(), message);
    assert!(passed.is_builder());
}

#[derive(Clone, Debug, PartialEq)]
struct StatusMiddleware {
    tag: u32,
}

impl ResponseMiddleware for StatusMiddleware {
    type Error = String;

    fn on_response(
        &self,
        response: Result<reqwest::Response, reqwest::Error>,
    ) -> Result<reqwest::Response, String> {
        match response {
            Ok(r) if r.status().is_success() => Ok(r),
            Ok(r) => Err(format!("{}:{}", self.tag, r.status().as_u16())),
            Err(e) => Err(format!("{}:{}", self.tag, e)),
        }
    }
}

#[test]
fn custom_middleware_reaches_requests() {
    let client = Client::builder()
        .middleware(StatusMiddleware { tag: 7 })
        .build()
        .unwrap();
    assert_eq!(client.middleware(), &StatusMiddleware { tag: 7 });
    let pending = client.get("http://example.com/").prepare_send();
    assert_eq!(pending.response_middleware, StatusMiddleware { tag: 7 });
    let refused = reqwest::Response::from(http::Response::builder().status(429).body("").unwrap());
    assert_eq!(pending.response_middleware.on_response(Ok(refused)).unwrap_err(), "7:429");
}

#[test]
fn from_reqwest_builder_and_configure() {
    let client = ClientBuilder::from_reqwest_builder(
        reqwest::Client::builder(),
        StatusMiddleware { tag: 1 },
    )
    .configure(|b| b.timeout(Duration::from_secs(10)).pool_max_idle_per_host(8))
    .default_headers(http::HeaderMap::new())
    .build()
    .unwrap();
    assert!(client.rate_limiter().is_none());
    assert_eq!(client.middleware().tag, 1);
}

#[test]
fn middleware_swap_keeps_the_limiter() {
    let shared = limiter(2);
    let client = Client::builder()
        .rate_limiter(SharedRateLimiter(shared.0.clone()))
        .middleware(StatusMiddleware { tag: 3 })
        .build()
        .unwrap();
    assert!(same_limiter(client.rate_limiter().as_ref().unwrap(), &shared));
    assert_eq!(client.middleware().tag, 3);
}

#[test]
fn default_builder_matches_new() {
    let client = ClientBuilder::default().build().unwrap();
    assert!(client.rate_limiter().is_none());
    assert!(client.get("http://example.com/").prepare_send().wait.is_none());
}

#[test]
fn jitter_bound_is_fifty_millis() {
    assert_eq!(SEND_JITTER_MILLIS, 50);
}

#[test]
fn cloned_client_keeps_limiter() {
    let shared = limiter(4);
    let client = ClientBuilder::new()
        .rate_limiter(SharedRateLimiter(shared.0.clone()))
        .attach_client(reqwest::Client::new());
    let copy = client.clone();
    assert!(same_limiter(copy.rate_limiter().as_ref().unwrap(), &shared));
}

#[test]
fn invalid_user_agent_makes_client_build_fail() {
    let result = Client::builder().user_agent("bad\nagent").build();
    assert!(result.is_err());
    assert!(result.unwrap_err().is_builder());
}

#[test]
fn headers_replace_all_headers() {
    let mut headers = http::HeaderMap::new();
    headers.insert("x-b", http::HeaderValue::from_static("2"));
    let request = plain_client()
        .get("http://example.com/")
        .header("x-a", "1")
        .headers(headers)
        .build()
        .unwrap();
    assert!(request.headers().get("x-a").is_none());
    assert_eq!(request.headers()["x-b"], "2");
    assert_eq!(request.headers().len(), 1);
}

#[test]
fn headers_keep_the_limiter_and_an_earlier_error() {
    let shared = limiter(5);
    let client = ClientBuilder::new()
        .rate_limiter(SharedRateLimiter(shared.0.clone()))
        .attach_client(reqwest::Client::new());
    let failed = client
        .get("http://example.com/")
        .header("bad header", "x")
        .headers(http::HeaderMap::new());
    let pending = failed.prepare_send();
    assert!(same_limiter(&pending.wait.unwrap().limiter, &shared));
    assert!(pending.request.unwrap_err().is_builder());
}

#[test]
fn build_outcome_passes_reqwest_error_through() {
    let error = plain_client().get("not a url").build().unwrap_err();
    let message = error.to_string();
    let result = Client::from_build_outcome(Err(error), NoopResponseMiddleware, None);
    assert_eq!(result.unwrap_err().to_string(), message);
    let ok = Client::from_build_outcome(Ok(reqwest::Client::new()), NoopResponseMiddleware, Some(limiter(1)));
    assert!(ok.unwrap().rate_limiter().is_some());
}

#[test]
fn try_clone_of_a_failed_request_is_none() {
    let failed = plain_client().get("http://example.com/").header("bad header", "x");
    assert!(failed.try_clone().is_none());
}
