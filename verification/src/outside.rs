//! The types of `reqwest`, `http`, `serde_json` and `governor` that the
//! wrapper carries from one call to the next, held whole and never looked into.
use reqwest::Client as HttpClient;
use reqwest::ClientBuilder as HttpClientBuilder;
use reqwest::RequestBuilder as HttpRequestBuilder;
use vstd::prelude::*;

verus! {

/// The response of a request (`reqwest::Response`).
#[verifier::external_type_specification]
#[verifier::external_body]
pub struct OutsideResponse(reqwest::Response);

/// An error of `reqwest` (`reqwest::Error`).
#[verifier::external_type_specification]
#[verifier::external_body]
pub struct OutsideError(reqwest::Error);

/// A `reqwest` client (`reqwest::Client`).
#[verifier::external_type_specification]
#[verifier::external_body]
pub struct OutsideClient(HttpClient);

/// A `reqwest` client builder (`reqwest::ClientBuilder`).
#[verifier::external_type_specification]
#[verifier::external_body]
pub struct OutsideClientBuilder(HttpClientBuilder);

/// A `reqwest` request builder (`reqwest::RequestBuilder`).
#[verifier::external_type_specification]
#[verifier::external_body]
pub struct OutsideRequestBuilder(HttpRequestBuilder);

/// A built request (`reqwest::Request`).
#[verifier::external_type_specification]
#[verifier::external_body]
pub struct OutsideRequest(reqwest::Request);

/// A request body (`reqwest::Body`).
#[verifier::external_type_specification]
#[verifier::external_body]
pub struct OutsideBody(reqwest::Body);

/// An HTTP method (`http::Method`).
#[verifier::external_type_specification]
#[verifier::external_body]
pub struct OutsideMethod(http::Method);

/// An HTTP version (`http::Version`).
#[verifier::external_type_specification]
#[verifier::external_body]
pub struct OutsideVersion(http::Version);

/// A multipart form body (`reqwest::multipart::Form`).
#[verifier::external_type_specification]
#[verifier::external_body]
pub struct OutsideForm(reqwest::multipart::Form);

/// A JSON value (`serde_json::Value`).
#[verifier::external_type_specification]
#[verifier::external_body]
pub struct OutsideJsonValue(serde_json::Value);

/// A header value (`http::HeaderValue`).
#[verifier::external_type_specification]
#[verifier::external_body]
pub struct OutsideHeaderValue(http::HeaderValue);

/// A header map (`http::HeaderMap`).
#[verifier::external_type_specification]
#[verifier::external_body]
#[verifier::reject_recursive_types(T)]
pub struct OutsideHeaderMap<T>(http::HeaderMap<T>);

/// A shared handle to a `governor` rate limiter: an `Arc` of the limiter.
/// Handles are cloned by `Arc::clone`, so two handles are equal when one is a
/// clone of the other: they point at the same limiter and share its state.
#[verifier::external_body]
#[derive(Debug)]
pub struct SharedRateLimiter(pub std::sync::Arc<governor::DefaultDirectRateLimiter>);

impl SharedRateLimiter {
    /// Another handle to the same limiter: `Arc::clone` of the inner pointer.
    /// Claimed: the new handle equals this one.
    #[verifier::external_body]
    pub(crate) fn share(&self) -> (handle: SharedRateLimiter)
        ensures
            handle == *self,
    {
        SharedRateLimiter(std::sync::Arc::clone(&self.0))
    }
}

} // verus!
