//! Rate limiting helpers and optional wrapper ergonomics for `reqwest`.
//!
//! The wrapper client keeps `reqwest` at the centre: a [`Client`] carries a
//! `reqwest::Client`, a response middleware and an optional shared rate
//! limiter; every [`RequestBuilder`] it creates starts from the client's
//! middleware and rate limiter, and may override the rate limiter per request.
//! What `send` does before and after the network round trip is decided by
//! [`RequestBuilder::prepare_send`] and [`PendingSend`].
pub mod outside;
pub mod reqwest_wrapper;

/// Re-exported for convenience when constructing rate limiters.
pub use governor;
/// A shared handle to a `governor` rate limiter.
pub use outside::SharedRateLimiter;
/// Wrapper client that layers rate limiting and middleware hooks over `reqwest`.
pub use reqwest_wrapper::{
    Client, ClientBuilder, NoopResponseMiddleware, PendingSend, RateLimitWait, RequestBuilder,
    ResponseMiddleware,
};
