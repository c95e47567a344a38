//! Wrapper for reqwest with hooks for rate limiting and response middleware.
pub mod client;
pub mod middleware;
pub mod request_builder;

pub use client::{Client, ClientBuilder};
pub use middleware::{NoopResponseMiddleware, ResponseMiddleware};
pub use request_builder::{planned_wait, PendingSend, RateLimitWait, RequestBuilder, SEND_JITTER_MILLIS};
