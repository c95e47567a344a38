//! Response middleware for [crate::Client].
use vstd::prelude::*;

verus! {

/// Intercept a response to apply rate-limit aware behavior.
pub trait ResponseMiddleware {
    type Error;

    /// Inspect or transform the `reqwest` response.
    fn on_response(
        &self,
        response: Result<reqwest::Response, reqwest::Error>,
    ) -> Result<reqwest::Response, Self::Error>;
}

/// Default middleware that returns the response unchanged.
#[derive(Clone, Copy, Default, Debug)]
pub struct NoopResponseMiddleware;

impl ResponseMiddleware for NoopResponseMiddleware {
    type Error = reqwest::Error;

    fn on_response(
        &self,
        response: Result<reqwest::Response, reqwest::Error>,
    ) -> (res: Result<reqwest::Response, reqwest::Error>)
        ensures
            res == response,
    {
        response
    }
}

} // verus!
