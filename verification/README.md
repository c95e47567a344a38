# reqwest_rate_limit

Rate-limit helpers and a wrapper client for `reqwest`, verified with Verus.

- `src/` is the verified library. `Client`, `ClientBuilder` and
  `RequestBuilder` carry a `reqwest` value, a response middleware and an
  optional shared `governor` rate limiter (`SharedRateLimiter`). Their
  contracts state which middleware and which limiter every request starts
  with, how `with_rate_limiter` overrides it, that `try_clone` keeps it, and,
  through `RequestBuilder::prepare_send`, what `send` waits for before the
  request goes out (`planned_wait`). Calls into `reqwest` stand behind small
  trusted wrappers next to the functions that use them; each names what
  reqwest returns (`header_of`, `get_request_of`, `build_of`, ...), and the
  library's contracts say which reqwest call shapes each value.
- `app/` holds the asynchronous edges: `send_with_rate_limiter`,
  `send_with_rate_limiter_and_middleware`, and the extension trait
  `RequestBuilderExt` with `send` and `with_rate_limiter_owned`.
- `tests/` exercises the library against real `reqwest` and `governor`
  values, without network access.

`reqwest` is used with its default features (TLS through rustls, HTTP/2,
system proxies) and with `json`, `form`, `query` and `multipart` always on.
