//! The HTTP request path: configuration, signing, delivery and retry.
//!
//! Building the URL and the authentication headers is verified here; the
//! delivery itself goes through the [`HttpTransport`] trait, which the
//! host program implements with a real HTTP client and tests implement
//! with fakes. Failed deliveries are retried a configured number of
//! times with a fixed delay; an undecodable body is never retried, so
//! decoding stays outside the retry loop.

use crate::auth::AuthMethod;
use crate::auth::SignedHeaders;
use crate::decimal::dec_str;
use crate::time::timestamp_now;
use crate::time::SpanDuration;
use crate::url::apply_ops;
use crate::url::build_url_with;
use crate::url::spec_url_path;
use crate::url::spec_url_query_pairs;
use crate::url::url_path;
use crate::url::url_query_pairs;
use crate::url::BuildUrl;
use crate::url::UrlBuildError;
use vstd::prelude::*;

verus! {

/// Binds a request type to the response type its endpoint returns.
pub trait Request {
    type Response;
}

/// HTTP client knobs, all in whole milliseconds.
#[derive(Debug, Clone)]
pub struct HttpConfig {
    /// an HTTP request fails if no bytes were read for this long
    pub http_read_timeout: SpanDuration,
    /// how long to wait after a failed request before the next attempt
    pub http_retry_after: SpanDuration,
    /// how many retries a failed request gets
    pub http_retry_attempts: u32,
}

impl Default for HttpConfig {
    fn default() -> (r: HttpConfig)
        ensures
            r.http_read_timeout.millis == 15_000,
            r.http_retry_after.millis == 5_000,
            r.http_retry_attempts == 5,
    {
        HttpConfig {
            http_read_timeout: SpanDuration { millis: 15_000 },
            http_retry_after: SpanDuration { millis: 5_000 },
            http_retry_attempts: 5,
        }
    }
}

/// Where requests go and how they are signed.
pub struct ApiConfig {
    pub base_url: url::Url,
    pub auth: AuthMethod,
}

/// Delivers one signed GET and waits out retry delays. The host program
/// implements this with its HTTP client; tests implement it with fakes.
/// Nothing is assumed about either: every caller must hold for every
/// possible outcome.
pub trait HttpTransport {
    /// One delivery attempt: the response body, or a transport error
    /// description.
    fn get(&mut self, u: &url::Url, headers: &SignedHeaders) -> Result<String, String>;

    /// Blocks for `delay` between attempts.
    fn wait(&mut self, delay: SpanDuration);
}

/// What went wrong between building a URL and receiving a body.
#[derive(Debug, Clone)]
pub enum HttpError {
    /// The request could not be resolved to a URL.
    UrlBuild(UrlBuildError),
    /// Every delivery attempt failed; the last error, and how many
    /// attempts were made.
    Transport { detail: String, attempts: u64 },
}

/// One fallible decision of the retry policy.
#[derive(Debug)]
pub enum RetryDecision {
    /// Wait this long, then try again.
    RetryAfter(SpanDuration),
    /// The attempt budget is spent; fail with the last error.
    GiveUp,
}

/// The retry budget of one request: how many failed deliveries may still
/// be retried, and the delay between attempts.
pub struct RetryPolicy {
    pub attempts_left: u32,
    pub retry_after: SpanDuration,
}

impl RetryPolicy {
    /// A fresh budget from the configuration.
    pub fn new(config: &HttpConfig) -> (r: RetryPolicy)
        ensures
            r.attempts_left == config.http_retry_attempts,
            r.retry_after == config.http_retry_after,
    {
        RetryPolicy {
            attempts_left: config.http_retry_attempts,
            retry_after: config.http_retry_after,
        }
    }

    /// Decides what a failed delivery gets: one retry, after the fixed
    /// delay, while any budget is left, and a give-up once it is spent.
    /// Exactly `http_retry_attempts` failures are retried before the
    /// give-up.
    pub fn on_failure(&mut self) -> (d: RetryDecision)
        ensures
            old(self).attempts_left > 0 ==> (d matches RetryDecision::RetryAfter(delay) && delay
                == old(self).retry_after) && final(self).attempts_left == old(self).attempts_left
                - 1 && final(self).retry_after == old(self).retry_after,
            old(self).attempts_left == 0 ==> d is GiveUp && *final(self) == *old(self),
    {
        if self.attempts_left > 0 {
            self.attempts_left = self.attempts_left - 1;
            RetryDecision::RetryAfter(self.retry_after)
        } else {
            RetryDecision::GiveUp
        }
    }
}

/// Sends signed GET requests for one API, resolving each request against
/// its context.
pub struct ApiRequester<C, T> {
    config: ApiConfig,
    transport: T,
    context: C,
    http_config: HttpConfig,
}

impl<C, T: HttpTransport> ApiRequester<C, T> {
    pub closed spec fn ctx(&self) -> C {
        self.context
    }

    pub closed spec fn api_config(&self) -> ApiConfig {
        self.config
    }

    pub closed spec fn http_config(&self) -> HttpConfig {
        self.http_config
    }

    pub fn new(config: ApiConfig, http_config: HttpConfig, transport: T, context: C) -> (r:
        ApiRequester<C, T>)
        ensures
            r.ctx() == context,
            r.api_config() == config,
            r.http_config() == http_config,
    {
        ApiRequester { config, transport, context, http_config }
    }

    /// The context requests resolve against.
    pub fn context(&self) -> (r: &C)
        ensures
            *r == self.ctx(),
    {
        &self.context
    }

    /// Resolves a request to its URL; no I/O. The URL is pinned: on
    /// success it is exactly the fold of the request's operations over
    /// the configured base, so equal inputs resolve to equal URLs, and a
    /// failure can only mean the request could not be resolved or one of
    /// its operations failed on the base.
    pub fn build_url<B: BuildUrl<C> + ?Sized>(&self, with: &B) -> (r: Result<
        url::Url,
        UrlBuildError,
    >)
        requires
            with.build_req(&self.ctx()),
        ensures
            r matches Ok(u) ==> (with.spec_ops(&self.ctx()) matches Some(ops) && apply_ops(
                self.api_config().base_url,
                ops,
            ) == Some(u)),
            r is Err ==> with.spec_ops(&self.ctx()) is None || (with.spec_ops(&self.ctx())
                matches Some(ops) && apply_ops(self.api_config().base_url, ops) is None),
    {
        build_url_with(&self.config.base_url, with, &self.context)
    }

    /// The authentication headers one signed GET to `u` carries at
    /// `timestamp_ms`: the API key, the timestamp in base 10, and the
    /// signature over the URL's path and decoded query — a function of
    /// the configured keys, the URL and the timestamp alone.
    pub fn signed_get_headers(&self, u: &url::Url, timestamp_ms: u64) -> (h: SignedHeaders)
        ensures
            h.key@ == self.api_config().auth.api_key_view(),
            h.sign_timestamp@ == dec_str(timestamp_ms as int),
            h.signature@ == crate::auth::spec_signature(
                self.api_config().auth.secret_key_view(),
                "GET"@,
                spec_url_path(*u),
                spec_url_query_pairs(*u),
                timestamp_ms,
            ),
    {
        let pairs = url_query_pairs(u);
        let path = url_path(u);
        match self.config.auth.apply("GET", path.as_str(), pairs, timestamp_ms) {
            Ok(headers) => headers,
            Err(_) => {
                proof {
                    assert(false);
                }
                SignedHeaders {
                    key: String::new(),
                    signature: String::new(),
                    sign_timestamp: String::new(),
                }
            },
        }
    }

    /// One signed delivery: computes `signed_get_headers` for `u` at the
    /// current time — that contract pins exactly what the transport is
    /// handed — and passes URL and headers to the transport in one call.
    /// Transport errors surface immediately; this layer never retries,
    /// and what comes back is the transport's to decide.
    pub fn get_string(&mut self, u: &url::Url) -> (r: Result<String, String>)
        ensures
            final(self).ctx() == old(self).ctx(),
            final(self).api_config() == old(self).api_config(),
            final(self).http_config() == old(self).http_config(),
    {
        let timestamp_ms = timestamp_now();
        let headers = self.signed_get_headers(u, timestamp_ms);
        self.transport.get(u, &headers)
    }

    /// Delivers with retry: attempts until one succeeds or the budget is
    /// spent, waiting the configured delay between attempts. Returns the
    /// body, or the last error together with how many attempts were made:
    /// on a spent budget that is exactly `http_retry_attempts + 1`.
    #[verifier::loop_isolation(false)]
    pub fn get_with_retry(&mut self, u: &url::Url) -> (r: (Result<String, String>, u64))
        ensures
            r.0 is Err ==> r.1 == old(self).http_config().http_retry_attempts + 1,
            r.0 is Ok ==> 1 <= r.1 <= old(self).http_config().http_retry_attempts + 1,
    {
        let mut policy = RetryPolicy::new(&self.http_config);
        let mut attempts: u64 = 0;
        loop
            invariant
                self.http_config() == old(self).http_config(),
                attempts + policy.attempts_left == old(self).http_config().http_retry_attempts,
            decreases policy.attempts_left,
        {
            match self.get_string(u) {
                Ok(body) => {
                    return (Ok(body), attempts + 1);
                },
                Err(err) => {
                    match policy.on_failure() {
                        RetryDecision::RetryAfter(delay) => {
                            attempts = attempts + 1;
                            self.transport.wait(delay);
                        },
                        RetryDecision::GiveUp => {
                            return (Err(err), attempts + 1);
                        },
                    }
                },
            }
        }
    }

    /// Builds the request's URL once, then delivers it with retry. On
    /// success the body is returned as JSON text: decoding it into the
    /// request's response type is the host program's step, since it needs
    /// the serde machinery. Retries apply only to failed delivery, never
    /// to an undecodable body.
    pub fn get_json<B: BuildUrl<C> + ?Sized>(&mut self, build_url: &B) -> (r: Result<
        String,
        HttpError,
    >)
        requires
            build_url.build_req(&old(self).ctx()),
        ensures
            build_url.spec_ops(&old(self).ctx()) is None ==> (r matches Err(
                HttpError::UrlBuild(_),
            )),
            r is Ok ==> build_url.spec_ops(&old(self).ctx()) is Some,
            r is Ok ==> (build_url.spec_ops(&old(self).ctx()) matches Some(ops) && apply_ops(
                old(self).api_config().base_url,
                ops,
            ) is Some),
            r matches Err(HttpError::Transport { detail, attempts }) ==> attempts == old(
                self,
            ).http_config().http_retry_attempts + 1,
            r matches Err(HttpError::UrlBuild(_)) ==> build_url.spec_ops(&old(self).ctx()) is None
                || (build_url.spec_ops(&old(self).ctx()) matches Some(ops) && apply_ops(
                old(self).api_config().base_url,
                ops,
            ) is None),
    {
        let u = match self.build_url(build_url) {
            Ok(u) => u,
            Err(e) => {
                return Err(HttpError::UrlBuild(e));
            },
        };
        match self.get_with_retry(&u) {
            (Ok(body), _) => Ok(body),
            (Err(detail), attempts) => Err(HttpError::Transport { detail, attempts }),
        }
    }
}

} // verus!
