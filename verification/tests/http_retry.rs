//! The HTTP retry policy, observed through fake transports.

use poloniex_connect::auth::AuthMethod;
use poloniex_connect::auth::SignedHeaders;
use poloniex_connect::http::ApiConfig;
use poloniex_connect::http::ApiRequester;
use poloniex_connect::http::HttpConfig;
use poloniex_connect::http::HttpError;
use poloniex_connect::http::HttpTransport;
use poloniex_connect::http::RetryDecision;
use poloniex_connect::http::RetryPolicy;
use poloniex_connect::interval::Interval;
use poloniex_connect::interval::IntervalKind;
use poloniex_connect::context::PoloniexContext;
use poloniex_connect::rest::candles::CandlesRequest;
use poloniex_connect::time::SpanDuration;

/// Fails the first `fail_first` deliveries, then succeeds; counts calls
/// and records every wait.
struct FlakyTransport {
    calls: u32,
    fail_first: u32,
    waits: Vec<u64>,
}

impl HttpTransport for FlakyTransport {
    fn get(&mut self, _u: &url::Url, _headers: &SignedHeaders) -> Result<String, String> {
        self.calls += 1;
        if self.calls <= self.fail_first {
            Err(format!("transport down ({})", self.calls))
        } else {
            Ok("[]".to_owned())
        }
    }

    fn wait(&mut self, delay: SpanDuration) {
        self.waits.push(delay.millis);
    }
}

fn config() -> ApiConfig {
    ApiConfig {
        base_url: url::Url::parse("https://api.poloniex.com").unwrap(),
        auth: AuthMethod::HmacSha256 {
            api_key: "test-key".to_owned(),
            secret_key: "test-secret".to_owned(),
        },
    }
}

fn http_config(retries: u32) -> HttpConfig {
    HttpConfig {
        http_read_timeout: SpanDuration { millis: 15_000 },
        http_retry_after: SpanDuration { millis: 250 },
        http_retry_attempts: retries,
    }
}

fn candles_request() -> CandlesRequest {
    CandlesRequest {
        symbol: "BTC_USDT".to_owned(),
        interval: Interval {
            kind: IntervalKind::Minute,
            value: 1,
        },
        limit: Some(1),
        start_time: None,
        end_time: None,
    }
}

#[test]
fn always_failing_transport_is_retried_exactly_retry_attempts_times() {
    let context = PoloniexContext::init(false).unwrap();
    let transport = FlakyTransport {
        calls: 0,
        fail_first: u32::MAX,
        waits: Vec::new(),
    };
    let mut requester = ApiRequester::new(config(), http_config(3), transport, context);
    let err = requester.get_json(&candles_request()).unwrap_err();
    match err {
        HttpError::Transport { detail, attempts } => {
            // 1 initial attempt + 3 retries.
            assert_eq!(attempts, 4);
            // The error is the last attempt's.
            assert_eq!(detail, "transport down (4)");
        }
        other => panic!("wrong error: {other:?}"),
    }
}

/// Always fails; shares its call and wait log with the test.
struct SharedLogTransport {
    log: std::rc::Rc<std::cell::RefCell<(u32, Vec<u64>)>>,
}

impl HttpTransport for SharedLogTransport {
    fn get(&mut self, _u: &url::Url, _headers: &SignedHeaders) -> Result<String, String> {
        self.log.borrow_mut().0 += 1;
        Err("transport down".to_owned())
    }

    fn wait(&mut self, delay: SpanDuration) {
        self.log.borrow_mut().1.push(delay.millis);
    }
}

#[test]
fn each_retry_waits_the_configured_delay() {
    let context = PoloniexContext::init(false).unwrap();
    let log = std::rc::Rc::new(std::cell::RefCell::new((0, Vec::new())));
    let transport = SharedLogTransport { log: log.clone() };
    let mut requester = ApiRequester::new(config(), http_config(2), transport, context);
    let (result, attempts) = requester
        .get_with_retry(&url::Url::parse("https://api.poloniex.com/markets").unwrap());
    assert!(result.is_err());
    assert_eq!(attempts, 3);
    let (calls, waits) = log.borrow().clone();
    assert_eq!(calls, 3);
    assert_eq!(waits, vec![250, 250]);
}

#[test]
fn success_after_failures_stops_retrying() {
    let context = PoloniexContext::init(false).unwrap();
    let transport = FlakyTransport {
        calls: 0,
        fail_first: 2,
        waits: Vec::new(),
    };
    let mut requester = ApiRequester::new(config(), http_config(5), transport, context);
    let body = requester.get_json(&candles_request()).unwrap();
    assert_eq!(body, "[]");
}

#[test]
fn retry_policy_counts_down_and_gives_up() {
    let mut policy = RetryPolicy::new(&http_config(2));
    assert!(matches!(
        policy.on_failure(),
        RetryDecision::RetryAfter(SpanDuration { millis: 250 })
    ));
    assert!(matches!(
        policy.on_failure(),
        RetryDecision::RetryAfter(SpanDuration { millis: 250 })
    ));
    assert!(matches!(policy.on_failure(), RetryDecision::GiveUp));
    assert!(matches!(policy.on_failure(), RetryDecision::GiveUp));
}

#[test]
fn signed_headers_cover_the_urls_path_and_query() {
    let context = PoloniexContext::init(false).unwrap();
    let requester = ApiRequester::new(
        config(),
        http_config(0),
        FlakyTransport {
            calls: 0,
            fail_first: 0,
            waits: Vec::new(),
        },
        context,
    );
    let url = url::Url::parse(
        "https://api.poloniex.com/markets/BTC_USDT/candles?interval=MINUTE_1&limit=10",
    )
    .unwrap();
    let headers = requester.signed_get_headers(&url, 1738700743000);
    // The same headers the signer computes on the URL's path and decoded
    // query directly.
    let expected = AuthMethod::HmacSha256 {
        api_key: "test-key".to_owned(),
        secret_key: "test-secret".to_owned(),
    }
    .apply(
        "GET",
        "/markets/BTC_USDT/candles",
        vec![
            ("interval".to_owned(), "MINUTE_1".to_owned()),
            ("limit".to_owned(), "10".to_owned()),
        ],
        1738700743000,
    )
    .unwrap();
    assert_eq!(headers.key, expected.key);
    assert_eq!(headers.sign_timestamp, expected.sign_timestamp);
    assert_eq!(headers.signature, expected.signature);
}

#[test]
fn default_config_values() {
    let config = HttpConfig::default();
    assert_eq!(config.http_read_timeout.millis, 15_000);
    assert_eq!(config.http_retry_after.millis, 5_000);
    assert_eq!(config.http_retry_attempts, 5);
    assert_eq!(SpanDuration::from_secs(15).millis, 15_000);
}
