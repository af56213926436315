//! URL building: exact request URLs, builder state machine, rendering.

use poloniex_connect::auth::AuthMethod;
use poloniex_connect::context::PoloniexContext;
use poloniex_connect::decimal::u64_to_string;
use poloniex_connect::http::ApiConfig;
use poloniex_connect::http::ApiRequester;
use poloniex_connect::http::HttpConfig;
use poloniex_connect::http::HttpTransport;
use poloniex_connect::interval::Interval;
use poloniex_connect::interval::IntervalKind;
use poloniex_connect::rest::candles::CandlesRequest;
use poloniex_connect::time::SpanDuration;
use poloniex_connect::url::build_url_with;
use poloniex_connect::url::UrlBuildError;
use poloniex_connect::url::UrlBuilder;

struct NoTransport;

impl HttpTransport for NoTransport {
    fn get(
        &mut self,
        _u: &url::Url,
        _headers: &poloniex_connect::auth::SignedHeaders,
    ) -> Result<String, String> {
        Err("no transport".to_owned())
    }

    fn wait(&mut self, _delay: SpanDuration) {}
}

fn poloniex_requester() -> ApiRequester<PoloniexContext, NoTransport> {
    let context = PoloniexContext::init(false).unwrap();
    ApiRequester::new(
        ApiConfig {
            base_url: url::Url::parse("https://api.poloniex.com").unwrap(),
            auth: AuthMethod::HmacSha256 {
                api_key: "test-key".to_owned(),
                secret_key: "test-secret".to_owned(),
            },
        },
        HttpConfig::default(),
        NoTransport,
        context,
    )
}

#[test]
fn test_poliniex_candles_url() {
    let url = poloniex_requester()
        .build_url(&CandlesRequest {
            symbol: "BTC_USDT".to_owned(),
            interval: Interval {
                kind: IntervalKind::Minute,
                value: 1,
            },
            limit: Some(10),
            start_time: Some(1738700743 * 1000),
            end_time: Some(1738770743 * 1000),
        })
        .unwrap();
    assert_eq!(
        url.as_str(),
        "https://api.poloniex.com/markets/BTC_USDT/candles?interval=MINUTE_1&limit=10&startTime=1738700743000&endTime=1738770743000"
    );
}

#[test]
fn candles_url_without_optional_filters() {
    let url = poloniex_requester()
        .build_url(&CandlesRequest {
            symbol: "ETH_USDT".to_owned(),
            interval: Interval {
                kind: IntervalKind::Hour,
                value: 4,
            },
            limit: None,
            start_time: None,
            end_time: None,
        })
        .unwrap();
    assert_eq!(
        url.as_str(),
        "https://api.poloniex.com/markets/ETH_USDT/candles?interval=HOUR_4"
    );
}

#[test]
fn unsupported_interval_is_rejected() {
    let err = poloniex_requester()
        .build_url(&CandlesRequest {
            symbol: "BTC_USDT".to_owned(),
            interval: Interval {
                kind: IntervalKind::Minute,
                value: 7,
            },
            limit: None,
            start_time: None,
            end_time: None,
        })
        .unwrap_err();
    assert!(matches!(err, UrlBuildError::UnsupportedInterval));
}

#[test]
fn plain_path_joins_onto_the_base() {
    let base = url::Url::parse("https://api.example.com").unwrap();
    let url = build_url_with(&base, "markets", &()).unwrap();
    assert_eq!(url.as_str(), "https://api.example.com/markets");
}

#[test]
fn segment_list_extends_the_path() {
    let base = url::Url::parse("https://api.example.com").unwrap();
    let segments: &[&str] = &["markets", "BTC_USDT", "trades"];
    let url = build_url_with(&base, segments, &()).unwrap();
    assert_eq!(url.as_str(), "https://api.example.com/markets/BTC_USDT/trades");
}

#[test]
fn segments_are_percent_encoded() {
    let base = url::Url::parse("https://api.example.com").unwrap();
    let segments: &[&str] = &["a b"];
    let url = build_url_with(&base, segments, &()).unwrap();
    assert_eq!(url.as_str(), "https://api.example.com/a%20b");
}

#[test]
fn consumed_builder_fails_instead_of_panicking() {
    let base = url::Url::parse("https://api.example.com").unwrap();
    let mut builder = UrlBuilder::new(&base);
    builder.take().unwrap();
    assert!(matches!(builder.take(), Err(UrlBuildError::InvalidState)));
    assert!(matches!(
        builder.add_query_pair("a", "b"),
        Err(UrlBuildError::InvalidState)
    ));
    assert!(matches!(
        builder.join_path("x"),
        Err(UrlBuildError::InvalidState)
    ));
}

#[test]
fn query_pairs_keep_insertion_order_and_encode() {
    let base = url::Url::parse("https://api.example.com/x").unwrap();
    let mut builder = UrlBuilder::new(&base);
    builder.add_query_pair("b", "2").unwrap();
    builder.add_query_pair("a", "1 &").unwrap();
    builder.display_pair("limit", 500).unwrap();
    let url = builder.take().unwrap();
    assert_eq!(
        url.as_str(),
        "https://api.example.com/x?b=2&a=1+%26&limit=500"
    );
}

#[test]
fn decimal_rendering_is_exact() {
    assert_eq!(u64_to_string(0), "0");
    assert_eq!(u64_to_string(7), "7");
    assert_eq!(u64_to_string(42), "42");
    assert_eq!(u64_to_string(1738700743000), "1738700743000");
    assert_eq!(u64_to_string(u64::MAX), "18446744073709551615");
}
