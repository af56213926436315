//! Signing: canonical parameter strings and HMAC-SHA256 determinism.

use poloniex_connect::auth::sign_payload;
use poloniex_connect::auth::timestamped_sorted_params;
use poloniex_connect::auth::AuthError;
use poloniex_connect::auth::AuthMethod;

fn pairs(raw: &[(&str, &str)]) -> Vec<(String, String)> {
    raw.iter()
        .map(|(k, v)| (k.to_string(), v.to_string()))
        .collect()
}

fn method() -> AuthMethod {
    AuthMethod::HmacSha256 {
        api_key: "test-key".to_owned(),
        secret_key: "test-secret".to_owned(),
    }
}

#[test]
fn params_are_sorted_and_timestamped() {
    let out = timestamped_sorted_params(
        pairs(&[("startTime", "5"), ("interval", "MINUTE_1"), ("limit", "10")]),
        "99",
    );
    assert_eq!(out, "interval=MINUTE_1&limit=10&signTimestamp=99&startTime=5");
}

#[test]
fn params_sort_ties_by_value() {
    let out = timestamped_sorted_params(pairs(&[("a", "2"), ("a", "1")]), "7");
    assert_eq!(out, "a=1&a=2&signTimestamp=7");
}

#[test]
fn params_are_url_encoded_after_sorting() {
    let out = timestamped_sorted_params(pairs(&[("q key", "x&y")]), "1");
    assert_eq!(out, "q+key=x%26y&signTimestamp=1");
}

#[test]
fn signature_is_deterministic_for_fixed_inputs() {
    let q = [("interval", "MINUTE_1"), ("limit", "10")];
    let h1 = method()
        .apply("GET", "/markets/BTC_USDT/candles", pairs(&q), 1738700743000)
        .unwrap();
    let h2 = method()
        .apply("GET", "/markets/BTC_USDT/candles", pairs(&q), 1738700743000)
        .unwrap();
    assert_eq!(h1.signature, h2.signature);
    assert_eq!(h1.sign_timestamp, "1738700743000");
    assert_eq!(h1.key, "test-key");
}

#[test]
fn changing_any_input_changes_the_signature() {
    let base = method()
        .apply("GET", "/markets", pairs(&[("limit", "10")]), 1000)
        .unwrap();
    let other_path = method()
        .apply("GET", "/currencies", pairs(&[("limit", "10")]), 1000)
        .unwrap();
    let other_query = method()
        .apply("GET", "/markets", pairs(&[("limit", "11")]), 1000)
        .unwrap();
    let other_time = method()
        .apply("GET", "/markets", pairs(&[("limit", "10")]), 1001)
        .unwrap();
    let other_secret = AuthMethod::HmacSha256 {
        api_key: "test-key".to_owned(),
        secret_key: "test-secret-2".to_owned(),
    }
    .apply("GET", "/markets", pairs(&[("limit", "10")]), 1000)
    .unwrap();
    assert_ne!(base.signature, other_path.signature);
    assert_ne!(base.signature, other_query.signature);
    assert_ne!(base.signature, other_time.signature);
    assert_ne!(base.signature, other_secret.signature);
}

#[test]
fn query_order_does_not_change_the_signature() {
    let h1 = method()
        .apply(
            "GET",
            "/markets",
            pairs(&[("a", "1"), ("b", "2")]),
            1000,
        )
        .unwrap();
    let h2 = method()
        .apply(
            "GET",
            "/markets",
            pairs(&[("b", "2"), ("a", "1")]),
            1000,
        )
        .unwrap();
    assert_eq!(h1.signature, h2.signature);
}

#[test]
fn non_get_methods_are_refused() {
    let err = method()
        .apply("POST", "/orders", pairs(&[]), 1000)
        .unwrap_err();
    match err {
        AuthError::UnsupportedMethod { method } => assert_eq!(method, "POST"),
    }
}

#[test]
fn sign_payload_matches_known_shape() {
    // Base64 of a SHA-256 HMAC is always 44 characters with one trailing
    // padding byte.
    let s = sign_payload("GET\n/markets\nsignTimestamp=1", "key");
    assert_eq!(s.len(), 44);
    assert!(s.ends_with('='));
    // Deterministic, and sensitive to both arguments.
    assert_eq!(s, sign_payload("GET\n/markets\nsignTimestamp=1", "key"));
    assert_ne!(s, sign_payload("GET\n/markets\nsignTimestamp=2", "key"));
    assert_ne!(s, sign_payload("GET\n/markets\nsignTimestamp=1", "key2"));
}
