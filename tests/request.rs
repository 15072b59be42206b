use polygon_bars::decimal::push_decimal;
use polygon_bars::{
    build_request, build_url, validate, AuthMode, ConfigError, QueryParams, Sort, Timespan,
};

const BASE: &str = "https://api.polygon.io/v2/aggs";

fn aapl() -> QueryParams {
    QueryParams {
        ticker: "AAPL".to_string(),
        multiplier: 1,
        timespan: Timespan::Day,
        from: "2023-01-09".to_string(),
        to: "2023-02-10".to_string(),
        adjusted: true,
        sort: Sort::Asc,
    }
}

#[test]
fn inline_key_url_for_aapl_days() {
    let url = build_url(BASE, &aapl(), AuthMode::InlineKey, "SECRET").unwrap();
    assert_eq!(
        url,
        "https://api.polygon.io/v2/aggs/ticker/AAPL/range/1/day/2023-01-09/2023-02-10?adjusted=true&sort=asc&apiKey=SECRET"
    );
}

#[test]
fn header_bearer_request_for_aapl_days() {
    let req = build_request(BASE, &aapl(), AuthMode::HeaderBearer, "SECRET").unwrap();
    assert_eq!(
        req.url,
        "https://api.polygon.io/v2/aggs/ticker/AAPL/range/1/day/2023-01-09/2023-02-10?adjusted=true&sort=asc"
    );
    assert_eq!(req.authorization, Some("Bearer SECRET".to_string()));
    assert!(!req.url.contains("SECRET"));
}

#[test]
fn inline_key_request_has_no_header() {
    let req = build_request(BASE, &aapl(), AuthMode::InlineKey, "SECRET").unwrap();
    assert_eq!(req.authorization, None);
    assert!(req.url.ends_with("&apiKey=SECRET"));
}

#[test]
fn inline_url_is_bearer_url_with_key() {
    let mut q = aapl();
    q.ticker = "MSFT".to_string();
    q.multiplier = 15;
    q.timespan = Timespan::Minute;
    q.adjusted = false;
    q.sort = Sort::Desc;
    let inline = build_url("http://x", &q, AuthMode::InlineKey, "k-1").unwrap();
    let bearer = build_url("http://x", &q, AuthMode::HeaderBearer, "k-1").unwrap();
    assert_eq!(
        bearer,
        "http://x/ticker/MSFT/range/15/minute/2023-01-09/2023-02-10?adjusted=false&sort=desc"
    );
    assert_eq!(inline, format!("{}&apiKey=k-1", bearer));
}

#[test]
fn empty_ticker_is_config_error() {
    let mut q = aapl();
    q.ticker = String::new();
    assert_eq!(build_url(BASE, &q, AuthMode::InlineKey, "SECRET"), Err(ConfigError::EmptyTicker));
    assert!(matches!(
        build_request(BASE, &q, AuthMode::HeaderBearer, "SECRET"),
        Err(ConfigError::EmptyTicker)
    ));
}

#[test]
fn zero_multiplier_is_config_error() {
    let mut q = aapl();
    q.multiplier = 0;
    assert_eq!(
        build_url(BASE, &q, AuthMode::HeaderBearer, "SECRET"),
        Err(ConfigError::ZeroMultiplier)
    );
}

#[test]
fn empty_secret_is_config_error() {
    assert_eq!(build_url(BASE, &aapl(), AuthMode::InlineKey, ""), Err(ConfigError::EmptySecret));
    assert!(matches!(
        build_request(BASE, &aapl(), AuthMode::HeaderBearer, ""),
        Err(ConfigError::EmptySecret)
    ));
}

#[test]
fn ticker_checked_before_multiplier_and_secret() {
    let mut q = aapl();
    q.ticker = String::new();
    q.multiplier = 0;
    assert_eq!(validate(&q, ""), Err(ConfigError::EmptyTicker));
    q.ticker = "A".to_string();
    assert_eq!(validate(&q, ""), Err(ConfigError::ZeroMultiplier));
    assert_eq!(validate(&aapl(), "s"), Ok(()));
}

#[test]
fn large_multipliers_render_in_decimal() {
    let mut q = aapl();
    q.multiplier = 300;
    let url = build_url("", &q, AuthMode::HeaderBearer, "s").unwrap();
    assert_eq!(url, "/ticker/AAPL/range/300/day/2023-01-09/2023-02-10?adjusted=true&sort=asc");
    q.multiplier = u32::MAX;
    let url = build_url("", &q, AuthMode::HeaderBearer, "s").unwrap();
    assert!(url.contains("/range/4294967295/day/"));
}

#[test]
fn decimal_digits_are_appended() {
    for n in [0u32, 7, 10, 99, 100, 1000, 65535, 4294967295] {
        let mut s = "n=".to_string();
        push_decimal(&mut s, n);
        assert_eq!(s, format!("n={}", n));
    }
}

#[test]
fn every_timespan_has_its_word() {
    let all = [
        (Timespan::Second, "second"),
        (Timespan::Minute, "minute"),
        (Timespan::Hour, "hour"),
        (Timespan::Day, "day"),
        (Timespan::Week, "week"),
        (Timespan::Month, "month"),
        (Timespan::Quarter, "quarter"),
        (Timespan::Year, "year"),
    ];
    for (t, w) in all {
        assert_eq!(t.as_str(), w);
        let mut q = aapl();
        q.timespan = t;
        let url = build_url("b", &q, AuthMode::HeaderBearer, "s").unwrap();
        assert!(url.contains(&format!("/range/1/{}/2023-01-09/", w)));
    }
}

#[test]
fn sort_words() {
    assert_eq!(Sort::Asc.as_str(), "asc");
    assert_eq!(Sort::Desc.as_str(), "desc");
}
