use oanda_rs::encoding::{encode_path, format_i64};
use oanda_rs::operation::{HttpMethod, Operation};
use oanda_rs::request::Request;
use oanda_rs::types::AcceptDatetimeFormat;
use oanda_rs::{ApiEnv, Client, API_ENV_BASEURL_PRACTICE, API_ENV_BASEURL_TRADE};

fn practice() -> Client {
    Client::new(ApiEnv::Practice, "tok", None)
}

fn pairs(v: &[(&str, &str)]) -> Vec<(String, String)> {
    v.iter().map(|(a, b)| (a.to_string(), b.to_string())).collect()
}

fn header<'r>(r: &'r Request, name: &str) -> Option<&'r str> {
    r.headers.iter().find(|(k, _)| k == name).map(|(_, v)| v.as_str())
}

struct Unconvertible;

impl TryFrom<Unconvertible> for String {
    type Error = String;

    fn try_from(_: Unconvertible) -> Result<String, String> {
        Err("not JSON".to_string())
    }
}

#[test]
fn client_new_selects_environment() {
    let p = practice();
    assert_eq!(p.baseurl(), API_ENV_BASEURL_PRACTICE);
    assert_eq!(p.auth_token(), "tok");
    assert_eq!(p.accept_datetime_format(), AcceptDatetimeFormat::Unix);
    let t = Client::new(ApiEnv::Trade, "x", Some(AcceptDatetimeFormat::Rfc3339));
    assert_eq!(t.baseurl(), API_ENV_BASEURL_TRADE);
    assert_eq!(t.accept_datetime_format(), AcceptDatetimeFormat::Rfc3339);
    assert_eq!(t.api_version(), "3.0.25");
}

#[test]
fn list_orders_without_filters() {
    let c = practice();
    let r = c.list_orders().account_id("001-001-1234567-001").build().unwrap();
    assert_eq!(r.operation, Operation::ListOrders);
    assert_eq!(r.method, HttpMethod::Get);
    assert_eq!(
        r.url,
        "https://api-fxpractice.oanda.com/v3/accounts/001-001-1234567-001/orders"
    );
    assert!(r.query.is_empty());
    assert_eq!(r.body, None);
}

#[test]
fn close_position_default_body() {
    let c = practice();
    let r = c.close_position().account_id("X").instrument("EUR_USD").build().unwrap();
    assert_eq!(r.method, HttpMethod::Put);
    assert_eq!(r.url, "https://api-fxpractice.oanda.com/v3/accounts/X/positions/EUR_USD/close");
    assert_eq!(r.body, Some("{}".to_string()));
}

#[test]
fn list_trades_sends_first_id_only() {
    let c = practice();
    let ids = vec!["T1".to_string(), "T2".to_string(), "T3".to_string()];
    let r = c.list_trades().account_id("A").ids(ids).build().unwrap();
    assert_eq!(r.query, pairs(&[("ids", "T1")]));
}

#[test]
fn empty_id_list_sends_empty_value() {
    let c = practice();
    let r = c.list_orders().account_id("A").ids(Vec::<String>::new()).build().unwrap();
    assert_eq!(r.query, pairs(&[("ids", "")]));
}

#[test]
fn slash_in_path_value_is_escaped() {
    let c = practice();
    let r = c.get_account().account_id("AB/1234").build().unwrap();
    assert_eq!(r.url, "https://api-fxpractice.oanda.com/v3/accounts/AB%2F1234");
}

#[test]
fn path_encoding_of_reserved_and_non_ascii() {
    assert_eq!(encode_path("a b?c#d"), "a%20b%3Fc%23d");
    assert_eq!(encode_path("100%"), "100%25");
    assert_eq!(encode_path("{x}<y>`\""), "%7Bx%7D%3Cy%3E%60%22");
    assert_eq!(encode_path("é"), "%C3%A9");
    assert_eq!(encode_path("EUR_USD-1.~"), "EUR_USD-1.~");
    assert_eq!(encode_path(""), "");
    assert_eq!(encode_path("\u{7f}\n"), "%7F%0A");
}

#[test]
fn decimal_formatting() {
    assert_eq!(format_i64(0), "0");
    assert_eq!(format_i64(42), "42");
    assert_eq!(format_i64(-7), "-7");
    assert_eq!(format_i64(i64::MAX), "9223372036854775807");
    assert_eq!(format_i64(i64::MIN), "-9223372036854775808");
}

#[test]
fn unset_optional_parameters_are_omitted() {
    let c = practice();
    let r = c.get_instrument_candles().instrument("EUR_USD").build().unwrap();
    assert_eq!(r.url, "https://api-fxpractice.oanda.com/v3/instruments/EUR_USD/candles");
    assert!(r.query.is_empty());
    let r = c
        .get_instrument_candles()
        .instrument("EUR_USD")
        .smooth(true)
        .count(-5)
        .granularity("M1")
        .build()
        .unwrap();
    assert_eq!(
        r.query,
        pairs(&[("count", "-5"), ("granularity", "M1"), ("smooth", "true")])
    );
}

#[test]
fn query_follows_declaration_order() {
    let c = practice();
    let r = c
        .get_account_instrument_candles()
        .weekly_alignment("Monday")
        .units("10")
        .daily_alignment(17)
        .alignment_timezone("UTC")
        .include_first(false)
        .instrument("EUR_USD")
        .account_id("A")
        .build()
        .unwrap();
    assert_eq!(r.url, "https://api-fxpractice.oanda.com/v3/accounts/A/instruments/EUR_USD/candles");
    assert_eq!(
        r.query,
        pairs(&[
            ("alignmentTimezone", "UTC"),
            ("dailyAlignment", "17"),
            ("includeFirst", "false"),
            ("units", "10"),
            ("weeklyAlignment", "Monday"),
        ])
    );
}

#[test]
fn required_query_parameters_always_sent() {
    let c = practice();
    let r = c
        .get_transaction_range()
        .account_id("A")
        .from("1")
        .to("9")
        .build()
        .unwrap();
    assert_eq!(r.url, "https://api-fxpractice.oanda.com/v3/accounts/A/transactions/idrange");
    assert_eq!(r.query, pairs(&[("from", "1"), ("to", "9")]));
    let r = c
        .get_prices()
        .instruments(vec!["EUR_USD".to_string(), "USD_JPY".to_string()])
        .account_id("A")
        .build()
        .unwrap();
    assert_eq!(r.query, pairs(&[("instruments", "EUR_USD")]));
}

#[test]
fn missing_required_field_reports_placeholder() {
    let c = practice();
    let e = c.list_orders().build().unwrap_err();
    assert_eq!(e, "account_id was not initialized");
    let e = c.get_position().account_id("A").build().unwrap_err();
    assert_eq!(e, "instrument was not initialized");
    let e = c.get_prices().account_id("A").since("x").build().unwrap_err();
    assert_eq!(e, "instruments was not initialized");
}

#[test]
fn first_error_in_declaration_order_wins() {
    let c = practice();
    let e = c
        .get_instrument_candles()
        .count(u64::MAX)
        .build()
        .unwrap_err();
    assert_eq!(e, "instrument was not initialized");
    let e = c
        .get_instrument_candles()
        .instrument("EUR_USD")
        .daily_alignment(u64::MAX)
        .count(u64::MAX)
        .build()
        .unwrap_err();
    assert_eq!(e, "conversion to `i64` for count failed");
}

#[test]
fn conversion_failure_recorded() {
    let c = practice();
    let e = c.list_trades().account_id("A").count(u64::MAX).build().unwrap_err();
    assert_eq!(e, "conversion to `i64` for count failed");
}

#[test]
fn later_setter_overrides_earlier() {
    let c = practice();
    let r = c
        .list_trades()
        .account_id("first")
        .account_id("second")
        .count(u64::MAX)
        .count(3)
        .build()
        .unwrap();
    assert_eq!(r.url, "https://api-fxpractice.oanda.com/v3/accounts/second/trades");
    assert_eq!(r.query, pairs(&[("count", "3")]));
    let e = c.list_trades().account_id("A").count(3).count(u64::MAX).build().unwrap_err();
    assert_eq!(e, "conversion to `i64` for count failed");
}

#[test]
fn fixed_headers_carry_token_and_format() {
    let c = Client::new(ApiEnv::Trade, "secret", Some(AcceptDatetimeFormat::Rfc3339));
    let r = c.list_accounts().build().unwrap();
    assert_eq!(r.url, "https://api-fxtrade.oanda.com/v3/accounts");
    assert_eq!(header(&r, "Accept"), Some("application/json"));
    assert_eq!(header(&r, "Authorization"), Some("Bearer secret"));
    assert_eq!(header(&r, "Accept-Datetime-Format"), Some("RFC3339"));
    assert_eq!(header(&r, "ClientRequestID"), None);
}

#[test]
fn client_request_id_header() {
    let c = practice();
    let r = c
        .cancel_order()
        .account_id("A")
        .order_specifier("@ext")
        .client_request_id("req-1")
        .build()
        .unwrap();
    assert_eq!(r.url, "https://api-fxpractice.oanda.com/v3/accounts/A/orders/@ext/cancel");
    assert_eq!(header(&r, "ClientRequestID"), Some("req-1"));
    assert!(r.query.is_empty());
    assert_eq!(header(&r, "Accept-Datetime-Format"), Some("UNIX"));
}

#[test]
fn body_set_and_mapped() {
    let c = practice();
    let r = c
        .create_order()
        .account_id("A")
        .body("{\"order\":{}}".to_string())
        .build()
        .unwrap();
    assert_eq!(r.method, HttpMethod::Post);
    assert_eq!(r.body, Some("{\"order\":{}}".to_string()));
    let r = c
        .configure_account()
        .account_id("A")
        .body_map(|b| format!("{{\"alias\":\"x\",\"old\":{}}}", b))
        .build()
        .unwrap();
    assert_eq!(r.method, HttpMethod::Patch);
    assert_eq!(r.body, Some("{\"alias\":\"x\",\"old\":{}}".to_string()));
}

#[test]
fn body_conversion_failure() {
    let c = practice();
    let e = c
        .replace_order()
        .account_id("A")
        .order_specifier("1")
        .body(Unconvertible)
        .body_map(|b| b + "ignored")
        .build()
        .unwrap_err();
    assert_eq!(e, "conversion to `ReplaceOrderBody` for body failed: not JSON");
    let e = c.set_trade_client_extensions().body(Unconvertible).build().unwrap_err();
    assert_eq!(e, "account_id was not initialized");
}

#[test]
fn every_builder_path() {
    let c = practice();
    let b = "https://api-fxpractice.oanda.com/v3";
    let urls = vec![
        c.get_instrument_order_book().instrument("I").build().unwrap().url,
        c.get_instrument_position_book().instrument("I").time("t").build().unwrap().url,
        c.list_positions().account_id("A").build().unwrap().url,
        c.list_open_positions().account_id("A").build().unwrap().url,
        c.get_position().account_id("A").instrument("I").build().unwrap().url,
        c.list_open_trades().account_id("A").build().unwrap().url,
        c.get_trade().account_id("A").trade_specifier("T").build().unwrap().url,
        c.close_trade().account_id("A").trade_specifier("T").build().unwrap().url,
        c.set_trade_client_extensions().account_id("A").trade_specifier("T").build().unwrap().url,
        c.set_trade_dependent_orders().account_id("A").trade_specifier("T").build().unwrap().url,
        c.get_account_summary().account_id("A").build().unwrap().url,
        c.get_account_instruments().account_id("A").build().unwrap().url,
        c.get_account_changes().account_id("A").build().unwrap().url,
        c.list_transactions().account_id("A").build().unwrap().url,
        c.get_transaction().account_id("A").transaction_id("N").build().unwrap().url,
        c.get_transactions_since_id().account_id("A").id("N").build().unwrap().url,
        c.stream_transactions().account_id("A").build().unwrap().url,
        c.get_latest_candles().account_id("A").candle_specifications(vec!["S".to_string()]).build().unwrap().url,
        c.stream_pricing().account_id("A").instruments(vec!["I".to_string()]).build().unwrap().url,
        c.list_pending_orders().account_id("A").build().unwrap().url,
        c.get_order().account_id("A").order_specifier("O").build().unwrap().url,
        c.set_order_client_extensions().account_id("A").order_specifier("O").build().unwrap().url,
    ];
    let paths = [
        "/instruments/I/orderBook",
        "/instruments/I/positionBook",
        "/accounts/A/positions",
        "/accounts/A/openPositions",
        "/accounts/A/positions/I",
        "/accounts/A/openTrades",
        "/accounts/A/trades/T",
        "/accounts/A/trades/T/close",
        "/accounts/A/trades/T/clientExtensions",
        "/accounts/A/trades/T/orders",
        "/accounts/A/summary",
        "/accounts/A/instruments",
        "/accounts/A/changes",
        "/accounts/A/transactions",
        "/accounts/A/transactions/N",
        "/accounts/A/transactions/sinceid",
        "/accounts/A/transactions/stream",
        "/accounts/A/candles/latest",
        "/accounts/A/pricing/stream",
        "/accounts/A/pendingOrders",
        "/accounts/A/orders/O",
        "/accounts/A/orders/O/clientExtensions",
    ];
    for (u, p) in urls.iter().zip(paths.iter()) {
        assert_eq!(u, &format!("{}{}", b, p));
    }
}

#[test]
fn remaining_setters_reach_the_query() {
    let c = practice();
    let r = c
        .get_transactions_since_id()
        .account_id("A")
        .id("6")
        .build()
        .unwrap();
    assert_eq!(r.query, pairs(&[("id", "6")]));
    let r = c
        .list_transactions()
        .account_id("A")
        .type_(vec!["ORDER_FILL".to_string(), "MARKET_ORDER".to_string()])
        .page_size(100)
        .to("t2")
        .from("t1")
        .build()
        .unwrap();
    assert_eq!(
        r.query,
        pairs(&[("from", "t1"), ("pageSize", "100"), ("to", "t2"), ("type", "ORDER_FILL")])
    );
    let r = c
        .get_account_changes()
        .account_id("A")
        .since_transaction_id("5")
        .build()
        .unwrap();
    assert_eq!(r.query, pairs(&[("sinceTransactionID", "5")]));
    let r = c
        .stream_pricing()
        .account_id("A")
        .instruments(vec!["I".to_string()])
        .snapshot(false)
        .build()
        .unwrap();
    assert_eq!(r.query, pairs(&[("instruments", "I"), ("snapshot", "false")]));
    let r = c
        .get_prices()
        .account_id("A")
        .instruments(vec!["I".to_string()])
        .include_units_available(true)
        .include_home_conversions(false)
        .since("s")
        .build()
        .unwrap();
    assert_eq!(
        r.query,
        pairs(&[
            ("includeHomeConversions", "false"),
            ("includeUnitsAvailable", "true"),
            ("instruments", "I"),
            ("since", "s"),
        ])
    );
    let r = c
        .get_account_instruments()
        .account_id("A")
        .instruments(vec!["EUR_USD".to_string()])
        .build()
        .unwrap();
    assert_eq!(r.query, pairs(&[("instruments", "EUR_USD")]));
    let r = c
        .get_latest_candles()
        .account_id("A")
        .candle_specifications(vec!["EUR_USD:S10:BM".to_string()])
        .smooth(true)
        .build()
        .unwrap();
    assert_eq!(
        r.query,
        pairs(&[("candleSpecifications", "EUR_USD:S10:BM"), ("smooth", "true")])
    );
    let r = c
        .list_orders()
        .account_id("A")
        .state("PENDING")
        .instrument("EUR_USD")
        .before_id("9")
        .build()
        .unwrap();
    assert_eq!(
        r.query,
        pairs(&[("beforeID", "9"), ("instrument", "EUR_USD"), ("state", "PENDING")])
    );
}

#[test]
fn header_value_with_newline_rejected() {
    let c = practice();
    let e = c
        .cancel_order()
        .account_id("A")
        .order_specifier("1")
        .client_request_id("a\nb")
        .build()
        .unwrap_err();
    assert_eq!(e, "failed to parse header value");
    let r = c
        .replace_order()
        .account_id("A")
        .order_specifier("1")
        .client_request_id("tab\tand é")
        .build()
        .unwrap();
    assert_eq!(header(&r, "ClientRequestID"), Some("tab\tand é"));
    assert_eq!(r.body, Some("{}".to_string()));
}

#[test]
fn body_error_reported_before_header_error() {
    let c = practice();
    let e = c
        .replace_order()
        .account_id("A")
        .order_specifier("1")
        .client_request_id("bad\u{7f}")
        .body(Unconvertible)
        .build()
        .unwrap_err();
    assert_eq!(e, "conversion to `ReplaceOrderBody` for body failed: not JSON");
}

#[test]
fn token_unfit_for_header_sends_empty_authorization() {
    let c = Client::new(ApiEnv::Practice, "to\nken", None);
    let r = c.list_accounts().build().unwrap();
    assert_eq!(header(&r, "Authorization"), Some(""));
}

#[test]
fn integer_setter_widens_u32() {
    let c = practice();
    let r = c.list_transactions().account_id("A").page_size(50u32).build().unwrap();
    assert_eq!(r.url, "https://api-fxpractice.oanda.com/v3/accounts/A/transactions");
    assert_eq!(r.query, pairs(&[("pageSize", "50")]));
}

#[test]
fn body_map_twice_composes() {
    let c = practice();
    let r = c
        .close_trade()
        .account_id("A")
        .trade_specifier("7")
        .body_map(|b| b.replace("{}", "{\"units\":\"ALL\"}"))
        .body_map(|b| b.to_uppercase())
        .build()
        .unwrap();
    assert_eq!(r.body, Some("{\"UNITS\":\"ALL\"}".to_string()));
}
