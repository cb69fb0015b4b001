use price_fetcher::amount::{bits_are_finite, Amount};
use price_fetcher::quote::{FetchErrorKind, ProviderName};
use price_fetcher::upstream::{
    chart_request, complete_yahoo_fetch, quote_from_body, quote_from_chart, quote_from_exchange,
    quote_from_reading, quote_from_reply, read_body, read_chart, status_failure,
    status_failure_from, status_is_success, ChartReading, MetaFields, UpstreamReply,
};

const FULL: &str = r#"{"chart":{"result":[{"meta":{"currency":"EUR","symbol":"SAP","regularMarketPrice":189.84,"regularMarketChange":-1.25,"regularMarketChangePercent":-0.654},"timestamp":[1]}],"error":null}}"#;

#[test]
fn a_full_payload_gives_every_field() {
    let quote = quote_from_body(FULL.as_bytes(), "SAP", 1_700_000_000).unwrap();
    assert_eq!(quote.symbol, "SAP");
    assert_eq!(quote.price, Amount::Binary64(189.84f64.to_bits()));
    assert_eq!(quote.currency, "EUR");
    assert_eq!(quote.timestamp, 1_700_000_000);
    assert_eq!(quote.source, ProviderName::Yahoo);
    assert_eq!(quote.change_24h, Some(Amount::Binary64((-1.25f64).to_bits())));
    assert_eq!(quote.change_percent_24h, Some(Amount::Binary64((-0.654f64).to_bits())));
    assert!(quote.is_well_formed());
}

#[test]
fn optional_fields_may_be_absent_or_of_another_kind() {
    let body = r#"{"chart":{"result":[{"meta":{"regularMarketPrice":12,"currency":7,"regularMarketChange":"up"}}]}}"#;
    let quote = quote_from_body(body.as_bytes(), "X", 5).unwrap();
    assert_eq!(quote.price, Amount::Binary64(12.0f64.to_bits()));
    assert_eq!(quote.currency, "USD");
    assert_eq!(quote.change_24h, None);
    assert_eq!(quote.change_percent_24h, None);
}

#[test]
fn only_the_first_result_counts() {
    let body = r#"{"chart":{"result":[{"meta":{"regularMarketPrice":1.5}},{"meta":{"regularMarketPrice":2.5}}]}}"#;
    let quote = quote_from_body(body.as_bytes(), "X", 5).unwrap();
    assert_eq!(quote.price, Amount::Binary64(1.5f64.to_bits()));
}

#[test]
fn a_payload_without_a_price_is_missing_a_field() {
    for body in [
        r#"{"chart":{"result":[{"meta":{}}]}}"#,
        r#"{"chart":{"result":[{"meta":{"regularMarketPrice":"189.84"}}]}}"#,
        r#"{"chart":{"result":[{"meta":{"regularMarketPrice":null}}]}}"#,
        r#"{"chart":{"result":[{"meta":{"currency":"USD"}}]}}"#,
    ] {
        let error = quote_from_body(body.as_bytes(), "X", 5).unwrap_err();
        assert_eq!(error.kind, FetchErrorKind::MissingField);
        assert_eq!(error.message, "Missing price data");
    }
}

#[test]
fn a_payload_without_meta_is_malformed() {
    for body in [
        r#"{"chart":{"result":[{}]}}"#,
        r#"{"chart":{"result":[{"meta":null}]}}"#,
        r#"{"chart":{"result":[{"meta":[1,2]}]}}"#,
        r#"{"chart":{"result":[{"meta":"x"}]}}"#,
    ] {
        let error = quote_from_body(body.as_bytes(), "X", 5).unwrap_err();
        assert_eq!(error.kind, FetchErrorKind::MalformedPayload);
        assert_eq!(error.message, "Missing meta data");
    }
}

#[test]
fn a_payload_without_a_result_is_malformed() {
    for body in [
        r#"{}"#,
        r#"[]"#,
        r#"null"#,
        r#"3"#,
        r#"{"chart":null}"#,
        r#"{"chart":{"result":null,"error":{"code":"Not Found"}}}"#,
        r#"{"chart":{"result":[]}}"#,
        r#"{"chart":{"result":[7]}}"#,
        r#"{"chart":{"result":{"0":{"meta":{"regularMarketPrice":1}}}}}"#,
        r#"{"chart":[{"result":[{"meta":{"regularMarketPrice":1}}]}]}"#,
    ] {
        let error = quote_from_body(body.as_bytes(), "X", 5).unwrap_err();
        assert_eq!(error.kind, FetchErrorKind::MalformedPayload);
        assert_eq!(error.message, "Invalid response format");
    }
}

#[test]
fn a_body_that_is_no_json_is_malformed() {
    for body in ["", "<html>", "{", r#"{"chart":}"#, "1e999", r#"{"a":1} trailing"#] {
        let error = quote_from_body(body.as_bytes(), "X", 5).unwrap_err();
        assert_eq!(error.kind, FetchErrorKind::MalformedPayload);
        assert_eq!(error.message, "error decoding response body");
    }
    let error = quote_from_body(&[0xff, 0xfe], "X", 5).unwrap_err();
    assert_eq!(error.kind, FetchErrorKind::MalformedPayload);
}

#[test]
fn a_decoded_document_is_read_like_a_body() {
    let doc: serde_json::Value = serde_json::from_str(FULL).unwrap();
    let quote = quote_from_chart(&doc, "SAP", 9).unwrap();
    assert_eq!(quote, quote_from_body(FULL.as_bytes(), "SAP", 9).unwrap());
    let empty: serde_json::Value = serde_json::from_str("{}").unwrap();
    assert_eq!(quote_from_chart(&empty, "SAP", 9).unwrap_err().message, "Invalid response format");
}

#[test]
fn the_last_of_two_equal_keys_counts() {
    let body = r#"{"chart":{"result":[{"meta":{"regularMarketPrice":1,"regularMarketPrice":2}}]}}"#;
    let quote = quote_from_body(body.as_bytes(), "X", 5).unwrap();
    assert_eq!(quote.price, Amount::Binary64(2.0f64.to_bits()));
}

#[test]
fn success_is_a_status_from_200_to_299() {
    assert!(!status_is_success(0));
    assert!(!status_is_success(199));
    assert!(status_is_success(200));
    assert!(status_is_success(204));
    assert!(status_is_success(299));
    assert!(!status_is_success(300));
    assert!(!status_is_success(404));
    assert!(!status_is_success(u16::MAX));
}

#[test]
fn a_failed_status_is_named_in_the_message() {
    let error = status_failure(404);
    assert_eq!(error.kind, FetchErrorKind::HttpStatus(404));
    assert_eq!(error.message, "HTTP error: 404 Not Found");
    assert_eq!(status_failure(500).message, "HTTP error: 500 Internal Server Error");
    assert_eq!(status_failure(429).message, "HTTP error: 429 Too Many Requests");
    assert_eq!(status_failure(599).message, "HTTP error: 599 <unknown status code>");
    assert_eq!(status_failure(99).message, "HTTP error: invalid status code");
    assert_eq!(status_failure(1000).message, "HTTP error: invalid status code");
    assert_eq!(status_failure(1000).kind, FetchErrorKind::HttpStatus(1000));
}

#[test]
fn a_reply_is_judged_by_its_status_first() {
    let reply = UpstreamReply { status: 404, body: FULL.as_bytes().to_vec() };
    let error = quote_from_reply(&reply, "SAP", 1).unwrap_err();
    assert_eq!(error.kind, FetchErrorKind::HttpStatus(404));
    assert_eq!(error.message, "HTTP error: 404 Not Found");
    let reply = UpstreamReply { status: 200, body: FULL.as_bytes().to_vec() };
    assert_eq!(quote_from_reply(&reply, "SAP", 1).unwrap().currency, "EUR");
    let reply = UpstreamReply { status: 204, body: Vec::new() };
    assert_eq!(quote_from_reply(&reply, "SAP", 1).unwrap_err().message, "error decoding response body");
}

#[test]
fn a_missing_reply_is_reported_in_the_words_of_the_transport() {
    let error = quote_from_exchange(Err("connection refused".to_string()), "SAP", 1).unwrap_err();
    assert_eq!(error.kind, FetchErrorKind::Unreachable);
    assert_eq!(error.message, "connection refused");
    let reply = UpstreamReply { status: 200, body: FULL.as_bytes().to_vec() };
    assert_eq!(quote_from_exchange(Ok(reply), "SAP", 1).unwrap().timestamp, 1);
}

#[test]
fn completing_a_fetch_stamps_the_quote_with_the_time() {
    let reply = UpstreamReply { status: 200, body: FULL.as_bytes().to_vec() };
    let quote = complete_yahoo_fetch(Ok(reply), "SAP").unwrap();
    assert!(quote.timestamp > 1_600_000_000);
    assert_eq!(quote.price, Amount::Binary64(189.84f64.to_bits()));
    let error = complete_yahoo_fetch(Err("timed out".to_string()), "SAP").unwrap_err();
    assert_eq!(error.message, "timed out");
}

#[test]
fn the_request_names_the_symbol_and_the_client() {
    let request = chart_request("BRK.B");
    assert_eq!(request.url, "https://query1.finance.yahoo.com/v8/finance/chart/BRK.B");
    assert_eq!(request.user_agent, "WSB-Price-Fetcher/1.0");
    assert_eq!(chart_request("").url, "https://query1.finance.yahoo.com/v8/finance/chart/");
}

#[test]
fn finite_doubles_are_told_from_the_others() {
    assert!(bits_are_finite(0.0f64.to_bits()));
    assert!(bits_are_finite((-0.0f64).to_bits()));
    assert!(bits_are_finite(189.84f64.to_bits()));
    assert!(bits_are_finite(f64::MAX.to_bits()));
    assert!(bits_are_finite(f64::MIN_POSITIVE.to_bits()));
    assert!(!bits_are_finite(f64::INFINITY.to_bits()));
    assert!(!bits_are_finite(f64::NEG_INFINITY.to_bits()));
    assert!(!bits_are_finite(f64::NAN.to_bits()));
    assert!(Amount::Hundredths(i128::MAX).is_finite());
    assert!(!Amount::Binary64(f64::NAN.to_bits()).is_finite());
}

#[test]
fn a_body_is_read_into_plain_fields() {
    assert_eq!(
        read_body(FULL.as_bytes()),
        ChartReading::Meta(MetaFields {
            price: Some(189.84f64.to_bits()),
            currency: Some("EUR".to_string()),
            change: Some((-1.25f64).to_bits()),
            change_percent: Some((-0.654f64).to_bits()),
        })
    );
    assert_eq!(read_body(b"not json"), ChartReading::Undecodable);
    assert_eq!(read_body(b"{}"), ChartReading::NoResult);
    assert_eq!(read_body(br#"{"chart":{"result":[[]]}}"#), ChartReading::NoResult);
    assert_eq!(read_body(br#"{"chart":{"result":[{}]}}"#), ChartReading::NoMeta);
    assert_eq!(
        read_body(br#"{"chart":{"result":[{"meta":{"currency":null,"regularMarketChange":3}}]}}"#),
        ChartReading::Meta(MetaFields {
            price: None,
            currency: None,
            change: Some(3.0f64.to_bits()),
            change_percent: None,
        })
    );
    let doc: serde_json::Value = serde_json::from_str(FULL).unwrap();
    assert_eq!(read_chart(&doc), read_body(FULL.as_bytes()));
}

#[test]
fn numbers_are_read_as_the_nearest_double() {
    let body = br#"{"chart":{"result":[{"meta":{"regularMarketPrice":-7,"regularMarketChange":18446744073709551615,"regularMarketChangePercent":1.0e2}}]}}"#;
    assert_eq!(
        read_body(body),
        ChartReading::Meta(MetaFields {
            price: Some((-7.0f64).to_bits()),
            currency: None,
            change: Some(18446744073709551615.0f64.to_bits()),
            change_percent: Some(100.0f64.to_bits()),
        })
    );
}

#[test]
fn a_reading_is_judged_field_by_field() {
    let fields = |price: Option<u64>| {
        ChartReading::Meta(MetaFields { price, currency: None, change: None, change_percent: None })
    };
    let quote = quote_from_reading(fields(Some(1.5f64.to_bits())), "X", 77).unwrap();
    assert_eq!(quote.symbol, "X");
    assert_eq!(quote.price, Amount::Binary64(1.5f64.to_bits()));
    assert_eq!(quote.currency, "USD");
    assert_eq!(quote.timestamp, 77);
    assert_eq!(quote.source, ProviderName::Yahoo);
    assert_eq!(quote.change_24h, None);
    assert_eq!(quote.change_percent_24h, None);

    for price in [None, Some(f64::NAN.to_bits()), Some(f64::INFINITY.to_bits())] {
        let error = quote_from_reading(fields(price), "X", 77).unwrap_err();
        assert_eq!(error.kind, FetchErrorKind::MissingField);
        assert_eq!(error.message, "Missing price data");
    }
    let error = quote_from_reading(ChartReading::Undecodable, "X", 77).unwrap_err();
    assert_eq!(error.kind, FetchErrorKind::MalformedPayload);
    assert_eq!(error.message, "error decoding response body");
    let error = quote_from_reading(ChartReading::NoResult, "X", 77).unwrap_err();
    assert_eq!(error.kind, FetchErrorKind::MalformedPayload);
    assert_eq!(error.message, "Invalid response format");
    let error = quote_from_reading(ChartReading::NoMeta, "X", 77).unwrap_err();
    assert_eq!(error.kind, FetchErrorKind::MalformedPayload);
    assert_eq!(error.message, "Missing meta data");
}

#[test]
fn changes_that_are_not_finite_are_handed_on() {
    let reading = ChartReading::Meta(MetaFields {
        price: Some(2.0f64.to_bits()),
        currency: Some("GBp".to_string()),
        change: Some(f64::NAN.to_bits()),
        change_percent: Some(f64::NEG_INFINITY.to_bits()),
    });
    let quote = quote_from_reading(reading, "X", 0).unwrap();
    assert_eq!(quote.currency, "GBp");
    assert_eq!(quote.change_24h, Some(Amount::Binary64(f64::NAN.to_bits())));
    assert_eq!(quote.change_percent_24h, Some(Amount::Binary64(f64::NEG_INFINITY.to_bits())));
    assert!(quote.is_well_formed());
}

#[test]
fn a_status_failure_takes_the_phrase_it_is_given() {
    let error = status_failure_from(418, Some("418 I'm a teapot".to_string()));
    assert_eq!(error.kind, FetchErrorKind::HttpStatus(418));
    assert_eq!(error.message, "HTTP error: 418 I'm a teapot");
    assert_eq!(error, status_failure(418));
    let error = status_failure_from(7, None);
    assert_eq!(error.kind, FetchErrorKind::HttpStatus(7));
    assert_eq!(error.message, "HTTP error: invalid status code");
    assert_eq!(error, status_failure(7));
}
