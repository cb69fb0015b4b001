use price_fetcher::batch::BatchResult;
use price_fetcher::provider::{begin_fetch, FetchStep};
use price_fetcher::quote::{FetchError, FetchErrorKind};
use price_fetcher::routing::{
    health_at, health_check, price_reply, prices_reply, read_price_request, read_prices_request,
    PriceReply, PricesReply,
};
use price_fetcher::synthetic::synthetic_quote;
use price_fetcher::upstream::status_failure;

fn unreachable_host() -> FetchError {
    FetchError { kind: FetchErrorKind::Unreachable, message: "connection refused".to_string() }
}

#[test]
fn a_price_request_is_read_from_path_and_query() {
    let request = read_price_request("aapl", None);
    assert_eq!(request.symbol, "AAPL");
    assert_eq!(request.source, "yahoo");
    let request = read_price_request("Brk.b", Some("Mock"));
    assert_eq!(request.symbol, "BRK.B");
    assert_eq!(request.source, "Mock");
    // The path segment is not trimmed.
    assert_eq!(read_price_request(" x ", Some("")).symbol, " X ");
    assert_eq!(read_price_request(" x ", Some("")).source, "");
}

#[test]
fn a_quote_is_answered_with_200() {
    let reply = price_reply("AAPL", Ok(synthetic_quote("AAPL", 3)));
    assert_eq!(reply.status_code(), 200);
    assert_eq!(reply, PriceReply::Found(synthetic_quote("AAPL", 3)));
}

#[test]
fn a_failed_fetch_is_answered_with_400_and_its_cause() {
    let reply = price_reply("AAPL", Err(status_failure(503)));
    assert_eq!(reply.status_code(), 400);
    match reply {
        PriceReply::Failed(body) => {
            assert_eq!(body.error, "PRICE_FETCH_FAILED");
            assert_eq!(
                body.message,
                "Failed to fetch price for AAPL: HTTP error: 503 Service Unavailable"
            );
        }
        PriceReply::Found(_) => panic!("the fetch failed"),
    }
}

#[test]
fn prices_without_symbols_are_refused_before_any_fetch() {
    for source in [None, Some("yahoo"), Some("mock")] {
        let reply = read_prices_request(None, source).unwrap_err();
        assert_eq!(reply.status_code(), 400);
        match reply {
            PricesReply::Failed(body) => {
                assert_eq!(body.error, "MISSING_SYMBOLS");
                assert_eq!(
                    body.message,
                    "Missing 'symbols' parameter. Use comma-separated values like: ?symbols=AAPL,TSLA,MSFT"
                );
            }
            PricesReply::Found(_) => panic!("nothing was asked for"),
        }
    }
}

#[test]
fn prices_with_symbols_are_read_from_the_query() {
    let request = read_prices_request(Some("aapl, tsla ,MSFT"), None).unwrap();
    assert_eq!(request.symbols, vec!["AAPL", "TSLA", "MSFT"]);
    assert_eq!(request.source, "yahoo");
    let request = read_prices_request(Some(""), Some("bogus")).unwrap();
    assert_eq!(request.symbols, vec![""]);
    assert_eq!(request.source, "bogus");
}

#[test]
fn a_batch_that_failed_as_a_whole_lists_every_cause() {
    let mut batch = BatchResult::new();
    batch.record("AAPL", Err(status_failure(404)));
    batch.record("TSLA", Err(unreachable_host()));
    batch.record("MSFT", Err(status_failure(500)));
    let reply = prices_reply(batch);
    assert_eq!(reply.status_code(), 400);
    match reply {
        PricesReply::Failed(body) => {
            assert_eq!(body.error, "ALL_PRICES_FAILED");
            assert_eq!(
                body.message,
                "Failed to fetch any prices. Errors: AAPL: HTTP error: 404 Not Found, TSLA: connection refused, MSFT: HTTP error: 500 Internal Server Error"
            );
        }
        PricesReply::Found(_) => panic!("every fetch failed"),
    }
}

#[test]
fn a_batch_with_one_failure_of_three_gives_two_quotes() {
    let mut batch = BatchResult::new();
    batch.record("AAPL", Ok(synthetic_quote("AAPL", 1)));
    batch.record("TSLA", Err(status_failure(404)));
    batch.record("MSFT", Ok(synthetic_quote("MSFT", 1)));
    let reply = prices_reply(batch);
    assert_eq!(reply.status_code(), 200);
    match reply {
        PricesReply::Found(quotes) => {
            assert_eq!(quotes.len(), 2);
            assert_eq!(quotes, vec![synthetic_quote("AAPL", 1), synthetic_quote("MSFT", 1)]);
            assert!(quotes.iter().all(|quote| quote.symbol != "TSLA"));
        }
        PricesReply::Failed(_) => panic!("two fetches were answered"),
    }
}

#[test]
fn a_batch_without_symbols_has_failed() {
    let reply = prices_reply(BatchResult::new());
    assert_eq!(reply.status_code(), 400);
    match reply {
        PricesReply::Failed(body) => {
            assert_eq!(body.error, "ALL_PRICES_FAILED");
            assert_eq!(body.message, "Failed to fetch any prices. Errors: ");
        }
        PricesReply::Found(_) => panic!("there is no quote"),
    }
}

#[test]
fn health_is_always_reported_with_200() {
    let report = health_at(1_700_000_000);
    assert_eq!(report.status, "healthy");
    assert_eq!(report.service, "WSB Price Fetcher");
    assert_eq!(report.timestamp, 1_700_000_000);
    assert_eq!(report.status_code(), 200);
    let now = health_check();
    assert_eq!(now.status, "healthy");
    assert_eq!(now.service, "WSB Price Fetcher");
    assert_eq!(now.status_code(), 200);
    assert!(now.timestamp > 1_600_000_000);
}

#[test]
fn an_unknown_source_is_answered_with_200() {
    for symbol in ["AAPL", "ZZZZ", "brk.b", ""] {
        let request = read_price_request(symbol, Some("bogus"));
        let plan = begin_fetch(&request.symbol, &request.source);
        let outcome = match plan.step {
            FetchStep::Done(quote) => Ok(quote),
            FetchStep::Ask(_) => panic!("no request is needed"),
        };
        let reply = price_reply(&request.symbol, outcome);
        assert_eq!(reply.status_code(), 200);
    }
}
