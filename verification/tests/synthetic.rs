use price_fetcher::amount::Amount;
use price_fetcher::quote::ProviderName;
use price_fetcher::synthetic::{base_price_of, synthetic_quote, variation_at};

#[test]
fn known_symbols_have_their_table_price() {
    assert_eq!(base_price_of("AAPL"), 150);
    assert_eq!(base_price_of("TSLA"), 200);
    assert_eq!(base_price_of("MSFT"), 300);
    assert_eq!(base_price_of("GOOGL"), 2500);
    assert_eq!(base_price_of("AMZN"), 3000);
    assert_eq!(base_price_of("NVDA"), 400);
    assert_eq!(base_price_of("META"), 250);
    assert_eq!(base_price_of("NFLX"), 400);
}

#[test]
fn unknown_symbols_are_priced_by_length() {
    assert_eq!(base_price_of("XYZ"), 130);
    assert_eq!(base_price_of(""), 100);
    assert_eq!(base_price_of("aapl"), 140);
    assert_eq!(base_price_of("BRK.B"), 150);
    // Two bytes in UTF-8.
    assert_eq!(base_price_of("\u{c9}"), 120);
}

#[test]
fn variation_follows_the_clock() {
    assert_eq!(variation_at(1_700_000_000), -50);
    assert_eq!(variation_at(1_700_000_037), -13);
    assert_eq!(variation_at(1_700_000_050), 0);
    assert_eq!(variation_at(1_700_000_099), 49);
    assert_eq!(variation_at(-1), 49);
    assert_eq!(variation_at(-100), -50);
    assert_eq!(variation_at(i64::MIN), -50 + 92);
    assert_eq!(variation_at(i64::MAX), -50 + 7);
}

#[test]
fn synthetic_quote_for_a_known_symbol() {
    let quote = synthetic_quote("AAPL", 1_700_000_037);
    assert_eq!(quote.symbol, "AAPL");
    assert_eq!(quote.price, Amount::Hundredths(14_805));
    assert_eq!(quote.currency, "USD");
    assert_eq!(quote.timestamp, 1_700_000_037);
    assert_eq!(quote.source, ProviderName::Mock);
    assert_eq!(quote.change_24h, Some(Amount::Hundredths(-65)));
    assert_eq!(quote.change_percent_24h, Some(Amount::Hundredths(-26)));
    assert!(quote.is_well_formed());
}

#[test]
fn synthetic_quote_for_an_unknown_symbol() {
    let quote = synthetic_quote("XYZ", 1_700_000_099);
    assert_eq!(quote.price, Amount::Hundredths(13_637));
    assert_eq!(quote.change_24h, Some(Amount::Hundredths(245)));
    assert_eq!(quote.change_percent_24h, Some(Amount::Hundredths(98)));
}

#[test]
fn synthetic_price_stays_within_five_percent_of_the_base() {
    for now in 0..200i64 {
        for symbol in ["AAPL", "GOOGL", "X", "SOMETHING-LONG"] {
            let base = base_price_of(symbol) as i128;
            let quote = synthetic_quote(symbol, now);
            let v = variation_at(now) as i128;
            assert_eq!(quote.price, Amount::Hundredths(base * (1000 + v) / 10));
            match quote.price {
                Amount::Hundredths(p) => {
                    assert_eq!(p * 10, base * (1000 + v));
                    assert!(95 * base <= p && p < 105 * base);
                }
                Amount::Binary64(_) => panic!("a synthetic price is a decimal"),
            }
        }
    }
}

#[test]
fn synthetic_provider_answers_every_symbol() {
    for symbol in ["", " ", "aapl", "AAPL", "BRK.B", "\u{1F600}", "A,B"] {
        let quote = synthetic_quote(symbol, 42);
        assert_eq!(quote.symbol, symbol);
        assert!(quote.is_well_formed());
        assert!(quote.change_24h.is_some());
        assert!(quote.change_percent_24h.is_some());
    }
}

#[test]
fn fetch_mock_price_uses_the_clock_once() {
    let quote = price_fetcher::synthetic::fetch_mock_price("MSFT");
    assert!(quote.timestamp > 1_600_000_000);
    let again = synthetic_quote("MSFT", quote.timestamp);
    assert_eq!(quote, again);
}
