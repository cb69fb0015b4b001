//! The synthetic provider: a price for every symbol, made from a table of
//! base prices and the clock. All its figures are exact decimals with two
//! fractional digits.

use vstd::prelude::*;
use vstd::string::*;
use vstd::utf8::*;
use crate::amount::Amount;
use crate::clock::unix_now;
use crate::quote::{ProviderName, Quote, QuoteView};
use crate::text::str_eq;

verus! {

/// The base price of a symbol in whole currency units: a fixed figure for
/// eight well-known symbols, and for every other symbol 100 plus 10 for each
/// byte of its UTF-8 form.
pub open spec fn base_price(symbol: Seq<char>) -> int {
    if symbol == "AAPL"@ {
        150
    } else if symbol == "TSLA"@ {
        200
    } else if symbol == "MSFT"@ {
        300
    } else if symbol == "GOOGL"@ {
        2500
    } else if symbol == "AMZN"@ {
        3000
    } else if symbol == "NVDA"@ {
        400
    } else if symbol == "META"@ {
        250
    } else if symbol == "NFLX"@ {
        400
    } else {
        100 + 10 * (encode_utf8(symbol).len() as int)
    }
}

/// The variation at time `now`, in hundredths: the timestamp modulo 100,
/// moved down by 50. As a fraction it lies in [-0.5, 0.5).
pub open spec fn variation(now: int) -> int {
    now % 100 - 50
}

/// The synthetic price in hundredths: the base price times one plus a tenth
/// of the variation, rounded half up to two decimals.
pub open spec fn synthetic_price(symbol: Seq<char>, now: int) -> int {
    (base_price(symbol) * (1000 + variation(now)) + 5) / 10
}

/// The synthetic move over a day in hundredths: five times the variation.
pub open spec fn synthetic_change(now: int) -> int {
    5 * variation(now)
}

/// The synthetic move over a day in percent, in hundredths: twice the
/// variation.
pub open spec fn synthetic_change_percent(now: int) -> int {
    2 * variation(now)
}

/// The quote that the synthetic provider gives for `symbol` at time `now`.
pub open spec fn synthetic_view(symbol: Seq<char>, now: i64) -> QuoteView {
    QuoteView {
        symbol,
        price: Amount::Hundredths(synthetic_price(symbol, now as int) as i128),
        currency: "USD"@,
        timestamp: now,
        source: ProviderName::Mock,
        change_24h: Some(Amount::Hundredths(synthetic_change(now as int) as i128)),
        change_percent_24h: Some(Amount::Hundredths(synthetic_change_percent(now as int) as i128)),
    }
}

/// The eight symbols of the table are different strings, so each has the
/// figure that stands beside it.
pub proof fn lemma_base_price_table()
    ensures
        base_price("AAPL"@) == 150,
        base_price("TSLA"@) == 200,
        base_price("MSFT"@) == 300,
        base_price("GOOGL"@) == 2500,
        base_price("AMZN"@) == 3000,
        base_price("NVDA"@) == 400,
        base_price("META"@) == 250,
        base_price("NFLX"@) == 400,
{
    reveal_strlit("AAPL");
    reveal_strlit("TSLA");
    reveal_strlit("MSFT");
    reveal_strlit("GOOGL");
    reveal_strlit("AMZN");
    reveal_strlit("NVDA");
    reveal_strlit("META");
    reveal_strlit("NFLX");
    assert("AAPL"@[1] == 'A');
    assert("TSLA"@[0] == 'T');
    assert("MSFT"@[1] == 'S');
    assert("GOOGL"@.len() == 5);
    assert("AMZN"@[1] == 'M');
    assert("NVDA"@[1] == 'V');
    assert("META"@[1] == 'E');
    assert("NFLX"@[1] == 'F');
}

/// Every base price is a positive multiple of ten, at least 100.
pub proof fn lemma_base_price_shape(symbol: Seq<char>)
    ensures
        base_price(symbol) >= 100,
        base_price(symbol) % 10 == 0,
{
}

/// The variation lies in [-50, 50) hundredths, whatever the time.
pub proof fn lemma_variation_range(now: int)
    ensures
        -50 <= variation(now) < 50,
{
}

/// The synthetic price is exact: no rounding takes place, because every base
/// price is a multiple of ten. Ten times the price in hundredths is the base
/// price times a thousand plus the variation, and the price lies between 95%
/// and 105% of the base price.
pub proof fn lemma_synthetic_price_exact(symbol: Seq<char>, now: int)
    ensures
        10 * synthetic_price(symbol, now) == base_price(symbol) * (1000 + variation(now)),
        95 * base_price(symbol) <= synthetic_price(symbol, now) < 105 * base_price(symbol),
{
    let b = base_price(symbol);
    let f = 1000 + variation(now);
    lemma_base_price_shape(symbol);
    let t = b / 10;
    assert(b == 10 * t);
    assert(b * f == 10 * (t * f)) by (nonlinear_arith)
        requires
            b == 10 * t,
    ;
    assert(950 * t <= t * f < 1050 * t) by (nonlinear_arith)
        requires
            950 <= f < 1050,
            t >= 10,
    ;
}

/// For a symbol that fits in memory the three figures of a synthetic quote
/// fit the integers that hold them.
pub proof fn lemma_synthetic_figures_fit(symbol: Seq<char>, now: int)
    requires
        encode_utf8(symbol).len() <= usize::MAX,
    ensures
        synthetic_price(symbol, now) as i128 == synthetic_price(symbol, now),
        synthetic_change(now) as i128 == synthetic_change(now),
        synthetic_change_percent(now) as i128 == synthetic_change_percent(now),
{
    lemma_synthetic_price_exact(symbol, now);
}

/// Executable form of [`base_price`].
pub fn base_price_of(symbol: &str) -> (base: u128)
    ensures
        base == base_price(symbol@),
        base <= 100 + 10 * usize::MAX,
{
    if str_eq(symbol, "AAPL") {
        150
    } else if str_eq(symbol, "TSLA") {
        200
    } else if str_eq(symbol, "MSFT") {
        300
    } else if str_eq(symbol, "GOOGL") {
        2500
    } else if str_eq(symbol, "AMZN") {
        3000
    } else if str_eq(symbol, "NVDA") {
        400
    } else if str_eq(symbol, "META") {
        250
    } else if str_eq(symbol, "NFLX") {
        400
    } else {
        let len: usize = symbol.as_bytes().len();
        100 + 10 * (len as u128)
    }
}

/// Executable form of [`variation`].
pub fn variation_at(now: i64) -> (v: i64)
    ensures
        v == variation(now as int),
        -50 <= v < 50,
{
    let m: i64 = now % 100;
    let tick: i64 = if m < 0 {
        m + 100
    } else {
        m
    };
    tick - 50
}

/// The quote of the synthetic provider for `symbol` at time `now`. It exists
/// for every symbol and every time.
pub fn synthetic_quote(symbol: &str, now: i64) -> (quote: Quote)
    ensures
        quote@ == synthetic_view(symbol@, now),
        quote.well_formed(),
{
    let base: u128 = base_price_of(symbol);
    let v: i64 = variation_at(now);
    let factor: u128 = (1000 + v) as u128;
    proof {
        lemma_synthetic_price_exact(symbol@, now as int);
        assert(base * factor <= 0x1_0000_0000_0000_0000_0000u128 * 1050) by (nonlinear_arith)
            requires
                base <= 0x1_0000_0000_0000_0000_0000u128,
                factor <= 1050,
        ;
    }
    let price: u128 = (base * factor + 5) / 10;
    Quote {
        symbol: String::from_str(symbol),
        price: Amount::Hundredths(price as i128),
        currency: String::from_str("USD"),
        timestamp: now,
        source: ProviderName::Mock,
        change_24h: Some(Amount::Hundredths((5 * v) as i128)),
        change_percent_24h: Some(Amount::Hundredths((2 * v) as i128)),
    }
}

/// Asks the synthetic provider for `symbol` now. The clock is read once; the
/// quote is the one that [`synthetic_view`] gives for the time it carries.
pub fn fetch_mock_price(symbol: &str) -> (quote: Quote)
    ensures
        quote@ == synthetic_view(symbol@, quote.timestamp),
        quote.well_formed(),
{
    let now: i64 = unix_now();
    synthetic_quote(symbol, now)
}

} // verus!
