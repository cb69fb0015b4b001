//! The routing layer: what each endpoint reads from a request and what it
//! answers, as status code and body.

use vstd::prelude::*;
use vstd::string::*;
use crate::batch::{
    lemma_batch_all_failed, lemma_batch_counts, lemma_batch_keeps_quote, parse_symbols,
    symbol_list, AttemptView, BatchResult, BatchView, FailureView,
};
use crate::clock::unix_now;
use crate::provider::{first_step, FetchStepView};
use crate::quote::{outcome_view, FetchError, FetchErrorView, ProviderName, Quote, QuoteView};
use crate::synthetic::synthetic_view;
use crate::text::{join, to_uppercase, uppercase_of};

verus! {

/// The status code of a reply that carries what was asked for.
pub open spec fn status_ok() -> u16 {
    200
}

/// The status code of every reply that carries an error.
pub open spec fn status_bad_request() -> u16 {
    400
}

/// The body of a reply that reports an error: a fixed tag and a message.
#[derive(Debug, PartialEq, Eq)]
pub struct ErrorBody {
    pub error: String,
    pub message: String,
}

/// What an [`ErrorBody`] holds.
pub struct ErrorBodyView {
    pub error: Seq<char>,
    pub message: Seq<char>,
}

impl View for ErrorBody {
    type V = ErrorBodyView;

    open spec fn view(&self) -> ErrorBodyView {
        ErrorBodyView { error: self.error@, message: self.message@ }
    }
}

/// The reply to a request for one symbol.
#[derive(Debug, PartialEq, Eq)]
pub enum PriceReply {
    Found(Quote),
    Failed(ErrorBody),
}

/// What a [`PriceReply`] holds.
pub enum PriceReplyView {
    Found(QuoteView),
    Failed(ErrorBodyView),
}

impl View for PriceReply {
    type V = PriceReplyView;

    open spec fn view(&self) -> PriceReplyView {
        match self {
            PriceReply::Found(quote) => PriceReplyView::Found(quote@),
            PriceReply::Failed(body) => PriceReplyView::Failed(body@),
        }
    }
}

impl PriceReplyView {
    /// The status code that goes with the reply.
    pub open spec fn status(self) -> u16 {
        match self {
            PriceReplyView::Found(_) => status_ok(),
            PriceReplyView::Failed(_) => status_bad_request(),
        }
    }
}

/// The reply to a request for several symbols.
#[derive(Debug, PartialEq, Eq)]
pub enum PricesReply {
    Found(Vec<Quote>),
    Failed(ErrorBody),
}

/// What a [`PricesReply`] holds.
pub enum PricesReplyView {
    Found(Seq<QuoteView>),
    Failed(ErrorBodyView),
}

impl View for PricesReply {
    type V = PricesReplyView;

    open spec fn view(&self) -> PricesReplyView {
        match self {
            PricesReply::Found(quotes) => PricesReplyView::Found(quotes.deep_view()),
            PricesReply::Failed(body) => PricesReplyView::Failed(body@),
        }
    }
}

impl PricesReplyView {
    /// The status code that goes with the reply.
    pub open spec fn status(self) -> u16 {
        match self {
            PricesReplyView::Found(_) => status_ok(),
            PricesReplyView::Failed(_) => status_bad_request(),
        }
    }
}

/// The reply to a request for `symbol` whose fetch ended in `outcome`: the
/// quote, or an error that names the symbol and the cause.
pub open spec fn price_reply_for(
    symbol: Seq<char>,
    outcome: Result<QuoteView, FetchErrorView>,
) -> PriceReplyView {
    match outcome {
        Ok(quote) => PriceReplyView::Found(quote),
        Err(error) => PriceReplyView::Failed(
            ErrorBodyView {
                error: "PRICE_FETCH_FAILED"@,
                message: "Failed to fetch price for "@ + symbol + ": "@ + error.message,
            },
        ),
    }
}

/// The reply to a request for several symbols whose fetches ended in
/// `batch`: the quotes alone where there is at least one, and otherwise an
/// error that lists every symbol with its cause.
pub open spec fn prices_reply_for(batch: BatchView) -> PricesReplyView {
    match batch.settled() {
        Ok(quotes) => PricesReplyView::Found(quotes),
        Err(errors) => PricesReplyView::Failed(
            ErrorBodyView {
                error: "ALL_PRICES_FAILED"@,
                message: "Failed to fetch any prices. Errors: "@ + errors,
            },
        ),
    }
}

/// What a client is told that asked for several symbols and named none.
pub open spec fn missing_symbols_text() -> Seq<char> {
    "Missing 'symbols' parameter. Use comma-separated values like: ?symbols=AAPL,TSLA,MSFT"@
}

/// The reply to a request for several symbols that names none.
pub open spec fn missing_symbols_reply() -> PricesReplyView {
    PricesReplyView::Failed(
        ErrorBodyView {
            error: "MISSING_SYMBOLS"@,
            message: missing_symbols_text(),
        },
    )
}

/// The provider name to go by: the one given, or `yahoo` where none is.
pub open spec fn source_or_default(source: Option<Seq<char>>) -> Seq<char> {
    match source {
        Some(name) => name,
        None => "yahoo"@,
    }
}

/// A query parameter with its value as a sequence of characters.
pub open spec fn parameter_view(parameter: Option<&str>) -> Option<Seq<char>> {
    match parameter {
        Some(value) => Some(value@),
        None => None,
    }
}

fn read_source(source: Option<&str>) -> (name: String)
    ensures
        name@ == source_or_default(parameter_view(source)),
{
    match source {
        Some(name) => String::from_str(name),
        None => String::from_str("yahoo"),
    }
}

/// A request for one symbol, as read from the path and the query.
#[derive(Debug, PartialEq, Eq)]
pub struct PriceRequest {
    /// The symbol in upper case.
    pub symbol: String,
    /// The name of the provider to ask.
    pub source: String,
}

/// Reads a request for one symbol: the path segment in upper case, and the
/// `source` parameter or its default.
pub fn read_price_request(path_symbol: &str, source: Option<&str>) -> (request: PriceRequest)
    ensures
        request.symbol@ == uppercase_of(path_symbol@),
        request.source@ == source_or_default(parameter_view(source)),
{
    PriceRequest { symbol: to_uppercase(path_symbol), source: read_source(source) }
}

/// Answers a request for `symbol` whose fetch ended in `outcome`.
pub fn price_reply(symbol: &str, outcome: Result<Quote, FetchError>) -> (reply: PriceReply)
    ensures
        reply@ == price_reply_for(symbol@, outcome_view(outcome)),
{
    match outcome {
        Ok(quote) => PriceReply::Found(quote),
        Err(error) => {
            let mut message = String::from_str("Failed to fetch price for ");
            message.append(symbol);
            message.append(": ");
            message.append(error.message.as_str());
            PriceReply::Failed(
                ErrorBody { error: String::from_str("PRICE_FETCH_FAILED"), message },
            )
        },
    }
}

/// A request for several symbols, as read from the query.
#[derive(Debug, PartialEq, Eq)]
pub struct PricesRequest {
    /// The symbols to fetch, in the order given.
    pub symbols: Vec<String>,
    /// The name of the provider to ask.
    pub source: String,
}

/// Reads a request for several symbols. Without a `symbols` parameter there
/// is nothing to fetch: the outcome is the reply to send, and no request
/// that could be carried out. With one, the outcome is the list of symbols
/// it names and the `source` parameter or its default.
pub fn read_prices_request(symbols: Option<&str>, source: Option<&str>) -> (r: Result<
    PricesRequest,
    PricesReply,
>)
    ensures
        symbols is None <==> r is Err,
        r matches Err(reply) ==> reply@ == missing_symbols_reply(),
        r matches Ok(request) ==> {
            &&& symbols matches Some(raw)
            &&& request.symbols.deep_view() == symbol_list(raw@)
            &&& request.symbols.len() >= 1
            &&& request.source@ == source_or_default(parameter_view(source))
        },
{
    match symbols {
        None => Err(
            PricesReply::Failed(
                ErrorBody {
                    error: String::from_str("MISSING_SYMBOLS"),
                    message: String::from_str(
                        "Missing 'symbols' parameter. Use comma-separated values like: ?symbols=AAPL,TSLA,MSFT",
                    ),
                },
            ),
        ),
        Some(raw) => Ok(PricesRequest { symbols: parse_symbols(raw), source: read_source(source) }),
    }
}

/// Answers a request for several symbols whose fetches ended in `batch`.
pub fn prices_reply(batch: BatchResult) -> (reply: PricesReply)
    ensures
        reply@ == prices_reply_for(batch@),
{
    match batch.settle() {
        Ok(quotes) => PricesReply::Found(quotes),
        Err(failed) => {
            let mut message = String::from_str("Failed to fetch any prices. Errors: ");
            message.append(failed.errors.as_str());
            PricesReply::Failed(
                ErrorBody { error: String::from_str("ALL_PRICES_FAILED"), message },
            )
        },
    }
}

impl PriceReply {
    /// Executable form of [`PriceReplyView::status`].
    pub fn status_code(&self) -> (code: u16)
        ensures
            code == self@.status(),
    {
        match self {
            PriceReply::Found(_) => 200,
            PriceReply::Failed(_) => 400,
        }
    }
}

impl PricesReply {
    /// Executable form of [`PricesReplyView::status`].
    pub fn status_code(&self) -> (code: u16)
        ensures
            code == self@.status(),
    {
        match self {
            PricesReply::Found(_) => 200,
            PricesReply::Failed(_) => 400,
        }
    }
}

/// The body of the reply to a health probe.
#[derive(Debug, PartialEq, Eq)]
pub struct Health {
    pub status: String,
    pub service: String,
    pub timestamp: i64,
}

impl Health {
    /// The report of a service in good health.
    pub open spec fn healthy(&self) -> bool {
        &&& self.status@ == "healthy"@
        &&& self.service@ == "WSB Price Fetcher"@
    }

    /// The status code that goes with the report: a health probe is always
    /// answered with success.
    pub fn status_code(&self) -> (code: u16)
        ensures
            code == status_ok(),
    {
        200
    }
}

/// The health report at time `now`.
pub fn health_at(now: i64) -> (report: Health)
    ensures
        report.healthy(),
        report.timestamp == now,
{
    Health {
        status: String::from_str("healthy"),
        service: String::from_str("WSB Price Fetcher"),
        timestamp: now,
    }
}

/// Answers a health probe. Nothing is asked of any provider: the report is
/// that of a healthy service, stamped with the time that the clock gave.
pub fn health_check() -> (report: Health)
    ensures
        report.healthy(),
{
    let now: i64 = unix_now();
    health_at(now)
}

/// A request for one symbol from a source that names no provider is
/// answered with a quote and status 200: the synthetic provider takes the
/// fetch, and it cannot fail.
pub proof fn lemma_unknown_source_is_answered(source: Seq<char>, symbol: Seq<char>, now: i64)
    requires
        ProviderName::of_source(source) is None,
    ensures
        first_step(ProviderName::or_synthetic(ProviderName::of_source(source)), symbol, now)
            == FetchStepView::Done(synthetic_view(symbol, now)),
        price_reply_for(symbol, Ok(synthetic_view(symbol, now))) == PriceReplyView::Found(
            synthetic_view(symbol, now),
        ),
        price_reply_for(symbol, Ok(synthetic_view(symbol, now))).status() == 200,
{
}

/// A batch in which every fetch failed is answered with status 400 and an
/// error that lists every symbol with its cause, in the order of the
/// symbols, separated by a comma and a space.
pub proof fn lemma_all_failed_reply(attempts: Seq<AttemptView>)
    requires
        forall|i: int| 0 <= i < attempts.len() ==> attempts[i].outcome is Err,
    ensures
        prices_reply_for(BatchView::of(attempts)) == PricesReplyView::Failed(
            ErrorBodyView {
                error: "ALL_PRICES_FAILED"@,
                message: "Failed to fetch any prices. Errors: "@ + join(
                    attempts.map_values(
                        |attempt: AttemptView|
                            attempt.symbol + ": "@ + attempt.outcome->Err_0.message,
                    ),
                    ", "@,
                ),
            },
        ),
        prices_reply_for(BatchView::of(attempts)).status() == 400,
{
    lemma_batch_all_failed(attempts);
    let batch = BatchView::of(attempts);
    let lines = batch.failures.map_values(|failure: FailureView| failure.line());
    let wanted = attempts.map_values(
        |attempt: AttemptView| attempt.symbol + ": "@ + attempt.outcome->Err_0.message,
    );
    assert(lines =~= wanted);
}

/// A batch in which at least one fetch was answered is answered with status
/// 200 and the quotes of the answered fetches alone: there are as many as
/// there are symbols less those that failed.
pub proof fn lemma_partial_reply(attempts: Seq<AttemptView>, i: int)
    requires
        0 <= i < attempts.len(),
        attempts[i].outcome is Ok,
    ensures
        prices_reply_for(BatchView::of(attempts)) == PricesReplyView::Found(
            BatchView::of(attempts).prices,
        ),
        prices_reply_for(BatchView::of(attempts)).status() == 200,
        BatchView::of(attempts).prices.len() == attempts.len() - BatchView::of(
            attempts,
        ).failures.len(),
{
    lemma_batch_keeps_quote(attempts, i);
    lemma_batch_counts(attempts);
}

} // verus!
