//! The upstream finance-chart provider: the request to send for a symbol and
//! the reading of what comes back.

use vstd::prelude::*;
use vstd::string::*;
use crate::amount::{bits_are_finite, binary64_is_finite, Amount};
use crate::clock::unix_now;
use crate::json::{decode, element, is_object, json_of, member, number_bits, parsed, text, Json};
use crate::quote::{
    outcome_view, FetchError, FetchErrorKind, FetchErrorView, ProviderName, Quote, QuoteView,
};

verus! {

/// The error with which `http` rejects a number that is no status code.
#[verifier::external_type_specification]
#[verifier::external_body]
pub struct ExInvalidStatusCode(http::status::InvalidStatusCode);

/// What `http::StatusCode` displays for a status code between 100 and 999:
/// the number, a space, and the reason phrase that belongs to it.
pub uninterp spec fn status_text(code: u16) -> Seq<char>;

/// `http::StatusCode::from_u16`, and the text that the status code displays.
/// A number from 100 to 999 is accepted and gives the text named
/// [`status_text`]; every other number is rejected.
#[verifier::external_body]
pub(crate) fn status_line(code: u16) -> (r: Result<String, http::status::InvalidStatusCode>)
    ensures
        r is Ok <==> 100 <= code <= 999,
        r matches Ok(line) ==> line@ == status_text(code),
{
    match http::StatusCode::from_u16(code) {
        Ok(status) => Ok(status.to_string()),
        Err(invalid) => Err(invalid),
    }
}

/// What the upstream service sent back: the status code and the body.
#[derive(Debug, PartialEq, Eq)]
pub struct UpstreamReply {
    pub status: u16,
    pub body: Vec<u8>,
}

/// The request to send for one symbol.
#[derive(Debug, PartialEq, Eq)]
pub struct ChartRequest {
    /// Where to send the GET.
    pub url: String,
    /// The value of the `User-Agent` header.
    pub user_agent: String,
}

/// The address of the chart of `symbol`.
pub open spec fn chart_url_text(symbol: Seq<char>) -> Seq<char> {
    "https://query1.finance.yahoo.com/v8/finance/chart/"@ + symbol
}

/// The name under which this client introduces itself.
pub open spec fn user_agent_text() -> Seq<char> {
    "WSB-Price-Fetcher/1.0"@
}

/// The request for the chart of `symbol`: one GET with a fixed client header.
pub fn chart_request(symbol: &str) -> (request: ChartRequest)
    ensures
        request.url@ == chart_url_text(symbol@),
        request.user_agent@ == user_agent_text(),
{
    let mut url = String::from_str("https://query1.finance.yahoo.com/v8/finance/chart/");
    url.append(symbol);
    ChartRequest { url, user_agent: String::from_str("WSB-Price-Fetcher/1.0") }
}

/// Whether a status code reports success: 200 to 299.
pub open spec fn is_success(status: u16) -> bool {
    200 <= status < 300
}

/// Executable form of [`is_success`].
pub fn status_is_success(status: u16) -> (r: bool)
    ensures
        r == is_success(status),
{
    200 <= status && status < 300
}

/// A failure of the given kind with the given message.
pub open spec fn failure(kind: FetchErrorKind, message: Seq<char>) -> Result<
    QuoteView,
    FetchErrorView,
> {
    Err(FetchErrorView { kind, message })
}

/// The fields of a chart's `meta` object that a quote is made from, as they
/// stand in the document.
#[derive(Debug, PartialEq, Eq)]
pub struct MetaFields {
    /// `regularMarketPrice`, where it is a number: the bits of the double.
    pub price: Option<u64>,
    /// `currency`, where it is a string.
    pub currency: Option<String>,
    /// `regularMarketChange`, where it is a number.
    pub change: Option<u64>,
    /// `regularMarketChangePercent`, where it is a number.
    pub change_percent: Option<u64>,
}

/// What [`MetaFields`] holds.
pub struct MetaView {
    pub price: Option<u64>,
    pub currency: Option<Seq<char>>,
    pub change: Option<u64>,
    pub change_percent: Option<u64>,
}

impl View for MetaFields {
    type V = MetaView;

    open spec fn view(&self) -> MetaView {
        MetaView {
            price: self.price,
            currency: match self.currency {
                Some(code) => Some(code@),
                None => None,
            },
            change: self.change,
            change_percent: self.change_percent,
        }
    }
}

/// What the body of a successful reply holds for a quote.
#[derive(Debug, PartialEq, Eq)]
pub enum ChartReading {
    /// The body is no JSON text.
    Undecodable,
    /// There is no object at `chart.result[0]`.
    NoResult,
    /// The first result has no object `meta`.
    NoMeta,
    /// The fields of the first result's `meta`.
    Meta(MetaFields),
}

/// What a [`ChartReading`] holds.
pub enum ReadingView {
    Undecodable,
    NoResult,
    NoMeta,
    Meta(MetaView),
}

impl View for ChartReading {
    type V = ReadingView;

    open spec fn view(&self) -> ReadingView {
        match self {
            ChartReading::Undecodable => ReadingView::Undecodable,
            ChartReading::NoResult => ReadingView::NoResult,
            ChartReading::NoMeta => ReadingView::NoMeta,
            ChartReading::Meta(fields) => ReadingView::Meta(fields@),
        }
    }
}

/// The number that a member of `meta` holds, where it holds one.
pub open spec fn figure(meta: Json, key: Seq<char>) -> Option<u64> {
    match meta.member(key) {
        Some(value) => value.number(),
        None => None,
    }
}

/// The string that a member of `meta` holds, where it holds one.
pub open spec fn label(meta: Json, key: Seq<char>) -> Option<Seq<char>> {
    match meta.member(key) {
        Some(value) => value.text(),
        None => None,
    }
}

/// The fields that a `meta` object holds for a quote.
pub open spec fn meta_fields(meta: Json) -> MetaView {
    MetaView {
        price: figure(meta, "regularMarketPrice"@),
        currency: label(meta, "currency"@),
        change: figure(meta, "regularMarketChange"@),
        change_percent: figure(meta, "regularMarketChangePercent"@),
    }
}

/// The first entry of `chart.result` in a chart document.
pub open spec fn first_result(doc: Json) -> Option<Json> {
    match doc.member("chart"@) {
        Some(chart) => match chart.member("result"@) {
            Some(results) => results.element(0),
            None => None,
        },
        None => None,
    }
}

/// What a chart document holds for a quote: the fields of the object `meta`
/// of the object at `chart.result[0]`, where the document has both.
pub open spec fn chart_reading(doc: Json) -> ReadingView {
    match first_result(doc) {
        Some(Json::Object(result)) => match Json::Object(result).member("meta"@) {
            Some(Json::Object(meta)) => ReadingView::Meta(meta_fields(Json::Object(meta))),
            _ => ReadingView::NoMeta,
        },
        _ => ReadingView::NoResult,
    }
}

/// What the body of a successful reply holds for a quote, given the
/// document that it decodes to.
pub open spec fn body_reading(doc: Option<Json>) -> ReadingView {
    match doc {
        Some(d) => chart_reading(d),
        None => ReadingView::Undecodable,
    }
}

/// A double from a payload as an amount.
pub open spec fn amount_of(bits: Option<u64>) -> Option<Amount> {
    match bits {
        Some(b) => Some(Amount::Binary64(b)),
        None => None,
    }
}

/// The quote that a reading gives for `symbol` at time `now`.
///
/// A body that is no JSON text, a document without a first result and a
/// result without `meta` are malformed payloads. The price is required: one
/// that is absent, not a number or not finite is a missing field. The
/// currency is `USD` where the document names none. The two changes are
/// handed on where the document holds them. The timestamp is `now`, not a
/// time taken from the document.
pub open spec fn reading_quote(reading: ReadingView, symbol: Seq<char>, now: i64) -> Result<
    QuoteView,
    FetchErrorView,
> {
    match reading {
        ReadingView::Undecodable => failure(
            FetchErrorKind::MalformedPayload,
            "error decoding response body"@,
        ),
        ReadingView::NoResult => failure(
            FetchErrorKind::MalformedPayload,
            "Invalid response format"@,
        ),
        ReadingView::NoMeta => failure(FetchErrorKind::MalformedPayload, "Missing meta data"@),
        ReadingView::Meta(fields) => match fields.price {
            Some(bits) if binary64_is_finite(bits) => Ok(
                QuoteView {
                    symbol,
                    price: Amount::Binary64(bits),
                    currency: match fields.currency {
                        Some(code) => code,
                        None => "USD"@,
                    },
                    timestamp: now,
                    source: ProviderName::Yahoo,
                    change_24h: amount_of(fields.change),
                    change_percent_24h: amount_of(fields.change_percent),
                },
            ),
            _ => failure(FetchErrorKind::MissingField, "Missing price data"@),
        },
    }
}

/// The quote that a chart document gives for `symbol` at time `now`.
pub open spec fn chart_quote(doc: Json, symbol: Seq<char>, now: i64) -> Result<
    QuoteView,
    FetchErrorView,
> {
    reading_quote(chart_reading(doc), symbol, now)
}

/// The quote that the body of a successful reply gives, given the document
/// that it decodes to.
pub open spec fn body_quote(doc: Option<Json>, symbol: Seq<char>, now: i64) -> Result<
    QuoteView,
    FetchErrorView,
> {
    reading_quote(body_reading(doc), symbol, now)
}

/// The text for a status in a failure message: what `http` displays for a
/// status code, and a fixed phrase for a number that is none.
pub open spec fn status_phrase(status: u16) -> Seq<char> {
    if 100 <= status <= 999 {
        status_text(status)
    } else {
        "invalid status code"@
    }
}

/// The failure for a status that does not report success, given the text
/// that goes with the status.
pub open spec fn status_failure_with(status: u16, phrase: Seq<char>) -> FetchErrorView {
    FetchErrorView { kind: FetchErrorKind::HttpStatus(status), message: "HTTP error: "@ + phrase }
}

/// The quote that a reply gives: a failure that names the status where the
/// status does not report success, and otherwise what the body gives.
pub open spec fn reply_quote(
    status: u16,
    doc: Option<Json>,
    symbol: Seq<char>,
    now: i64,
) -> Result<QuoteView, FetchErrorView> {
    if is_success(status) {
        body_quote(doc, symbol, now)
    } else {
        Err(status_failure_with(status, status_phrase(status)))
    }
}

/// The quote that an exchange with the upstream service gives: a failure
/// with the transport's own words where no reply came, and otherwise what the
/// reply gives.
pub open spec fn exchange_quote(
    exchange: Result<(u16, Option<Json>), Seq<char>>,
    symbol: Seq<char>,
    now: i64,
) -> Result<QuoteView, FetchErrorView> {
    match exchange {
        Ok((status, doc)) => reply_quote(status, doc, symbol, now),
        Err(detail) => failure(FetchErrorKind::Unreachable, detail),
    }
}

/// An exchange as [`exchange_quote`] takes it.
pub open spec fn exchange_view(exchange: Result<UpstreamReply, String>) -> Result<
    (u16, Option<Json>),
    Seq<char>,
> {
    match exchange {
        Ok(reply) => Ok((reply.status, parsed(reply.body@))),
        Err(detail) => Err(detail@),
    }
}

fn fail(kind: FetchErrorKind, message: &str) -> (r: Result<Quote, FetchError>)
    ensures
        outcome_view(r) == failure(kind, message@),
{
    Err(FetchError { kind, message: String::from_str(message) })
}

fn read_figure(meta: &serde_json::Value, key: &str) -> (r: Option<u64>)
    ensures
        r == figure(json_of(*meta), key@),
{
    match member(meta, key) {
        Some(value) => number_bits(value),
        None => None,
    }
}

fn read_label(meta: &serde_json::Value, key: &str) -> (r: Option<String>)
    ensures
        match r {
            Some(chars) => label(json_of(*meta), key@) == Some(chars@),
            None => label(json_of(*meta), key@) is None,
        },
{
    match member(meta, key) {
        Some(value) => match text(value) {
            Some(chars) => Some(String::from_str(chars)),
            None => None,
        },
        None => None,
    }
}

fn read_first_result(doc: &serde_json::Value) -> (r: Option<&serde_json::Value>)
    ensures
        match r {
            Some(found) => first_result(json_of(*doc)) == Some(json_of(*found)),
            None => first_result(json_of(*doc)) is None,
        },
{
    match member(doc, "chart") {
        Some(chart) => match member(chart, "result") {
            Some(results) => element(results, 0),
            None => None,
        },
        None => None,
    }
}

/// Reads out of a decoded chart document what it holds for a quote.
pub fn read_chart(doc: &serde_json::Value) -> (reading: ChartReading)
    ensures
        reading@ == chart_reading(json_of(*doc)),
{
    let result = match read_first_result(doc) {
        Some(found) => found,
        None => {
            return ChartReading::NoResult;
        },
    };
    if !is_object(result) {
        return ChartReading::NoResult;
    }
    let meta = match member(result, "meta") {
        Some(found) => found,
        None => {
            return ChartReading::NoMeta;
        },
    };
    if !is_object(meta) {
        return ChartReading::NoMeta;
    }
    ChartReading::Meta(
        MetaFields {
            price: read_figure(meta, "regularMarketPrice"),
            currency: read_label(meta, "currency"),
            change: read_figure(meta, "regularMarketChange"),
            change_percent: read_figure(meta, "regularMarketChangePercent"),
        },
    )
}

/// Decodes the body of a successful reply and reads out of it what it holds
/// for a quote.
pub fn read_body(body: &[u8]) -> (reading: ChartReading)
    ensures
        reading@ == body_reading(parsed(body@)),
{
    match decode(body) {
        Ok(doc) => read_chart(&doc),
        Err(_) => ChartReading::Undecodable,
    }
}

/// Makes the quote for `symbol` at time `now` from what the body of a
/// successful reply holds.
pub fn quote_from_reading(reading: ChartReading, symbol: &str, now: i64) -> (r: Result<
    Quote,
    FetchError,
>)
    ensures
        outcome_view(r) == reading_quote(reading@, symbol@, now),
        r matches Ok(quote) ==> quote.well_formed(),
{
    let fields = match reading {
        ChartReading::Undecodable => {
            return fail(FetchErrorKind::MalformedPayload, "error decoding response body");
        },
        ChartReading::NoResult => {
            return fail(FetchErrorKind::MalformedPayload, "Invalid response format");
        },
        ChartReading::NoMeta => {
            return fail(FetchErrorKind::MalformedPayload, "Missing meta data");
        },
        ChartReading::Meta(fields) => fields,
    };
    let bits = match fields.price {
        Some(found) => found,
        None => {
            return fail(FetchErrorKind::MissingField, "Missing price data");
        },
    };
    if !bits_are_finite(bits) {
        return fail(FetchErrorKind::MissingField, "Missing price data");
    }
    let currency = match fields.currency {
        Some(code) => code,
        None => String::from_str("USD"),
    };
    let change_24h = match fields.change {
        Some(b) => Some(Amount::Binary64(b)),
        None => None,
    };
    let change_percent_24h = match fields.change_percent {
        Some(b) => Some(Amount::Binary64(b)),
        None => None,
    };
    Ok(
        Quote {
            symbol: String::from_str(symbol),
            price: Amount::Binary64(bits),
            currency,
            timestamp: now,
            source: ProviderName::Yahoo,
            change_24h,
            change_percent_24h,
        },
    )
}

/// Reads a quote for `symbol` out of a decoded chart document.
pub fn quote_from_chart(doc: &serde_json::Value, symbol: &str, now: i64) -> (r: Result<
    Quote,
    FetchError,
>)
    ensures
        outcome_view(r) == chart_quote(json_of(*doc), symbol@, now),
        r matches Ok(quote) ==> quote.well_formed(),
{
    quote_from_reading(read_chart(doc), symbol, now)
}

/// Reads a quote for `symbol` out of the body of a successful reply.
pub fn quote_from_body(body: &[u8], symbol: &str, now: i64) -> (r: Result<Quote, FetchError>)
    ensures
        outcome_view(r) == body_quote(parsed(body@), symbol@, now),
        r matches Ok(quote) ==> quote.well_formed(),
{
    quote_from_reading(read_body(body), symbol, now)
}

/// The failure for a status that does not report success, given the text
/// that goes with the status, or nothing where the number is no status code.
pub fn status_failure_from(status: u16, line: Option<String>) -> (error: FetchError)
    ensures
        error@ == status_failure_with(
            status,
            match line {
                Some(phrase) => phrase@,
                None => "invalid status code"@,
            },
        ),
{
    let mut message = String::from_str("HTTP error: ");
    match line {
        Some(phrase) => {
            message.append(phrase.as_str());
        },
        None => {
            message.append("invalid status code");
        },
    }
    FetchError { kind: FetchErrorKind::HttpStatus(status), message }
}

/// The failure for a reply whose status does not report success.
pub fn status_failure(status: u16) -> (error: FetchError)
    ensures
        error@ == status_failure_with(status, status_phrase(status)),
{
    match status_line(status) {
        Ok(line) => status_failure_from(status, Some(line)),
        Err(_) => status_failure_from(status, None),
    }
}

/// Reads a quote for `symbol` out of a reply of the upstream service.
pub fn quote_from_reply(reply: &UpstreamReply, symbol: &str, now: i64) -> (r: Result<
    Quote,
    FetchError,
>)
    ensures
        outcome_view(r) == reply_quote(reply.status, parsed(reply.body@), symbol@, now),
        r matches Ok(quote) ==> quote.well_formed(),
{
    if status_is_success(reply.status) {
        quote_from_body(reply.body.as_slice(), symbol, now)
    } else {
        Err(status_failure(reply.status))
    }
}

/// Turns what an exchange with the upstream service brought into the outcome
/// of the fetch, for a quote made at time `now`. `exchange` is the reply, or
/// the transport's account of why there is none.
pub fn quote_from_exchange(
    exchange: Result<UpstreamReply, String>,
    symbol: &str,
    now: i64,
) -> (r: Result<Quote, FetchError>)
    ensures
        outcome_view(r) == exchange_quote(exchange_view(exchange), symbol@, now),
        r matches Ok(quote) ==> quote.well_formed(),
{
    match exchange {
        Ok(reply) => quote_from_reply(&reply, symbol, now),
        Err(detail) => Err(FetchError { kind: FetchErrorKind::Unreachable, message: detail }),
    }
}

/// Completes a fetch from the upstream service with the current time. The
/// clock is read once; the outcome is the one that [`exchange_quote`] gives
/// for the time read.
pub fn complete_yahoo_fetch(exchange: Result<UpstreamReply, String>, symbol: &str) -> (r: Result<
    Quote,
    FetchError,
>)
    ensures
        exists|now: i64| outcome_view(r) == #[trigger] exchange_quote(
            exchange_view(exchange),
            symbol@,
            now,
        ),
        r matches Ok(quote) ==> quote.well_formed(),
{
    let now: i64 = unix_now();
    quote_from_exchange(exchange, symbol, now)
}

} // verus!
