//! The records that travel between the provider adapters, the aggregator and
//! the routing layer: provider names, quotes and fetch failures.

use vstd::prelude::*;
use vstd::string::*;
use crate::amount::Amount;

verus! {

/// The closed set of quote providers.
#[derive(Clone, Copy, Debug, PartialEq, Eq, Structural)]
pub enum ProviderName {
    /// The upstream finance-chart service.
    Yahoo,
    /// A second upstream service; it needs a credential that is not managed
    /// here, so the synthetic provider answers in its place.
    AlphaVantage,
    /// The synthetic generator.
    Mock,
}

impl ProviderName {
    /// The identifier of the provider, as clients write it.
    pub open spec fn tag_text(self) -> Seq<char> {
        match self {
            ProviderName::Yahoo => "yahoo"@,
            ProviderName::AlphaVantage => "alpha_vantage"@,
            ProviderName::Mock => "mock"@,
        }
    }

    /// The provider that produces the quote when this one is asked.
    pub open spec fn answering(self) -> ProviderName {
        match self {
            ProviderName::Yahoo => ProviderName::Yahoo,
            ProviderName::AlphaVantage => ProviderName::Mock,
            ProviderName::Mock => ProviderName::Mock,
        }
    }

    /// Executable form of [`ProviderName::tag_text`].
    pub fn tag(&self) -> (r: &'static str)
        ensures
            r@ == self.tag_text(),
    {
        match self {
            ProviderName::Yahoo => "yahoo",
            ProviderName::AlphaVantage => "alpha_vantage",
            ProviderName::Mock => "mock",
        }
    }

    /// Executable form of [`ProviderName::answering`].
    pub fn answered_by(&self) -> (r: ProviderName)
        ensures
            r == self.answering(),
    {
        match self {
            ProviderName::Yahoo => ProviderName::Yahoo,
            ProviderName::AlphaVantage => ProviderName::Mock,
            ProviderName::Mock => ProviderName::Mock,
        }
    }
}

/// A normalized price record.
#[derive(Debug, PartialEq, Eq)]
pub struct Quote {
    /// Upper-case ticker.
    pub symbol: String,
    /// The trading price, in units of `currency`.
    pub price: Amount,
    /// Three-letter currency code.
    pub currency: String,
    /// Seconds since the epoch at which the quote was made.
    pub timestamp: i64,
    /// The provider that produced the quote.
    pub source: ProviderName,
    /// Absolute move over the last day, where known.
    pub change_24h: Option<Amount>,
    /// Move over the last day in percent, where known.
    pub change_percent_24h: Option<Amount>,
}

/// What a [`Quote`] holds, with strings as sequences of characters.
pub struct QuoteView {
    pub symbol: Seq<char>,
    pub price: Amount,
    pub currency: Seq<char>,
    pub timestamp: i64,
    pub source: ProviderName,
    pub change_24h: Option<Amount>,
    pub change_percent_24h: Option<Amount>,
}

impl View for Quote {
    type V = QuoteView;

    open spec fn view(&self) -> QuoteView {
        QuoteView {
            symbol: self.symbol@,
            price: self.price,
            currency: self.currency@,
            timestamp: self.timestamp,
            source: self.source,
            change_24h: self.change_24h,
            change_percent_24h: self.change_percent_24h,
        }
    }
}

impl DeepView for Quote {
    type V = QuoteView;

    open spec fn deep_view(&self) -> QuoteView {
        self@
    }
}

impl QuoteView {
    /// The invariant of every quote: its price is a finite number, and its
    /// source is a provider that produces quotes itself.
    pub open spec fn well_formed(self) -> bool {
        &&& self.price.finite()
        &&& self.source.answering() == self.source
    }
}

impl Quote {
    /// See [`QuoteView::well_formed`].
    pub open spec fn well_formed(&self) -> bool {
        self@.well_formed()
    }

    /// Whether the quote satisfies its invariant.
    pub fn is_well_formed(&self) -> (r: bool)
        ensures
            r == self.well_formed(),
    {
        let own_source = match self.source {
            ProviderName::AlphaVantage => false,
            _ => true,
        };
        self.price.is_finite() && own_source
    }
}

/// Why a fetch failed.
#[derive(Clone, Copy, Debug, PartialEq, Eq, Structural)]
pub enum FetchErrorKind {
    /// No reply was obtained from the upstream service.
    Unreachable,
    /// The upstream service replied with this status, which is not a success.
    HttpStatus(u16),
    /// The reply did not have the expected structure.
    MalformedPayload,
    /// The reply had the expected structure but no price.
    MissingField,
}

/// A failed fetch: its kind and a message for people. It is final for the
/// request that met it.
#[derive(Debug, PartialEq, Eq)]
pub struct FetchError {
    pub kind: FetchErrorKind,
    pub message: String,
}

/// What a [`FetchError`] holds, with the message as a sequence of characters.
pub struct FetchErrorView {
    pub kind: FetchErrorKind,
    pub message: Seq<char>,
}

impl View for FetchError {
    type V = FetchErrorView;

    open spec fn view(&self) -> FetchErrorView {
        FetchErrorView { kind: self.kind, message: self.message@ }
    }
}

impl DeepView for FetchError {
    type V = FetchErrorView;

    open spec fn deep_view(&self) -> FetchErrorView {
        self@
    }
}

/// The outcome of a fetch, seen through the views of its two cases.
pub open spec fn outcome_view(outcome: Result<Quote, FetchError>) -> Result<
    QuoteView,
    FetchErrorView,
> {
    match outcome {
        Ok(quote) => Ok(quote@),
        Err(error) => Err(error@),
    }
}

} // verus!
