//! Choosing a provider from the name a client gave, and the first step of a
//! fetch: either the quote itself or the request to send upstream.

use vstd::prelude::*;
use vstd::string::*;
use crate::clock::unix_now;
use crate::quote::{ProviderName, Quote, QuoteView};
use crate::synthetic::{synthetic_quote, synthetic_view};
use crate::text::{lowercase_of, str_eq, to_lowercase};
use crate::upstream::{chart_request, chart_url_text, user_agent_text, ChartRequest};

verus! {

/// What there is to tell the operator about the choice of a provider.
#[derive(Clone, Copy, Debug, PartialEq, Eq, Structural)]
pub enum Notice {
    /// Nothing: the provider is known and answers itself.
    Quiet,
    /// The name is not that of a provider; the synthetic provider answers.
    UnknownSource,
    /// The provider needs a credential; the synthetic provider answers.
    CredentialNeeded,
}

impl ProviderName {
    /// The provider with the given lower-case name.
    pub open spec fn named(lowered: Seq<char>) -> Option<ProviderName> {
        if lowered == "yahoo"@ {
            Some(ProviderName::Yahoo)
        } else if lowered == "alpha_vantage"@ {
            Some(ProviderName::AlphaVantage)
        } else if lowered == "mock"@ {
            Some(ProviderName::Mock)
        } else {
            None
        }
    }

    /// The provider that a client names with `source`, letter case aside.
    pub open spec fn of_source(source: Seq<char>) -> Option<ProviderName> {
        ProviderName::named(lowercase_of(source))
    }

    /// The provider to ask: the one found, or the synthetic provider where
    /// none was found. No name is rejected.
    pub open spec fn or_synthetic(found: Option<ProviderName>) -> ProviderName {
        match found {
            Some(provider) => provider,
            None => ProviderName::Mock,
        }
    }

    /// What to tell the operator when `found` is the outcome of a lookup.
    pub open spec fn notice_for(found: Option<ProviderName>) -> Notice {
        match found {
            None => Notice::UnknownSource,
            Some(ProviderName::AlphaVantage) => Notice::CredentialNeeded,
            Some(_) => Notice::Quiet,
        }
    }

    /// Executable form of [`ProviderName::named`].
    pub fn lookup(lowered: &str) -> (found: Option<ProviderName>)
        ensures
            found == ProviderName::named(lowered@),
    {
        if str_eq(lowered, "yahoo") {
            Some(ProviderName::Yahoo)
        } else if str_eq(lowered, "alpha_vantage") {
            Some(ProviderName::AlphaVantage)
        } else if str_eq(lowered, "mock") {
            Some(ProviderName::Mock)
        } else {
            None
        }
    }

    /// Executable form of [`ProviderName::of_source`].
    pub fn from_source(source: &str) -> (found: Option<ProviderName>)
        ensures
            found == ProviderName::of_source(source@),
    {
        let lowered = to_lowercase(source);
        ProviderName::lookup(lowered.as_str())
    }

    /// Executable form of [`ProviderName::or_synthetic`].
    pub fn resolve(found: Option<ProviderName>) -> (provider: ProviderName)
        ensures
            provider == ProviderName::or_synthetic(found),
    {
        match found {
            Some(provider) => provider,
            None => ProviderName::Mock,
        }
    }

    /// Executable form of [`ProviderName::notice_for`].
    pub fn notice(found: Option<ProviderName>) -> (notice: Notice)
        ensures
            notice == ProviderName::notice_for(found),
    {
        match found {
            None => Notice::UnknownSource,
            Some(ProviderName::AlphaVantage) => Notice::CredentialNeeded,
            Some(_) => Notice::Quiet,
        }
    }
}

/// The first step of a fetch.
#[derive(Debug, PartialEq, Eq)]
pub enum FetchStep {
    /// The fetch is over: this is the quote.
    Done(Quote),
    /// Send this request and hand back what it brings.
    Ask(ChartRequest),
}

/// What a [`FetchStep`] holds, with strings as sequences of characters.
pub enum FetchStepView {
    Done(QuoteView),
    Ask { url: Seq<char>, user_agent: Seq<char> },
}

impl View for FetchStep {
    type V = FetchStepView;

    open spec fn view(&self) -> FetchStepView {
        match self {
            FetchStep::Done(quote) => FetchStepView::Done(quote@),
            FetchStep::Ask(request) => FetchStepView::Ask {
                url: request.url@,
                user_agent: request.user_agent@,
            },
        }
    }
}

/// The first step of a fetch of `symbol` from `provider` at time `now`: the
/// upstream provider has a request sent, every other provider is answered by
/// the synthetic one at once.
pub open spec fn first_step(provider: ProviderName, symbol: Seq<char>, now: i64) -> FetchStepView {
    match provider.answering() {
        ProviderName::Yahoo => FetchStepView::Ask {
            url: chart_url_text(symbol),
            user_agent: user_agent_text(),
        },
        _ => FetchStepView::Done(synthetic_view(symbol, now)),
    }
}

/// The first step of a fetch of `symbol` from `provider` at time `now`.
pub fn plan_fetch(provider: ProviderName, symbol: &str, now: i64) -> (step: FetchStep)
    ensures
        step@ == first_step(provider, symbol@, now),
        step matches FetchStep::Done(quote) ==> quote.well_formed(),
{
    match provider.answered_by() {
        ProviderName::Yahoo => FetchStep::Ask(chart_request(symbol)),
        _ => FetchStep::Done(synthetic_quote(symbol, now)),
    }
}

/// A fetch that has begun: the provider chosen, what to tell the operator
/// about that choice, and the first step.
#[derive(Debug, PartialEq, Eq)]
pub struct FetchPlan {
    pub provider: ProviderName,
    pub notice: Notice,
    pub step: FetchStep,
}

/// Begins a fetch of `symbol` from the provider that `source` names. The
/// clock is read where the synthetic provider answers; the step is the one
/// that [`first_step`] gives for the time read.
pub fn begin_fetch(symbol: &str, source: &str) -> (plan: FetchPlan)
    ensures
        plan.provider == ProviderName::or_synthetic(ProviderName::of_source(source@)),
        plan.notice == ProviderName::notice_for(ProviderName::of_source(source@)),
        exists|now: i64| plan.step@ == #[trigger] first_step(plan.provider, symbol@, now),
        plan.step matches FetchStep::Done(quote) ==> quote.well_formed(),
{
    let found = ProviderName::from_source(source);
    let provider = ProviderName::resolve(found);
    let notice = ProviderName::notice(found);
    let step = match provider.answered_by() {
        ProviderName::Yahoo => {
            let step = FetchStep::Ask(chart_request(symbol));
            assert(step@ == first_step(provider, symbol@, 0));
            step
        },
        _ => {
            let now: i64 = unix_now();
            plan_fetch(provider, symbol, now)
        },
    };
    FetchPlan { provider, notice, step }
}

/// Every provider is found under its own identifier, so the three
/// identifiers differ from one another.
pub proof fn lemma_tag_names_provider(provider: ProviderName)
    ensures
        ProviderName::named(provider.tag_text()) == Some(provider),
{
    reveal_strlit("yahoo");
    reveal_strlit("alpha_vantage");
    reveal_strlit("mock");
    assert("yahoo"@.len() == 5);
    assert("alpha_vantage"@.len() == 13);
    assert("mock"@.len() == 4);
}

/// A provider other than the upstream one never has a request sent and never
/// fails: the first step of the fetch is a well-formed quote, for every
/// symbol and at every time.
pub proof fn lemma_synthetic_always_answers(provider: ProviderName, symbol: Seq<char>, now: i64)
    requires
        provider != ProviderName::Yahoo,
    ensures
        first_step(provider, symbol, now) == FetchStepView::Done(synthetic_view(symbol, now)),
        synthetic_view(symbol, now).well_formed(),
{
}

} // verus!
