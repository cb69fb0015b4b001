//! The price aggregator: the symbols of a batch request, and the partition
//! of the outcomes of their fetches into quotes and failures.

use vstd::prelude::*;
use vstd::string::*;
use crate::quote::{outcome_view, FetchError, FetchErrorView, Quote, QuoteView};
use crate::text::{
    join, join_with, lemma_split_nonempty, split, split_on, to_uppercase, trim, trimmed,
    uppercase_of,
};

verus! {

/// A symbol as a provider is asked for it: without surrounding whitespace
/// and in upper case.
pub open spec fn normalized(raw: Seq<char>) -> Seq<char> {
    uppercase_of(trimmed(raw))
}

/// The symbols that a comma-separated list names, in order. Every entry
/// between two commas counts, an empty one too.
pub open spec fn symbol_list(raw: Seq<char>) -> Seq<Seq<char>> {
    split(raw, ',').map_values(|entry: Seq<char>| normalized(entry))
}

/// Executable form of [`normalized`].
pub fn normalize_symbol(raw: &str) -> (symbol: String)
    ensures
        symbol@ == normalized(raw@),
{
    to_uppercase(trim(raw))
}

/// Executable form of [`symbol_list`].
pub fn parse_symbols(raw: &str) -> (symbols: Vec<String>)
    ensures
        symbols.deep_view() == symbol_list(raw@),
        symbols.len() >= 1,
{
    let entries = split_on(raw, ',');
    let mut symbols: Vec<String> = Vec::new();
    let mut i: usize = 0;
    while i < entries.len()
        invariant
            i <= entries.len(),
            entries.deep_view() == split(raw@, ','),
            symbols.deep_view() == symbol_list(raw@).take(i as int),
        decreases entries.len() - i,
    {
        let symbol = normalize_symbol(entries[i]);
        let ghost before = symbols.deep_view();
        assert(entries.deep_view()[i as int] == entries[i as int]@);
        symbols.push(symbol);
        assert(symbols.deep_view() == before.push(symbol@));
        assert(symbol_list(raw@).take(i + 1) == symbol_list(raw@).take(i as int).push(symbol@));
        i = i + 1;
    }
    proof {
        assert(symbol_list(raw@).take(i as int) == symbol_list(raw@));
        lemma_split_nonempty(raw@, ',');
    }
    symbols
}

/// One symbol of a batch with the outcome of its fetch.
#[derive(Debug, PartialEq, Eq)]
pub struct Attempt {
    pub symbol: String,
    pub outcome: Result<Quote, FetchError>,
}

/// What an [`Attempt`] holds.
pub struct AttemptView {
    pub symbol: Seq<char>,
    pub outcome: Result<QuoteView, FetchErrorView>,
}

impl View for Attempt {
    type V = AttemptView;

    open spec fn view(&self) -> AttemptView {
        AttemptView { symbol: self.symbol@, outcome: outcome_view(self.outcome) }
    }
}

impl DeepView for Attempt {
    type V = AttemptView;

    open spec fn deep_view(&self) -> AttemptView {
        self@
    }
}

impl AttemptView {
    /// The quote of an attempt that was answered.
    pub open spec fn quote(self) -> Option<QuoteView> {
        match self.outcome {
            Ok(quote) => Some(quote),
            Err(_) => None,
        }
    }

    /// The failure of an attempt that was not answered: its symbol with the
    /// message of the error.
    pub open spec fn failure(self) -> Option<FailureView> {
        match self.outcome {
            Ok(_) => None,
            Err(error) => Some(FailureView { symbol: self.symbol, message: error.message }),
        }
    }
}

/// A symbol whose fetch failed, with the message of the failure.
#[derive(Debug, PartialEq, Eq)]
pub struct Failure {
    pub symbol: String,
    pub message: String,
}

/// What a [`Failure`] holds.
pub struct FailureView {
    pub symbol: Seq<char>,
    pub message: Seq<char>,
}

impl View for Failure {
    type V = FailureView;

    open spec fn view(&self) -> FailureView {
        FailureView { symbol: self.symbol@, message: self.message@ }
    }
}

impl DeepView for Failure {
    type V = FailureView;

    open spec fn deep_view(&self) -> FailureView {
        self@
    }
}

impl FailureView {
    /// The failure as one entry of a list of errors: the symbol, a colon and
    /// the message.
    pub open spec fn line(self) -> Seq<char> {
        self.symbol + ": "@ + self.message
    }
}

/// The outcome of a batch: the quotes of the symbols that were fetched and
/// the failures of the others, each in the order in which they were met.
#[derive(Debug, PartialEq, Eq)]
pub struct BatchResult {
    pub prices: Vec<Quote>,
    pub failures: Vec<Failure>,
}

/// What a [`BatchResult`] holds.
pub struct BatchView {
    pub prices: Seq<QuoteView>,
    pub failures: Seq<FailureView>,
}

impl View for BatchResult {
    type V = BatchView;

    open spec fn view(&self) -> BatchView {
        BatchView { prices: self.prices.deep_view(), failures: self.failures.deep_view() }
    }
}

/// The condition of a batch in which not one symbol was fetched. It is no
/// failure of a single fetch: it carries the failures of all of them as one
/// text.
#[derive(Debug, PartialEq, Eq)]
pub struct AllFailed {
    pub errors: String,
}

impl BatchView {
    /// The batch before any outcome is known.
    pub open spec fn empty() -> BatchView {
        BatchView { prices: Seq::empty(), failures: Seq::empty() }
    }

    /// The batch after one more outcome: a quote joins the quotes, a failure
    /// joins the failures under its symbol, and nothing else changes.
    pub open spec fn with(self, attempt: AttemptView) -> BatchView {
        match attempt.outcome {
            Ok(quote) => BatchView { prices: self.prices.push(quote), failures: self.failures },
            Err(error) => BatchView {
                prices: self.prices,
                failures: self.failures.push(
                    FailureView { symbol: attempt.symbol, message: error.message },
                ),
            },
        }
    }

    /// The batch of the given attempts: the quotes of those that were
    /// answered and the failures of the others, each in the order of the
    /// attempts.
    pub open spec fn of(attempts: Seq<AttemptView>) -> BatchView {
        BatchView {
            prices: attempts.filter_map(|attempt: AttemptView| attempt.quote()),
            failures: attempts.filter_map(|attempt: AttemptView| attempt.failure()),
        }
    }

    /// Whether no symbol was fetched.
    pub open spec fn all_failed(self) -> bool {
        self.prices.len() == 0
    }

    /// The failures as one text: an entry for each, separated by a comma and
    /// a space.
    pub open spec fn error_list(self) -> Seq<char> {
        join(self.failures.map_values(|failure: FailureView| failure.line()), ", "@)
    }

    /// What the batch comes to: its quotes where there is at least one, and
    /// otherwise the list of its failures.
    pub open spec fn settled(self) -> Result<Seq<QuoteView>, Seq<char>> {
        if self.all_failed() {
            Err(self.error_list())
        } else {
            Ok(self.prices)
        }
    }
}

/// One more attempt changes the batch as [`BatchView::with`] says.
pub proof fn lemma_batch_grows(attempts: Seq<AttemptView>, next: AttemptView)
    ensures
        BatchView::of(attempts.push(next)) == BatchView::of(attempts).with(next),
{
    let all = attempts.push(next);
    assert(all.drop_last() == attempts);
    assert(all.last() == next);
    let grown = BatchView::of(all);
    let stepped = BatchView::of(attempts).with(next);
    assert(grown.prices == stepped.prices);
    assert(grown.failures == stepped.failures);
}

/// Every attempt ends up on exactly one side of the batch.
pub proof fn lemma_batch_counts(attempts: Seq<AttemptView>)
    ensures
        BatchView::of(attempts).prices.len() + BatchView::of(attempts).failures.len()
            == attempts.len(),
    decreases attempts.len(),
{
    if attempts.len() > 0 {
        lemma_batch_counts(attempts.drop_last());
        assert(attempts.drop_last().push(attempts.last()) == attempts);
        lemma_batch_grows(attempts.drop_last(), attempts.last());
    }
}

/// Where every attempt failed the batch holds no quote, and its failures are
/// those of all the attempts, in their order.
pub proof fn lemma_batch_all_failed(attempts: Seq<AttemptView>)
    requires
        forall|i: int| 0 <= i < attempts.len() ==> attempts[i].outcome is Err,
    ensures
        BatchView::of(attempts).all_failed(),
        BatchView::of(attempts).failures == attempts.map_values(
            |attempt: AttemptView| attempt.failure()->Some_0,
        ),
    decreases attempts.len(),
{
    let wanted = attempts.map_values(|attempt: AttemptView| attempt.failure()->Some_0);
    if attempts.len() > 0 {
        let earlier = attempts.drop_last();
        lemma_batch_all_failed(earlier);
        assert(earlier.push(attempts.last()) == attempts);
        lemma_batch_grows(earlier, attempts.last());
        assert(wanted == earlier.map_values(
            |attempt: AttemptView| attempt.failure()->Some_0,
        ).push(attempts.last().failure()->Some_0));
    } else {
        assert(BatchView::of(attempts).failures == wanted);
    }
}

/// The quote of an attempt that was answered is among the quotes of the
/// batch, which has therefore not failed as a whole.
pub proof fn lemma_batch_keeps_quote(attempts: Seq<AttemptView>, i: int)
    requires
        0 <= i < attempts.len(),
        attempts[i].outcome is Ok,
    ensures
        BatchView::of(attempts).prices.contains(attempts[i].outcome->Ok_0),
        !BatchView::of(attempts).all_failed(),
    decreases attempts.len(),
{
    let earlier = attempts.drop_last();
    assert(earlier.push(attempts.last()) == attempts);
    lemma_batch_grows(earlier, attempts.last());
    let before = BatchView::of(earlier);
    let after = BatchView::of(attempts);
    if i == attempts.len() - 1 {
        assert(after.prices.last() == attempts[i].outcome->Ok_0);
    } else {
        lemma_batch_keeps_quote(earlier, i);
        let k = choose|k: int|
            0 <= k < before.prices.len() && before.prices[k] == earlier[i].outcome->Ok_0;
        assert(after.prices[k] == attempts[i].outcome->Ok_0);
    }
}

/// Every quote of the batch is the quote of an attempt that was answered: a
/// symbol whose fetch failed stands for nothing among the quotes.
pub proof fn lemma_batch_quotes_were_fetched(attempts: Seq<AttemptView>, k: int)
    requires
        0 <= k < BatchView::of(attempts).prices.len(),
    ensures
        exists|i: int|
            0 <= i < attempts.len() && #[trigger] attempts[i].outcome == Ok::<
                QuoteView,
                FetchErrorView,
            >(BatchView::of(attempts).prices[k]),
    decreases attempts.len(),
{
    let earlier = attempts.drop_last();
    if attempts.len() > 0 {
        assert(earlier.push(attempts.last()) == attempts);
        lemma_batch_grows(earlier, attempts.last());
        let before = BatchView::of(earlier);
        if k < before.prices.len() {
            lemma_batch_quotes_were_fetched(earlier, k);
            let i = choose|i: int|
                0 <= i < earlier.len() && #[trigger] earlier[i].outcome == Ok::<
                    QuoteView,
                    FetchErrorView,
                >(before.prices[k]);
            assert(attempts[i] == earlier[i]);
        } else {
            let i = attempts.len() - 1;
            assert(attempts[i].outcome == Ok::<QuoteView, FetchErrorView>(
                BatchView::of(attempts).prices[k],
            ));
        }
    }
}

impl BatchResult {
    /// A batch of which no outcome is known yet.
    pub fn new() -> (batch: BatchResult)
        ensures
            batch@ == BatchView::empty(),
            batch@ == BatchView::of(Seq::empty()),
    {
        let batch = BatchResult { prices: Vec::new(), failures: Vec::new() };
        assert(batch@.prices =~= Seq::empty());
        assert(batch@.failures =~= Seq::empty());
        batch
    }

    /// Takes in the outcome of the fetch of `symbol`. The outcomes of other
    /// symbols are not touched: a failure does not end the batch.
    pub fn record(&mut self, symbol: &str, outcome: Result<Quote, FetchError>)
        ensures
            final(self)@ == old(self)@.with(
                AttemptView { symbol: symbol@, outcome: outcome_view(outcome) },
            ),
    {
        let ghost prices = self.prices.deep_view();
        let ghost failures = self.failures.deep_view();
        match outcome {
            Ok(quote) => {
                self.prices.push(quote);
                assert(self.prices.deep_view() =~= prices.push(quote@));
            },
            Err(error) => {
                let failure = Failure { symbol: String::from_str(symbol), message: error.message };
                self.failures.push(failure);
                assert(self.failures.deep_view() =~= failures.push(failure@));
            },
        }
    }

    /// The batch of the given attempts, taken in order.
    pub fn collect(attempts: Vec<Attempt>) -> (batch: BatchResult)
        ensures
            batch@ == BatchView::of(attempts.deep_view()),
    {
        let ghost raw = attempts@;
        let ghost all = attempts.deep_view();
        let mut batch = BatchResult::new();
        for attempt in it: attempts
            invariant
                it.seq() == raw,
                all.len() == raw.len(),
                forall|k: int| 0 <= k < raw.len() ==> all[k] == raw[k]@,
                batch@ == BatchView::of(all.take(it.index() as int)),
        {
            proof {
                let done = it.index() as int;
                assert(all.take(done + 1) == all.take(done).push(attempt@));
                lemma_batch_grows(all.take(done), attempt@);
            }
            batch.record(attempt.symbol.as_str(), attempt.outcome);
        }
        assert(all.take(all.len() as int) == all);
        batch
    }

    /// Executable form of [`BatchView::all_failed`].
    pub fn all_failed(&self) -> (r: bool)
        ensures
            r == self@.all_failed(),
    {
        self.prices.len() == 0
    }

    /// Executable form of [`BatchView::error_list`].
    pub fn error_list(&self) -> (list: String)
        ensures
            list@ == self@.error_list(),
    {
        let mut lines: Vec<String> = Vec::new();
        let mut i: usize = 0;
        let ghost wanted = self@.failures.map_values(|failure: FailureView| failure.line());
        while i < self.failures.len()
            invariant
                i <= self.failures.len(),
                wanted == self@.failures.map_values(|failure: FailureView| failure.line()),
                lines.deep_view() == wanted.take(i as int),
            decreases self.failures.len() - i,
        {
            let failure = &self.failures[i];
            let mut line = String::from_str(failure.symbol.as_str());
            line.append(": ");
            line.append(failure.message.as_str());
            let ghost before = lines.deep_view();
            assert(self@.failures[i as int] == failure@);
            lines.push(line);
            assert(lines.deep_view() == before.push(line@));
            assert(wanted.take(i + 1) == wanted.take(i as int).push(line@));
            i = i + 1;
        }
        assert(wanted.take(i as int) == wanted);
        join_with(&lines, ", ")
    }

    /// What the batch comes to: its quotes, the failures left aside, where
    /// there is at least one quote, and the all-failed condition otherwise.
    pub fn settle(self) -> (r: Result<Vec<Quote>, AllFailed>)
        ensures
            match r {
                Ok(quotes) => self@.settled() == Ok::<Seq<QuoteView>, Seq<char>>(
                    quotes.deep_view(),
                ),
                Err(failed) => self@.settled() == Err::<Seq<QuoteView>, Seq<char>>(
                    failed.errors@,
                ),
            },
    {
        if self.all_failed() {
            Err(AllFailed { errors: self.error_list() })
        } else {
            Ok(self.prices)
        }
    }
}

} // verus!
