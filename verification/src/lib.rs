//! Price lookups for stock ticker symbols.
//!
//! A lookup names a symbol and a provider. The upstream provider is asked
//! over HTTP; the exchange itself is the caller's business, and this crate
//! says what to send ([`upstream::chart_request`]) and what the reply means
//! ([`upstream::quote_from_exchange`]). Every other provider is answered by
//! the synthetic one ([`synthetic::synthetic_quote`]), which derives a price
//! from a table and the clock and cannot fail. A batch of lookups is
//! partitioned into quotes and failures ([`batch::BatchResult`]), and
//! [`routing`] gives each endpoint its reply.
//!
//! Numbers are held without floating point: generated figures as counts of
//! hundredths, figures from upstream payloads as the bit patterns of the
//! doubles they are ([`amount::Amount`]).

pub mod amount;
pub mod batch;
pub mod clock;
pub mod json;
pub mod provider;
pub mod quote;
pub mod routing;
pub mod synthetic;
pub mod text;
pub mod upstream;
