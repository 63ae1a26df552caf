//! Money in two currencies, unevaluated sums of money, and a bank that
//! reduces such sums to a single amount through its table of exchange rates.
//!
//! Beside them stands a miniature test runner, `xunit`.

pub mod bank;
pub mod currency;
pub mod expression;
pub mod laws;
pub mod money;
pub mod xunit;

pub use bank::{Bank, RateNotFound};
pub use currency::Currency;
pub use expression::Expression;
pub use money::Money;
