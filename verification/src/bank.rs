//! The bank: a table of exchange rates between ordered pairs of currencies.

use std::collections::HashMap;
use vstd::prelude::*;
use crate::currency::Currency;
use crate::expression::Expression;
use crate::money::Money;

verus! {

broadcast use vstd::std_specs::hash::group_hash_axioms;

/// The failure of a rate lookup: no rate from `from` to `to` was registered.
#[derive(Copy, Clone, Debug, PartialEq, Eq, Structural)]
pub struct RateNotFound {
    pub from: Currency,
    pub to: Currency,
}

/// A rate table: what was registered for each ordered pair of currencies.
pub type Rates = Map<(Currency, Currency), i32>;

/// The rate that converts `from` into `to` under the table `rates`.
///
/// A currency converts into itself at rate 1 whatever the table holds; any
/// other pair has the rate that was registered for it, and none otherwise.
pub open spec fn rate_of(rates: Rates, from: Currency, to: Currency) -> Result<i32, RateNotFound> {
    if from == to {
        Ok(1i32)
    } else if rates.contains_key((from, to)) {
        Ok(rates[(from, to)])
    } else {
        Err(RateNotFound { from, to })
    }
}

/// Whether every rate of the table is positive.
pub open spec fn all_positive(rates: Rates) -> bool {
    forall|pair: (Currency, Currency)| #[trigger] rates.contains_key(pair) ==> rates[pair] > 0
}

/// The position of a currency among the currencies.
spec fn ordinal(c: Currency) -> u8 {
    match c {
        Currency::Dollar => 0u8,
        Currency::Franc => 1u8,
    }
}

/// The key under which the table stores the rate of an ordered pair.
spec fn slot(from: Currency, to: Currency) -> u8 {
    (ordinal(from) * 2 + ordinal(to)) as u8
}

/// Distinct ordered pairs are stored under distinct keys.
proof fn slot_is_injective(a: (Currency, Currency), b: (Currency, Currency))
    requires
        slot(a.0, a.1) == slot(b.0, b.1),
    ensures
        a == b,
{
}

fn slot_of(from: Currency, to: Currency) -> (k: u8)
    ensures
        k == slot(from, to),
{
    let f: u8 = match from {
        Currency::Dollar => 0,
        Currency::Franc => 1,
    };
    let t: u8 = match to {
        Currency::Dollar => 0,
        Currency::Franc => 1,
    };
    f * 2 + t
}

/// Holds the exchange rates and reduces expressions with them.
pub struct Bank {
    rates: HashMap<u8, i32>,
}

impl View for Bank {
    type V = Rates;

    /// The table as a map from ordered pairs of currencies to rates.
    closed spec fn view(&self) -> Rates {
        Map::new(
            |pair: (Currency, Currency)| self.rates@.contains_key(slot(pair.0, pair.1)),
            |pair: (Currency, Currency)| self.rates@[slot(pair.0, pair.1)],
        )
    }
}

impl Bank {
    /// Every registered rate is positive. `new` establishes this and
    /// `add_rate` keeps it.
    pub open spec fn well_formed(&self) -> bool {
        all_positive(self@)
    }

    /// A bank with no rate registered.
    pub fn new() -> (bank: Bank)
        ensures
            bank@ == Rates::empty(),
            bank.well_formed(),
    {
        let bank = Bank { rates: HashMap::new() };
        assert(bank@ =~= Rates::empty());
        bank
    }

    /// Registers `rate` for converting `from` into `to`, in place of any rate
    /// that the pair had. No other pair changes; in particular the pair from
    /// `to` to `from` does not.
    pub fn add_rate(&mut self, from: Currency, to: Currency, rate: i32)
        requires
            old(self).well_formed(),
            rate > 0,
        ensures
            final(self)@ == old(self)@.insert((from, to), rate),
            final(self).well_formed(),
    {
        let k = slot_of(from, to);
        self.rates.insert(k, rate);
        proof {
            assert forall|pair: (Currency, Currency)|
                self@.contains_key(pair) == old(self)@.insert((from, to), rate).contains_key(
                    pair,
                ) && (self@.contains_key(pair) ==> self@[pair] == old(self)@.insert(
                    (from, to),
                    rate,
                )[pair]) by {
                if slot(pair.0, pair.1) == k {
                    slot_is_injective(pair, (from, to));
                }
            }
            assert(self@ =~= old(self)@.insert((from, to), rate));
        }
    }

    /// The rate that converts `from` into `to`: 1 for a currency into itself,
    /// else what was registered for the pair, else the failure that names it.
    pub fn rate(&self, from: Currency, to: Currency) -> (r: Result<i32, RateNotFound>)
        requires
            self.well_formed(),
        ensures
            r == rate_of(self@, from, to),
            r matches Ok(rate) ==> rate > 0,
    {
        if from == to {
            Ok(1)
        } else {
            let k = slot_of(from, to);
            match self.rates.get(&k) {
                Some(rate) => Ok(*rate),
                None => Err(RateNotFound { from, to }),
            }
        }
    }

    /// Reduces `expr` to a single amount in the currency `to`.
    pub fn reduce(&self, expr: Expression, to: Currency) -> (r: Result<Money, RateNotFound>)
        requires
            self.well_formed(),
        ensures
            r == expr.reduced(self@, to),
            r is Ok <==> expr.convertible(self@, to),
            r matches Ok(money) ==> money.currency == to,
    {
        expr.reduce(self, to)
    }
}

} // verus!
