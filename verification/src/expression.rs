//! Expressions: a single amount of money, or the unevaluated sum of two
//! expressions.

use vstd::prelude::*;
use crate::bank::{rate_of, Bank, RateNotFound, Rates};
use crate::currency::Currency;
use crate::money::{divide_by_rate, quotient_toward_zero, wrap, wrapping_sum, Money};

verus! {

/// A tree whose leaves are amounts of money and whose inner nodes are sums.
/// Each sum owns its two operands.
#[derive(Debug)]
pub enum Expression {
    Money(Money),
    Sum(Box<Expression>, Box<Expression>),
}

impl Expression {
    /// The expression that adding `other` to `self` gives.
    ///
    /// Two leaves of one currency fold into one leaf that holds the wrapped
    /// sum of their amounts. Everything else becomes a sum node over the two
    /// operands as they are.
    pub open spec fn plus(self, other: Expression) -> Expression {
        if self is Money && other is Money && self->Money_0.currency == other->Money_0.currency {
            Expression::Money(
                Money {
                    amount: wrap(self->Money_0.amount + other->Money_0.amount) as i32,
                    currency: self->Money_0.currency,
                },
            )
        } else {
            Expression::Sum(Box::new(self), Box::new(other))
        }
    }

    /// The expression that multiplying `self` by `multiplier` gives: the same
    /// tree with every leaf multiplied.
    pub open spec fn times(self, multiplier: i32) -> Expression
        decreases self,
    {
        match self {
            Expression::Money(money) => Expression::Money(money.times(multiplier)),
            Expression::Sum(augend, addend) => Expression::Sum(
                Box::new(augend.times(multiplier)),
                Box::new(addend.times(multiplier)),
            ),
        }
    }

    /// Whether every leaf is in the currency `to` or in a currency that has a
    /// rate into `to`.
    pub open spec fn convertible(self, rates: Rates, to: Currency) -> bool
        decreases self,
    {
        match self {
            Expression::Money(money) => money.currency == to || rates.contains_key(
                (money.currency, to),
            ),
            Expression::Sum(augend, addend) => augend.convertible(rates, to) && addend.convertible(
                rates,
                to,
            ),
        }
    }

    /// What reducing `self` to the currency `to` gives under the table `rates`.
    ///
    /// A leaf is divided by the rate from its currency into `to`, dropping the
    /// remainder. A sum reduces its left operand, then its right one, and adds
    /// the two amounts, wrapping. The first lookup that fails is the result.
    pub open spec fn reduced(self, rates: Rates, to: Currency) -> Result<Money, RateNotFound>
        decreases self,
    {
        match self {
            Expression::Money(money) => match rate_of(rates, money.currency, to) {
                Ok(rate) => Ok(
                    Money {
                        amount: quotient_toward_zero(money.amount as int, rate as int) as i32,
                        currency: to,
                    },
                ),
                Err(e) => Err(e),
            },
            Expression::Sum(augend, addend) => match augend.reduced(rates, to) {
                Ok(left) => match addend.reduced(rates, to) {
                    Ok(right) => Ok(
                        Money { amount: wrap(left.amount + right.amount) as i32, currency: to },
                    ),
                    Err(e) => Err(e),
                },
                Err(e) => Err(e),
            },
        }
    }

    /// Reduction succeeds exactly on the expressions whose leaves can all be
    /// converted, and what it gives is in the target currency.
    pub proof fn reduced_ok_iff_convertible(self, rates: Rates, to: Currency)
        ensures
            self.reduced(rates, to) is Ok <==> self.convertible(rates, to),
            self.reduced(rates, to) matches Ok(money) ==> money.currency == to,
        decreases self,
    {
        match self {
            Expression::Money(_) => {},
            Expression::Sum(augend, addend) => {
                augend.reduced_ok_iff_convertible(rates, to);
                addend.reduced_ok_iff_convertible(rates, to);
            },
        }
    }

    /// Reduces the expression to a single amount in the currency `to`, with
    /// the rates of `bank`.
    pub fn reduce(self, bank: &Bank, to: Currency) -> (r: Result<Money, RateNotFound>)
        requires
            bank.well_formed(),
        ensures
            r == self.reduced(bank@, to),
            r is Ok <==> self.convertible(bank@, to),
            r matches Ok(money) ==> money.currency == to,
        decreases self,
    {
        proof {
            self.reduced_ok_iff_convertible(bank@, to);
        }
        match self {
            Expression::Money(Money { amount, currency: from }) => {
                match bank.rate(from, to) {
                    Ok(rate) => Ok(Money { amount: divide_by_rate(amount, rate), currency: to }),
                    Err(e) => Err(e),
                }
            },
            Expression::Sum(augend, addend) => {
                let left = match augend.reduce(bank, to) {
                    Ok(money) => money,
                    Err(e) => { return Err(e); },
                };
                let right = match addend.reduce(bank, to) {
                    Ok(money) => money,
                    Err(e) => { return Err(e); },
                };
                Ok(Money { amount: wrapping_sum(left.amount, right.amount), currency: to })
            },
        }
    }

    /// A leaf of `amount` dollars.
    pub fn dollar(amount: i32) -> (e: Expression)
        ensures
            e == Expression::Money(Money { amount, currency: Currency::Dollar }),
    {
        Expression::Money(Money::dollar(amount))
    }

    /// A leaf of `amount` francs.
    pub fn franc(amount: i32) -> (e: Expression)
        ensures
            e == Expression::Money(Money { amount, currency: Currency::Franc }),
    {
        Expression::Money(Money::franc(amount))
    }
}

/// Two expressions are equal only when both are leaves that hold equal
/// money. An expression with a sum in it equals nothing, not even itself.
impl PartialEq for Expression {
    fn eq(&self, other: &Expression) -> (same: bool) {
        match (self, other) {
            (Expression::Money(a), Expression::Money(b)) => a.equals(b),
            _ => false,
        }
    }
}

impl vstd::std_specs::cmp::PartialEqSpecImpl for Expression {
    open spec fn obeys_eq_spec() -> bool {
        true
    }

    open spec fn eq_spec(&self, other: &Expression) -> bool {
        &&& *self is Money
        &&& *other is Money
        &&& self->Money_0 == other->Money_0
    }
}

/// Money becomes the leaf that holds it.
impl From<Money> for Expression {
    fn from(money: Money) -> (e: Expression) {
        Expression::Money(money)
    }
}

impl vstd::std_specs::convert::FromSpecImpl<Money> for Expression {
    open spec fn obeys_from_spec() -> bool {
        true
    }

    open spec fn from_spec(money: Money) -> Expression {
        Expression::Money(money)
    }
}

/// `expression * multiplier` multiplies every leaf, wrapping on overflow, and
/// keeps the shape of the tree.
impl core::ops::Mul<i32> for Expression {
    type Output = Expression;

    fn mul(self, multiplier: i32) -> (product: Expression)
        decreases self,
    {
        match self {
            Expression::Money(money) => Expression::Money(money.multiply(multiplier)),
            Expression::Sum(augend, addend) => {
                Expression::Sum(Box::new(*augend * multiplier), Box::new(*addend * multiplier))
            },
        }
    }
}

impl vstd::std_specs::ops::MulSpecImpl<i32> for Expression {
    open spec fn obeys_mul_spec() -> bool {
        true
    }

    open spec fn mul_req(self, multiplier: i32) -> bool {
        true
    }

    open spec fn mul_spec(self, multiplier: i32) -> Expression {
        self.times(multiplier)
    }
}

/// `a + b` folds two leaves of one currency into one leaf, wrapping on
/// overflow, and otherwise builds the sum node over `a` and `b`. Nothing
/// below the two operands is folded or rearranged.
impl core::ops::Add for Expression {
    type Output = Expression;

    fn add(self, other: Expression) -> (sum: Expression) {
        match (&self, &other) {
            (Expression::Money(augend), Expression::Money(addend)) if augend.currency
                == addend.currency => {
                Expression::Money(
                    Money {
                        amount: wrapping_sum(augend.amount, addend.amount),
                        currency: augend.currency,
                    },
                )
            },
            _ => Expression::Sum(Box::new(self), Box::new(other)),
        }
    }
}

impl vstd::std_specs::ops::AddSpecImpl for Expression {
    open spec fn obeys_add_spec() -> bool {
        true
    }

    open spec fn add_req(self, other: Expression) -> bool {
        true
    }

    open spec fn add_spec(self, other: Expression) -> Expression {
        self.plus(other)
    }
}

} // verus!
