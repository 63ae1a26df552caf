//! Amounts of money in one currency, and the integer arithmetic on amounts.
//!
//! Amounts are `i32`. Sums and products that leave the range of `i32` wrap
//! around in two's complement; nothing here fails on overflow.

use vstd::prelude::*;
use crate::currency::Currency;
use crate::expression::Expression;

verus! {

/// The representative of `x` modulo 2^32 that lies in the range of `i32`.
pub open spec fn wrap(x: int) -> int {
    let r = x % 0x1_0000_0000;
    if r > i32::MAX {
        r - 0x1_0000_0000
    } else {
        r
    }
}

/// Whether `x` lies in the range of `i32`.
pub open spec fn fits(x: int) -> bool {
    i32::MIN <= x <= i32::MAX
}

/// The quotient of `a` by a positive `b`, rounded towards zero.
pub open spec fn quotient_toward_zero(a: int, b: int) -> int
    recommends
        b > 0,
{
    if a >= 0 {
        a / b
    } else {
        -((-a) / b)
    }
}

/// Wrapping leaves a value that fits unchanged.
pub proof fn wrap_of_fitting(x: int)
    requires
        fits(x),
    ensures
        wrap(x) == x,
{
}

/// A wrapped value fits, and differs from the exact one by a multiple of 2^32.
pub proof fn wrap_is_congruent(x: int)
    ensures
        fits(wrap(x)),
        (x - wrap(x)) % 0x1_0000_0000 == 0,
{
}

/// Dividing an amount by a positive rate gives an amount that fits in `i32`
/// and is no further from zero than the amount was.
pub proof fn quotient_is_bounded(amount: i32, rate: i32)
    requires
        rate > 0,
    ensures
        fits(quotient_toward_zero(amount as int, rate as int)),
        amount >= 0 ==> 0 <= quotient_toward_zero(amount as int, rate as int) <= amount,
        amount <= 0 ==> amount <= quotient_toward_zero(amount as int, rate as int) <= 0,
{
    let a = amount as int;
    let r = rate as int;
    if a >= 0 {
        vstd::arithmetic::div_mod::lemma_div_pos_is_pos(a, r);
        vstd::arithmetic::div_mod::lemma_div_is_ordered_by_denominator(a, 1, r);
        vstd::arithmetic::div_mod::lemma_div_basics(a);
    } else {
        vstd::arithmetic::div_mod::lemma_div_pos_is_pos(-a, r);
        vstd::arithmetic::div_mod::lemma_div_is_ordered_by_denominator(-a, 1, r);
        vstd::arithmetic::div_mod::lemma_div_basics(-a);
    }
}

/// Wrapping a sum of wrapped values is wrapping the sum of the exact ones.
pub proof fn wrap_of_sum(x: int, y: int)
    ensures
        wrap(wrap(x) + wrap(y)) == wrap(x + y),
{
}

/// The sum of two amounts, wrapped into `i32`.
pub fn wrapping_sum(a: i32, b: i32) -> (s: i32)
    ensures
        s == wrap(a + b),
{
    a.wrapping_add(b)
}

/// The product of two amounts, wrapped into `i32`.
pub fn wrapping_product(a: i32, b: i32) -> (p: i32)
    ensures
        p == wrap(a * b),
{
    a.wrapping_mul(b)
}

/// Divides an amount by a positive rate, dropping the remainder.
pub fn divide_by_rate(amount: i32, rate: i32) -> (q: i32)
    requires
        rate > 0,
    ensures
        q == quotient_toward_zero(amount as int, rate as int),
{
    amount / rate
}

/// An amount in a currency. Two values are equal exactly when both the
/// amounts and the currencies are.
#[derive(Copy, Clone, Debug, PartialEq, Eq, Structural)]
pub struct Money {
    pub amount: i32,
    pub currency: Currency,
}

impl Money {
    /// The value that `multiply` returns.
    pub open spec fn times(self, multiplier: i32) -> Money {
        Money { amount: wrap(self.amount * multiplier) as i32, currency: self.currency }
    }

    /// `amount` dollars.
    pub fn dollar(amount: i32) -> (m: Money)
        ensures
            m == (Money { amount, currency: Currency::Dollar }),
    {
        Money { amount, currency: Currency::Dollar }
    }

    /// `amount` francs.
    pub fn franc(amount: i32) -> (m: Money)
        ensures
            m == (Money { amount, currency: Currency::Franc }),
    {
        Money { amount, currency: Currency::Franc }
    }

    /// The amount held.
    pub fn amount(&self) -> (a: i32)
        ensures
            a == self.amount,
    {
        self.amount
    }

    /// The currency that the amount is in.
    pub fn currency(&self) -> (c: Currency)
        ensures
            c == self.currency,
    {
        self.currency
    }

    /// The same currency with the amount multiplied, wrapping on overflow.
    pub fn multiply(&self, multiplier: i32) -> (m: Money)
        ensures
            m == self.times(multiplier),
            m.currency == self.currency,
            fits(self.amount * multiplier) ==> m.amount == self.amount * multiplier,
    {
        Money { amount: wrapping_product(self.amount, multiplier), currency: self.currency }
    }

    /// The leaf that holds this money.
    pub fn to_expression(&self) -> (e: Expression)
        ensures
            e == Expression::Money(*self),
    {
        Expression::Money(*self)
    }

    /// Whether the two hold the same amount in the same currency.
    pub fn equals(&self, other: &Money) -> (same: bool)
        ensures
            same == (self.amount == other.amount && self.currency == other.currency),
            same == (*self == *other),
    {
        self.amount == other.amount && self.currency == other.currency
    }
}

} // verus!
