//! What holds of money, expressions and rate tables in general.

use vstd::prelude::*;
use vstd::std_specs::cmp::PartialEqSpec;
use crate::bank::{all_positive, rate_of, RateNotFound, Rates};
use crate::currency::Currency;
use crate::expression::Expression;
use crate::money::{fits, quotient_is_bounded, quotient_toward_zero, wrap, wrap_of_sum, Money};

verus! {

/// Multiplying money keeps its currency, and where the product fits in `i32`
/// the new amount is exactly the old amount times the multiplier.
pub proof fn multiply_is_exact(money: Money, multiplier: i32)
    requires
        fits(money.amount * multiplier),
    ensures
        money.times(multiplier).amount == money.amount * multiplier,
        money.times(multiplier).currency == money.currency,
{
}

/// Whatever the product, multiplying money keeps its currency and gives the
/// product wrapped into `i32`.
pub proof fn multiply_wraps(money: Money, multiplier: i32)
    ensures
        money.times(multiplier).amount == wrap(money.amount * multiplier),
        money.times(multiplier).currency == money.currency,
{
}

/// Dollars never equal francs, whatever the two amounts: neither as money nor
/// as leaves of an expression.
pub proof fn dollars_never_equal_francs(dollars: i32, francs: i32)
    ensures
        (Money { amount: dollars, currency: Currency::Dollar }) != (Money {
            amount: francs,
            currency: Currency::Franc,
        }),
        !Expression::Money(Money { amount: dollars, currency: Currency::Dollar }).eq_spec(
            &Expression::Money(Money { amount: francs, currency: Currency::Franc }),
        ),
{
}

/// Money equals money exactly when amount and currency both agree.
pub proof fn money_equality_is_by_fields(a: Money, b: Money)
    ensures
        (a == b) <==> (a.amount == b.amount && a.currency == b.currency),
{
}

/// An expression with a sum at its root equals nothing, not even itself.
pub proof fn a_sum_equals_nothing(sum: Expression, other: Expression)
    requires
        sum is Sum,
    ensures
        !sum.eq_spec(&other),
        !other.eq_spec(&sum),
        !sum.eq_spec(&sum),
{
}

/// Adding folds into a leaf exactly when both operands are leaves of one
/// currency; the leaf then holds the wrapped sum. In every other case the
/// result is the sum node over the two operands, unchanged.
pub proof fn plus_folds_only_like_leaves(a: Expression, b: Expression)
    ensures
        a.plus(b) is Money <==> (a is Money && b is Money && a->Money_0.currency
            == b->Money_0.currency),
        a.plus(b) matches Expression::Money(money) ==> money.currency == a->Money_0.currency
            && money.amount == wrap(a->Money_0.amount + b->Money_0.amount),
        a.plus(b) matches Expression::Sum(left, right) ==> *left == a && *right == b,
{
}

/// A currency converts into itself at rate 1, whatever the table holds.
pub proof fn rate_into_itself_is_one(rates: Rates, currency: Currency)
    ensures
        rate_of(rates, currency, currency) == Ok::<i32, RateNotFound>(1),
{
}

/// Between two distinct currencies there is no rate but a registered one: a
/// lookup of an unregistered pair fails and names the pair.
pub proof fn unregistered_rate_is_not_found(rates: Rates, from: Currency, to: Currency)
    requires
        from != to,
        !rates.contains_key((from, to)),
    ensures
        rate_of(rates, from, to) == Err::<i32, RateNotFound>(RateNotFound { from, to }),
{
}

/// With no rate registered, every lookup between distinct currencies fails.
pub proof fn empty_table_has_no_rates(from: Currency, to: Currency)
    requires
        from != to,
    ensures
        rate_of(Rates::empty(), from, to) == Err::<i32, RateNotFound>(RateNotFound { from, to }),
{
}

/// Registering a rate for a pair of distinct currencies makes it the rate of
/// that pair and changes the rate of no other pair, the reversed pair
/// included.
pub proof fn registering_changes_one_pair(
    rates: Rates,
    from: Currency,
    to: Currency,
    rate: i32,
    a: Currency,
    b: Currency,
)
    requires
        from != to,
    ensures
        rate_of(rates.insert((from, to), rate), from, to) == Ok::<i32, RateNotFound>(rate),
        (a, b) != (from, to) ==> rate_of(rates.insert((from, to), rate), a, b) == rate_of(
            rates,
            a,
            b,
        ),
        rate_of(rates.insert((from, to), rate), to, from) == rate_of(rates, to, from),
{
}

/// Registering a positive rate keeps every rate of the table positive.
pub proof fn registering_keeps_rates_positive(rates: Rates, from: Currency, to: Currency, rate: i32)
    requires
        all_positive(rates),
        rate > 0,
    ensures
        all_positive(rates.insert((from, to), rate)),
{
}

/// The exact sum of an expression's leaves, each divided by the rate from its
/// currency into `to`.
pub open spec fn total(e: Expression, rates: Rates, to: Currency) -> int
    recommends
        e.convertible(rates, to),
    decreases e,
{
    match e {
        Expression::Money(money) => match rate_of(rates, money.currency, to) {
            Ok(rate) => quotient_toward_zero(money.amount as int, rate as int),
            Err(_) => 0,
        },
        Expression::Sum(augend, addend) => total(*augend, rates, to) + total(*addend, rates, to),
    }
}

/// Where reduction succeeds, its amount is the exact sum of the converted
/// leaves wrapped into `i32`, so it is that sum itself where the sum fits.
pub proof fn reduced_is_wrapped_total(e: Expression, rates: Rates, to: Currency)
    requires
        all_positive(rates),
        e.convertible(rates, to),
    ensures
        e.reduced(rates, to) is Ok,
        e.reduced(rates, to)->Ok_0.currency == to,
        e.reduced(rates, to)->Ok_0.amount == wrap(total(e, rates, to)),
        fits(total(e, rates, to)) ==> e.reduced(rates, to)->Ok_0.amount == total(e, rates, to),
    decreases e,
{
    match e {
        Expression::Money(money) => {
            let rate = rate_of(rates, money.currency, to)->Ok_0;
            assert(rate > 0) by {
                if money.currency != to {
                    assert(rates.contains_key((money.currency, to)));
                }
            }
            quotient_is_bounded(money.amount, rate);
        },
        Expression::Sum(augend, addend) => {
            reduced_is_wrapped_total(*augend, rates, to);
            reduced_is_wrapped_total(*addend, rates, to);
            wrap_of_sum(total(*augend, rates, to), total(*addend, rates, to));
        },
    }
}

/// Multiplying changes no currency: an expression can be reduced after it
/// exactly when it could before.
pub proof fn times_keeps_convertibility(e: Expression, multiplier: i32, rates: Rates, to: Currency)
    ensures
        e.times(multiplier).convertible(rates, to) == e.convertible(rates, to),
        e.times(multiplier) is Sum <==> e is Sum,
    decreases e,
{
    match e {
        Expression::Money(_) => {},
        Expression::Sum(augend, addend) => {
            times_keeps_convertibility(*augend, multiplier, rates, to);
            times_keeps_convertibility(*addend, multiplier, rates, to);
        },
    }
}

} // verus!
