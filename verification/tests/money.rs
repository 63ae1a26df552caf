use money_example::{Bank, Currency, Expression, Money};

#[test]
fn multiplication() {
    let five = Money::dollar(5);

    assert_eq!(Expression::from(five) * 2, Expression::dollar(10));
    assert_eq!(Expression::from(five) * 3, Expression::dollar(15));
}

#[test]
fn equality() {
    assert_eq!(Money::dollar(5), Money::dollar(5));
    assert_ne!(Money::dollar(5), Money::dollar(6));

    assert_ne!(Money::franc(5), Money::dollar(5));
}

#[test]
fn currency() {
    check_currency(Money::dollar(1).currency, "USD");
    check_currency(Money::franc(1).currency, "CHF");
}

fn check_currency(currency: Currency, str_value: &str) {
    assert_eq!(currency.to_string(), str_value.to_string());
}

#[test]
fn simple_addition() {
    let bank = Bank::new();
    let sum = Expression::dollar(5) + Expression::dollar(5);

    let reduced = bank.reduce(sum, Currency::Dollar);
    assert_eq!(reduced, Ok(Money::dollar(10)));
}

#[test]
fn reduce_sum() {
    let bank = Bank::new();
    let sum = Expression::dollar(3) + Expression::dollar(4);
    let result = bank.reduce(sum, Currency::Dollar);
    assert_eq!(result, Ok(Money::dollar(7)));
}

#[test]
fn reduce_money_different_currency() {
    let mut bank = Bank::new();
    bank.add_rate(Currency::Franc, Currency::Dollar, 2);

    let result = bank.reduce(Expression::franc(2), Currency::Dollar);
    assert_eq!(result, Ok(Money::dollar(1)));
}

#[test]
fn identity_rate() {
    assert_eq!(Bank::new().rate(Currency::Dollar, Currency::Dollar), Ok(1));
}

#[test]
fn mixed_addition() {
    let five_bucks = Expression::dollar(5);
    let ten_francs = Expression::franc(10);

    let mut bank = Bank::new();
    bank.add_rate(Currency::Franc, Currency::Dollar, 2);

    let result = bank.reduce(five_bucks + ten_francs, Currency::Dollar);
    assert_eq!(result, Ok(Money::dollar(10)));
}

#[test]
fn sum_plus_money() {
    let five_bucks = Expression::dollar(5);
    let ten_francs = Expression::franc(10);

    let mut bank = Bank::new();
    bank.add_rate(Currency::Franc, Currency::Dollar, 2);

    let sum = five_bucks + ten_francs + Expression::dollar(5);
    let result = bank.reduce(sum, Currency::Dollar);

    assert_eq!(result, Ok(Money::dollar(15)));
}

#[test]
fn sum_times() {
    let five_bucks = Expression::dollar(5);
    let ten_francs = Expression::franc(10);

    let mut bank = Bank::new();
    bank.add_rate(Currency::Franc, Currency::Dollar, 2);

    let sum = (five_bucks + ten_francs) * 2;
    let result = bank.reduce(sum, Currency::Dollar);

    assert_eq!(result, Ok(Money::dollar(20)));
}

#[test]
fn plus_same_currency_returns_money() {
    let sum = Expression::dollar(1) + Expression::dollar(1);
    if let Expression::Money(_) = sum {

    } else {
        panic!("Expected Money, got {:?}", sum);
    }
}
