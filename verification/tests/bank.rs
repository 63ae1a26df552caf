use money_example::{Bank, Currency, RateNotFound};

#[test]
fn a_currency_converts_into_itself_at_rate_one() {
    let mut bank = Bank::new();
    assert_eq!(bank.rate(Currency::Dollar, Currency::Dollar), Ok(1));
    assert_eq!(bank.rate(Currency::Franc, Currency::Franc), Ok(1));
    bank.add_rate(Currency::Franc, Currency::Dollar, 2);
    assert_eq!(bank.rate(Currency::Dollar, Currency::Dollar), Ok(1));
    assert_eq!(bank.rate(Currency::Franc, Currency::Franc), Ok(1));
}

#[test]
fn a_registered_rate_for_one_currency_is_ignored() {
    let mut bank = Bank::new();
    bank.add_rate(Currency::Dollar, Currency::Dollar, 5);
    assert_eq!(bank.rate(Currency::Dollar, Currency::Dollar), Ok(1));
}

#[test]
fn an_unregistered_rate_is_not_found() {
    let bank = Bank::new();
    assert_eq!(
        bank.rate(Currency::Franc, Currency::Dollar),
        Err(RateNotFound { from: Currency::Franc, to: Currency::Dollar })
    );
    assert_eq!(
        bank.rate(Currency::Dollar, Currency::Franc),
        Err(RateNotFound { from: Currency::Dollar, to: Currency::Franc })
    );
}

#[test]
fn a_registered_rate_is_found() {
    let mut bank = Bank::new();
    bank.add_rate(Currency::Franc, Currency::Dollar, 2);
    assert_eq!(bank.rate(Currency::Franc, Currency::Dollar), Ok(2));
}

#[test]
fn registering_does_not_register_the_reverse() {
    let mut bank = Bank::new();
    bank.add_rate(Currency::Franc, Currency::Dollar, 2);
    assert_eq!(
        bank.rate(Currency::Dollar, Currency::Franc),
        Err(RateNotFound { from: Currency::Dollar, to: Currency::Franc })
    );
    bank.add_rate(Currency::Dollar, Currency::Franc, 3);
    assert_eq!(bank.rate(Currency::Dollar, Currency::Franc), Ok(3));
    assert_eq!(bank.rate(Currency::Franc, Currency::Dollar), Ok(2));
}

#[test]
fn registering_again_overwrites() {
    let mut bank = Bank::new();
    bank.add_rate(Currency::Franc, Currency::Dollar, 2);
    bank.add_rate(Currency::Franc, Currency::Dollar, 7);
    assert_eq!(bank.rate(Currency::Franc, Currency::Dollar), Ok(7));
}
