use kipko::currencies;
use kipko::decimal::Decimal;
use kipko::money::{Money, MoneyError};

fn usd(mantissa: i64, scale: u32) -> Money {
    Money::new(Decimal::new(mantissa, scale), currencies::usd()).unwrap()
}

#[test]
fn test_money_creation() {
    let money = Money::new(Decimal::new(10050, 2), currencies::usd()).unwrap();
    assert_eq!(money.amount(), Decimal::new(10050, 2));
    assert_eq!(money.currency(), currencies::USD);
}

#[test]
fn test_money_addition() {
    let money1 = usd(10000, 2);
    let money2 = usd(5025, 2);
    let result = money1.add(&money2).unwrap();
    assert_eq!(result.amount(), Decimal::new(15025, 2));
}

#[test]
fn test_money_subtraction() {
    let money1 = usd(10000, 2);
    let money2 = usd(2550, 2);
    let result = money1.subtract(&money2).unwrap();
    assert_eq!(result.amount(), Decimal::new(7450, 2));
}

#[test]
fn test_money_multiplication() {
    let money = usd(10000, 2);
    let result = money.multiply(Decimal::new(15, 1)).unwrap();
    assert_eq!(result.amount(), Decimal::new(15000, 2));
}

#[test]
fn test_money_percentage() {
    let money = usd(20000, 2);
    let result = money.percentage(Decimal::new(25, 0)).unwrap();
    assert_eq!(result.amount(), Decimal::new(5000, 2));
}

#[test]
fn test_currency_mismatch() {
    let usd_money = Money::new(Decimal::new(10000, 2), currencies::usd()).unwrap();
    let eur_money = Money::new(Decimal::new(10000, 2), currencies::eur()).unwrap();
    let result = usd_money.add(&eur_money);
    assert!(result.is_err());
    assert!(matches!(result.unwrap_err(), MoneyError::CurrencyMismatch { .. }));
}

#[test]
fn test_insufficient_funds() {
    let money1 = usd(5000, 2);
    let money2 = usd(7500, 2);
    let result = money1.subtract(&money2);
    assert!(result.is_err());
    assert!(matches!(result.unwrap_err(), MoneyError::InsufficientFunds));
}

#[test]
fn negative_amount_is_refused() {
    let result = Money::new(Decimal::new(-1, 2), currencies::usd());
    assert_eq!(result.unwrap_err(), MoneyError::InvalidAmount("Amount cannot be negative".to_string()));
}

#[test]
fn amounts_are_parsed_from_text() {
    let money = Money::from_str("12.34", currencies::gbp()).unwrap();
    assert_eq!(money.amount(), Decimal::new(1234, 2));
    assert_eq!(money.currency(), "GBP");
    let bad = Money::from_str("twelve", currencies::gbp());
    assert_eq!(bad.unwrap_err(), MoneyError::InvalidAmount("Invalid amount: twelve".to_string()));
    let negative = Money::from_str("-3", currencies::gbp());
    assert_eq!(negative.unwrap_err(), MoneyError::InvalidAmount("Amount cannot be negative".to_string()));
}

#[test]
fn negative_factor_is_refused() {
    let result = usd(100, 0).multiply(Decimal::new(-2, 0));
    assert_eq!(result.unwrap_err(), MoneyError::InvalidAmount("Factor cannot be negative".to_string()));
}

#[test]
fn percentage_outside_range_is_refused() {
    let money = usd(100, 0);
    for percent in [Decimal::new(-1, 0), Decimal::new(1001, 1)] {
        assert_eq!(
            money.percentage(percent).unwrap_err(),
            MoneyError::InvalidAmount("Percent must be between 0 and 100".to_string())
        );
    }
    assert_eq!(money.percentage(Decimal::new(100, 0)).unwrap().amount(), Decimal::new(100, 0));
}

#[test]
fn mismatch_names_both_currencies() {
    let result = usd(1, 0).subtract(&Money::new(Decimal::new(1, 0), currencies::jpy()).unwrap());
    assert_eq!(
        result.unwrap_err(),
        MoneyError::CurrencyMismatch { expected: "USD".to_string(), actual: "JPY".to_string() }
    );
}

#[test]
fn addition_overflow_is_an_arithmetic_error() {
    let big = Money::new(Decimal::from_i128_with_scale(79228162514264337593543950335, 0), currencies::usd()).unwrap();
    let result = big.add(&usd(1, 0));
    assert!(matches!(result.unwrap_err(), MoneyError::ArithmeticError(_)));
}

#[test]
fn adding_then_subtracting_gives_the_amount_back() {
    let a = usd(1999, 2);
    let b = usd(501, 3);
    let back = a.add(&b).unwrap().subtract(&b).unwrap();
    assert_eq!(back.amount(), a.amount());
}

#[test]
fn zero_and_text() {
    let zero = Money::zero(currencies::cad());
    assert!(zero.is_zero());
    assert_eq!(zero.currency(), "CAD");
    assert!(!usd(1, 2).is_zero());
    assert_eq!(usd(10050, 2).to_string(), "USD 100.50");
}

#[test]
fn currency_codes() {
    assert_eq!(currencies::usd(), "USD");
    assert_eq!(currencies::eur(), "EUR");
    assert_eq!(currencies::gbp(), "GBP");
    assert_eq!(currencies::jpy(), "JPY");
    assert_eq!(currencies::cad(), "CAD");
    assert_eq!(currencies::aud(), "AUD");
    assert_eq!(currencies::AUD, "AUD");
}

#[test]
fn decimal_equality_is_by_value() {
    assert_eq!(Decimal::new(150, 1), Decimal::new(15, 0));
    assert_ne!(Decimal::new(150, 2), Decimal::new(15, 0));
    assert_eq!(Decimal::new(12345, 3).to_text(), "12.345");
    assert_eq!(Decimal::zero().mantissa(), 0);
    assert_eq!(Decimal::from_i32(-7).scale(), 0);
}

#[test]
fn percentages_in_range_always_succeed() {
    let big = Money::new(Decimal::from_i128_with_scale(79228162514264337593543950335, 0), currencies::usd()).unwrap();
    assert!(big.percentage(Decimal::new(9999, 2)).is_ok());
    assert!(big.percentage(Decimal::new(100, 0)).is_ok());
    let tiny = Money::new(Decimal::new(1, 28), currencies::usd()).unwrap();
    assert!(tiny.percentage(Decimal::new(1, 28)).is_ok());
}

#[test]
fn adding_zero_keeps_the_amount() {
    let a = usd(1234, 3);
    let zero = Money::new(Decimal::new(0, 5), currencies::usd()).unwrap();
    assert_eq!(a.add(&zero).unwrap().amount().scale(), 3);
    assert_eq!(zero.add(&a).unwrap().amount().mantissa(), 1234);
}

#[test]
fn addition_commutes() {
    let a = usd(1050, 2);
    let b = usd(25, 1);
    let ab = a.add(&b).unwrap();
    let ba = b.add(&a).unwrap();
    assert_eq!(ab.amount(), ba.amount());
    assert_eq!(ab.amount(), Decimal::new(1300, 2));
}

#[test]
fn subtracting_what_was_added_gives_it_back() {
    let a = usd(1999, 2);
    let b = usd(5, 0);
    let back = a.add(&b).unwrap().subtract(&b).unwrap();
    assert_eq!(back.amount(), a.amount());
    assert_eq!(back.currency(), a.currency());
}
