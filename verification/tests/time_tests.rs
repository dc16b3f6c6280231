use kipko::accounting::{Account, AccountBalance, AccountType};
use kipko::decimal::Decimal;
use kipko::handlers::accounting::income_statement_as_of;
use kipko::time::{year_start, Timestamp};

#[test]
fn year_start_keeps_time_of_day() {
    // 2024-03-15T10:30:00Z begins its year at 2024-01-01T10:30:00Z.
    let t = Timestamp::from_unix(1_710_498_600, 123);
    assert_eq!(year_start(t), Timestamp::from_unix(1_704_105_000, 123));
}

#[test]
fn year_start_on_last_second_of_leap_year() {
    // 2000-12-31T23:59:59Z begins its year at 2000-01-01T23:59:59Z.
    let t = Timestamp::from_unix(978_307_199, 0);
    assert_eq!(year_start(t), Timestamp::from_unix(946_771_199, 0));
}

#[test]
fn year_start_before_the_epoch() {
    // 1969-07-20T20:17:40Z begins its year at 1969-01-01T20:17:40Z.
    let t = Timestamp::from_unix(-14_182_940, 0);
    assert_eq!(year_start(t), Timestamp::from_unix(-31_462_940, 0));
}

#[test]
fn year_start_of_new_year_is_itself() {
    let t = Timestamp::from_unix(1_704_067_200, 0);
    assert_eq!(year_start(t), t);
}

#[test]
fn income_statement_runs_from_start_of_year() {
    let revenue = Account::new("Food Revenue".to_string(), AccountType::Revenue, None);
    let rent = Account::new("Rent Expense".to_string(), AccountType::Expense, None);
    let balances = vec![
        AccountBalance::new(&revenue, Decimal::new(0, 0), Decimal::new(500, 0)),
        AccountBalance::new(&rent, Decimal::new(120, 0), Decimal::new(0, 0)),
    ];
    let as_of = Timestamp::from_unix(1_710_498_600, 0);
    let s = income_statement_as_of(&balances, as_of).unwrap();
    assert_eq!(s.start_date, Timestamp::from_unix(1_704_105_000, 0));
    assert_eq!(s.end_date, as_of);
    assert_eq!(s.net_income, Decimal::new(380, 0));
}
