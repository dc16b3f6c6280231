use kipko::accounting::{
    Account, AccountBalance, AccountType, AccountingError, AccountingSystem, BalanceSheet, ChartOfAccounts,
    DebitCredit, IncomeStatement, JournalEntry, TrialBalance, Transaction,
};
use kipko::currencies;
use kipko::decimal::Decimal;
use kipko::models::PaymentMethod;
use kipko::money::Money;
use kipko::time::Timestamp;

fn new_id() -> u128 {
    uuid::Uuid::new_v4().as_u128()
}

fn usd(mantissa: i64, scale: u32) -> Money {
    Money::new(Decimal::new(mantissa, scale), currencies::usd()).unwrap()
}

#[test]
fn test_chart_of_accounts_initialization() {
    let coa = ChartOfAccounts::initialize_restaurant_accounts();
    assert!(coa.get_account_by_name("Cash").is_some());
    assert!(coa.get_account_by_name("Food Revenue").is_some());
    assert!(coa.get_account_by_name("Tax Payable").is_some());
    assert!(coa.get_account_by_name("Food Cost").is_some());
}

#[test]
fn test_payment_transaction() {
    let mut accounting = AccountingSystem::new();

    let payment_amount = Money::new(Decimal::new(10000, 2), "USD".to_string()).unwrap();
    let tax_amount = Money::new(Decimal::new(850, 2), "USD".to_string()).unwrap();
    let order_id = new_id();

    let transaction = accounting.record_payment(payment_amount, PaymentMethod::Cash, tax_amount, order_id).unwrap();

    assert_eq!(accounting.get_transactions().len(), 1);

    let entries = accounting.get_journal_entries(&transaction.id);
    assert_eq!(entries.len(), 3);

    let cash_balance = accounting.get_account_balance("Cash").unwrap();
    assert_eq!(cash_balance.amount(), Decimal::new(10000, 2));

    let tax_balance = accounting.get_account_balance("Tax Payable").unwrap();
    assert_eq!(tax_balance.amount(), Decimal::new(850, 2));
}

#[test]
fn test_transaction_balance_verification() {
    let transaction_id = new_id();
    let account_id = new_id();
    let amount = Money::new(Decimal::new(10000, 2), "USD".to_string()).unwrap();

    let balanced_entries = vec![
        JournalEntry::new(transaction_id, account_id, DebitCredit::Debit, amount.clone(), None),
        JournalEntry::new(transaction_id, account_id, DebitCredit::Credit, amount.clone(), None),
    ];
    assert!(Transaction::verify_balance(&balanced_entries).is_ok());

    let unbalanced_entries = vec![
        JournalEntry::new(transaction_id, account_id, DebitCredit::Debit, amount.clone(), None),
        JournalEntry::new(
            transaction_id,
            account_id,
            DebitCredit::Credit,
            Money::new(Decimal::new(5000, 2), "USD".to_string()).unwrap(),
            None,
        ),
    ];
    assert!(Transaction::verify_balance(&unbalanced_entries).is_err());
}

#[test]
fn test_account_normal_balance() {
    assert_eq!(AccountType::Asset.normal_balance(), DebitCredit::Debit);
    assert_eq!(AccountType::Expense.normal_balance(), DebitCredit::Debit);
    assert_eq!(AccountType::Liability.normal_balance(), DebitCredit::Credit);
    assert_eq!(AccountType::Equity.normal_balance(), DebitCredit::Credit);
    assert_eq!(AccountType::Revenue.normal_balance(), DebitCredit::Credit);
}

#[test]
fn unbalanced_entries_report_both_totals() {
    let t = new_id();
    let entries = vec![
        JournalEntry::new(t, new_id(), DebitCredit::Debit, usd(3000, 2), None),
        JournalEntry::new(t, new_id(), DebitCredit::Debit, usd(1000, 2), None),
        JournalEntry::new(t, new_id(), DebitCredit::Credit, usd(3500, 2), None),
    ];
    match Transaction::verify_balance(&entries) {
        Err(AccountingError::UnbalancedTransaction { debits, credits }) => {
            assert_eq!(debits.amount(), Decimal::new(4000, 2));
            assert_eq!(credits.amount(), Decimal::new(3500, 2));
        },
        other => panic!("unexpected {:?}", other),
    }
}

#[test]
fn entries_in_another_currency_cannot_be_totalled() {
    let t = new_id();
    let euros = Money::new(Decimal::new(100, 0), currencies::eur()).unwrap();
    let entries = vec![
        JournalEntry::new(t, new_id(), DebitCredit::Debit, euros.clone(), None),
        JournalEntry::new(t, new_id(), DebitCredit::Credit, euros, None),
    ];
    assert!(Transaction::checked_verify_balance(&entries).is_none());
}

#[test]
fn duplicate_account_names_are_refused() {
    let mut chart = ChartOfAccounts::new();
    let first = Account::new("Cash".to_string(), AccountType::Asset, None);
    assert!(chart.add_account(first).is_ok());
    let second = Account::new("Cash".to_string(), AccountType::Asset, None);
    assert_eq!(chart.add_account(second), Err(AccountingError::DuplicateAccount("Cash".to_string())));
    assert!(chart.get_account_by_name("Bank").is_none());
}

#[test]
fn payment_by_card_debits_card_receivable() {
    let mut accounting = AccountingSystem::new();
    let order_id = new_id();
    let t = accounting.record_payment(usd(5000, 2), PaymentMethod::Card, usd(0, 0), order_id).unwrap();
    assert_eq!(t.reference_id, Some(order_id));
    assert_eq!(accounting.get_journal_entries(&t.id).len(), 2);
    assert_eq!(accounting.get_account_balance("Card Receivable").unwrap().amount(), Decimal::new(5000, 2));
    assert_eq!(accounting.get_account_balance("Cash").unwrap().amount(), Decimal::zero());
    assert_eq!(accounting.get_account_balance("Food Revenue").unwrap().amount(), Decimal::new(5000, 2));
    assert!(accounting.get_account_balance("No Such Account").is_none());
}

#[test]
fn payment_in_another_currency_is_not_recordable() {
    let mut accounting = AccountingSystem::new();
    let euros = Money::new(Decimal::new(10, 0), currencies::eur()).unwrap();
    let tax = Money::new(Decimal::new(1, 0), currencies::eur()).unwrap();
    assert!(accounting.try_record_payment(euros, PaymentMethod::Cash, tax, new_id()).is_none());
    assert_eq!(accounting.get_transactions().len(), 0);
}

#[test]
fn tips_move_cash_to_tips_payable() {
    let mut accounting = AccountingSystem::new();
    let staff = new_id();
    let t = accounting.record_tip(usd(500, 2), staff, new_id()).unwrap();
    let entries = accounting.get_journal_entries(&t.id);
    assert_eq!(entries.len(), 2);
    assert_eq!(t.description, format!("Tip for staff {}", uuid::Uuid::from_u128(staff)));
    assert_eq!(accounting.get_account_balance("Tips Payable").unwrap().amount(), Decimal::new(500, 2));
}

#[test]
fn books_balance_after_several_transactions() {
    let mut accounting = AccountingSystem::new();
    accounting.record_payment(usd(10000, 2), PaymentMethod::Cash, usd(850, 2), new_id()).unwrap();
    accounting.record_payment(usd(2000, 2), PaymentMethod::Mobile, usd(100, 2), new_id()).unwrap();
    accounting.record_tip(usd(300, 2), new_id(), new_id()).unwrap();
    let mut debits = Money::zero(currencies::usd());
    let mut credits = Money::zero(currencies::usd());
    for t in accounting.get_transactions() {
        for e in accounting.get_journal_entries(&t.id) {
            match e.debit_credit {
                DebitCredit::Debit => debits = debits.add(&e.amount).unwrap(),
                DebitCredit::Credit => credits = credits.add(&e.amount).unwrap(),
            }
        }
    }
    assert_eq!(debits.amount(), credits.amount());
    assert_eq!(debits.amount(), Decimal::new(12300, 2));
}

#[test]
fn statements_compute_their_totals() {
    let now = Timestamp::from_unix(1_700_000_000, 0);
    let mut income = IncomeStatement::new(None, now, now);
    income.revenue = Decimal::new(1000, 0);
    income.cost_of_goods_sold = Decimal::new(300, 0);
    income.operating_expenses = Decimal::new(200, 0);
    income.calculate();
    assert_eq!(income.gross_profit, Decimal::new(700, 0));
    assert_eq!(income.net_income, Decimal::new(500, 0));

    let mut sheet = BalanceSheet::new(None, now);
    sheet.assets = Decimal::new(900, 0);
    sheet.liabilities = Decimal::new(400, 0);
    sheet.equity = Decimal::new(500, 0);
    sheet.calculate();
    assert_eq!(sheet.total_liabilities_equity, Decimal::new(900, 0));
    assert!(sheet.is_balanced);
    sheet.equity = Decimal::new(499, 0);
    sheet.calculate();
    assert!(!sheet.is_balanced);
}

#[test]
fn trial_balance_adds_up_accounts() {
    let now = Timestamp::from_unix(1_700_000_000, 0);
    let cash = Account::new("Cash".to_string(), AccountType::Asset, None);
    let revenue = Account::new("Food Revenue".to_string(), AccountType::Revenue, None);
    let mut trial = TrialBalance::new(None, now);
    trial.add_account(AccountBalance::new(&cash, Decimal::new(150, 0), Decimal::new(50, 0)));
    trial.add_account(AccountBalance::new(&revenue, Decimal::new(0, 0), Decimal::new(100, 0)));
    assert_eq!(trial.total_debits, Decimal::new(150, 0));
    assert_eq!(trial.total_credits, Decimal::new(150, 0));
    assert!(trial.is_balanced);
    assert_eq!(trial.accounts[0].net_balance, Decimal::new(100, 0));
    assert_eq!(trial.accounts[1].net_balance, Decimal::new(100, 0));
}
