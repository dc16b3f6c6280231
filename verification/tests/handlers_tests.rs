use kipko::accounting::{Account, AccountBalance, AccountType};
use kipko::api::ApiService;
use kipko::decimal::Decimal;
use kipko::handlers::accounting::{
    balance_sheet_from_balances, balances_from_rows, income_statement_from_balances, parse_account_type, report_date_at,
    trial_balance_from_rows, BalanceRow, TrialBalanceQuery,
};
use kipko::handlers::inventory::{
    movement_text, parse_movement, stock_adjustment, stock_alerts, InventoryTransactionType, StockLevel,
};
use kipko::handlers::orders::{delivery_fee, order_type_or_default, parse_order_status};
use kipko::handlers::payments::{parse_payment_method, payment_accounts, tips_to_book};
use kipko::handlers::tables::parse_table_status;
use kipko::models::{Order, OrderStatus, PaymentMethod, TableStatus};
use kipko::reports::summarize_orders;
use kipko::time::Timestamp;
use kipko::handlers::{ApiResponse, ErrorResponse, PaginatedResponse, PaginationParams};
use kipko::queries::{count_query, integer_text, number_text, paginate};

fn new_id() -> u128 {
    uuid::Uuid::new_v4().as_u128()
}

#[test]
fn api_response_shapes() {
    let ok = ApiResponse::success(42);
    assert!(ok.success);
    assert_eq!(ok.data, Some(42));
    assert!(ok.error.is_none());
    let failed: ApiResponse<i32> = ApiResponse::error("boom".to_string());
    assert!(!failed.success);
    assert!(failed.data.is_none());
    assert_eq!(failed.error, Some("boom".to_string()));
    let body = ErrorResponse { error: "bad".to_string(), details: None };
    assert_eq!(body.error, "bad");
}

#[test]
fn default_pagination_is_first_page_of_fifty() {
    let p = PaginationParams::default();
    assert_eq!(p.page, Some(1));
    assert_eq!(p.limit, Some(50));
}

#[test]
fn page_count_is_the_ceiling() {
    assert_eq!(PaginatedResponse::new(vec![1, 2], 101, 1, 50).total_pages, 3);
    assert_eq!(PaginatedResponse::new(Vec::<u8>::new(), 100, 2, 50).total_pages, 2);
    assert_eq!(PaginatedResponse::new(Vec::<u8>::new(), 0, 1, 50).total_pages, 0);
    assert_eq!(PaginatedResponse::new(Vec::<u8>::new(), -5, 1, 50).total_pages, 0);
    assert_eq!(PaginatedResponse::new(Vec::<u8>::new(), 7, 1, 0).total_pages, u32::MAX);
    assert_eq!(PaginatedResponse::new(Vec::<u8>::new(), i64::MAX, 1, 1).total_pages, u32::MAX);
    let page = PaginatedResponse::new(vec!["a"], 1, 1, 10);
    assert_eq!(page.items, vec!["a"]);
    assert_eq!(page.total, 1);
    assert_eq!(page.page, 1);
    assert_eq!(page.limit, 10);
}

#[test]
fn pagination_query_text() {
    assert_eq!(paginate("SELECT * FROM orders", 3, 20), "SELECT * FROM orders LIMIT 20 OFFSET 40");
    assert_eq!(paginate("SELECT 1", 1, 0), "SELECT 1 LIMIT 0 OFFSET 0");
}

#[test]
fn count_query_text() {
    assert_eq!(count_query("SELECT id FROM staff"), "SELECT COUNT(*) as total FROM (SELECT id FROM staff) as subquery");
}

#[test]
fn numbers_print_in_decimal() {
    assert_eq!(number_text(0), "0");
    assert_eq!(number_text(4294967295), "4294967295");
    assert_eq!(integer_text(-2147483648), "-2147483648");
    assert_eq!(integer_text(305), "305");
}

#[test]
fn api_urls() {
    let local = ApiService::with_base_url(None);
    assert_eq!(local.base_url(), "http://localhost:3000");
    let api = ApiService::with_base_url(Some("https://pos.example".to_string()));
    assert_eq!(api.endpoint("/tables"), "https://pos.example/tables");
    let id = 0x0123456789abcdef0123456789abcdefu128;
    assert_eq!(
        api.record_url("/tables", id, "/occupy"),
        "https://pos.example/tables/01234567-89ab-cdef-0123-456789abcdef/occupy"
    );
}

#[test]
fn account_types_parse_from_their_names() {
    assert_eq!(parse_account_type("Asset"), Some(AccountType::Asset));
    assert_eq!(parse_account_type("Liability"), Some(AccountType::Liability));
    assert_eq!(parse_account_type("Equity"), Some(AccountType::Equity));
    assert_eq!(parse_account_type("Revenue"), Some(AccountType::Revenue));
    assert_eq!(parse_account_type("Expense"), Some(AccountType::Expense));
    assert_eq!(parse_account_type("asset"), None);
}

fn balance(name: &str, account_type: AccountType, debit: i64, credit: i64) -> AccountBalance {
    let account = Account::new(name.to_string(), account_type, None);
    AccountBalance::new(&account, Decimal::new(debit, 0), Decimal::new(credit, 0))
}

#[test]
fn income_statement_sorts_expenses() {
    let balances = vec![
        balance("Food Revenue", AccountType::Revenue, 0, 1000),
        balance("Beverage Revenue", AccountType::Revenue, 0, 200),
        balance("Food Cost", AccountType::Expense, 300, 0),
        balance("Rent Expense", AccountType::Expense, 250, 0),
        balance("Cash", AccountType::Asset, 900, 0),
    ];
    let when = Timestamp::from_unix(1_700_000_000, 0);
    let s = income_statement_from_balances(&balances, when, when).unwrap();
    assert_eq!(s.revenue, Decimal::new(1200, 0));
    assert_eq!(s.cost_of_goods_sold, Decimal::new(300, 0));
    assert_eq!(s.operating_expenses, Decimal::new(250, 0));
    assert_eq!(s.gross_profit, Decimal::new(900, 0));
    assert_eq!(s.net_income, Decimal::new(650, 0));
    assert_eq!(s.revenue_breakdown.len(), 2);
    assert_eq!(s.expense_breakdown[1].0, "Rent Expense");
}

#[test]
fn balance_sheet_sorts_current_items() {
    let balances = vec![
        balance("Cash", AccountType::Asset, 500, 0),
        balance("Equipment", AccountType::Asset, 1500, 0),
        balance("Accounts Payable", AccountType::Liability, 0, 300),
        balance("Long-term Debt", AccountType::Liability, 0, 700),
        balance("Owner's Equity", AccountType::Equity, 0, 1000),
        balance("Food Revenue", AccountType::Revenue, 0, 50),
    ];
    let s = balance_sheet_from_balances(&balances, Timestamp::from_unix(0, 0)).unwrap();
    assert_eq!(s.assets, Decimal::new(2000, 0));
    assert_eq!(s.current_assets, Decimal::new(500, 0));
    assert_eq!(s.non_current_assets, Decimal::new(1500, 0));
    assert_eq!(s.current_liabilities, Decimal::new(300, 0));
    assert_eq!(s.non_current_liabilities, Decimal::new(700, 0));
    assert_eq!(s.total_liabilities_equity, Decimal::new(2000, 0));
    assert!(s.is_balanced);
}

#[test]
fn order_helpers() {
    assert_eq!(delivery_fee("Delivery"), Decimal::new(100, 0));
    assert_eq!(delivery_fee("DineIn"), Decimal::zero());
    assert_eq!(order_type_or_default(None), "DineIn");
    assert_eq!(order_type_or_default(Some("Takeout".to_string())), "Takeout");
    assert_eq!(parse_order_status("Closed"), OrderStatus::Closed);
    assert_eq!(parse_order_status("Cancelled"), OrderStatus::Cancelled);
    assert_eq!(parse_order_status("whatever"), OrderStatus::Open);
}

#[test]
fn payment_helpers() {
    assert_eq!(parse_payment_method("Card"), PaymentMethod::Card);
    assert_eq!(parse_payment_method("Mpesa"), PaymentMethod::Mobile);
    assert_eq!(parse_payment_method("MobileMoney"), PaymentMethod::Mobile);
    assert_eq!(parse_payment_method("Cheque"), PaymentMethod::Cash);
    assert_eq!(payment_accounts("Card"), ("Card Receivable", "Food Revenue"));
    assert_eq!(payment_accounts("Mpesa"), ("Mobile Money Receivable", "Food Revenue"));
    assert_eq!(payment_accounts("Cash"), ("Cash", "Food Revenue"));
    assert!(tips_to_book(Decimal::new(1, 2)));
    assert!(!tips_to_book(Decimal::zero()));
    assert!(!tips_to_book(Decimal::new(-5, 0)));
}

#[test]
fn stock_movements() {
    assert_eq!(stock_adjustment(InventoryTransactionType::StockIn, 5), 5);
    assert_eq!(stock_adjustment(InventoryTransactionType::StockOut, 5), -5);
    assert_eq!(stock_adjustment(InventoryTransactionType::Adjustment, -2), -2);
    assert_eq!(stock_adjustment(InventoryTransactionType::Transfer, 3), -3);
    assert_eq!(parse_movement("StockOut"), InventoryTransactionType::StockOut);
    assert_eq!(parse_movement("unknown"), InventoryTransactionType::Adjustment);
    assert_eq!(movement_text(InventoryTransactionType::Transfer), "Transfer");
}

#[test]
fn sales_summary_of_orders() {
    let mut closed = Order::new(new_id(), new_id());
    closed.total_amount = kipko::money::Money::new(Decimal::new(3000, 2), "USD".to_string()).unwrap();
    closed.close().unwrap();
    let mut other = Order::new(new_id(), new_id());
    other.total_amount = kipko::money::Money::new(Decimal::new(1000, 2), "USD".to_string()).unwrap();
    other.close().unwrap();
    let open = Order::new(new_id(), new_id());
    let mut cancelled = Order::new(new_id(), new_id());
    cancelled.cancel().unwrap();
    let summary = summarize_orders(&[closed, other, open, cancelled]).unwrap();
    assert_eq!(summary.total_revenue, Decimal::new(40, 0));
    assert_eq!(summary.closed_orders, 2);
    assert_eq!(summary.average_order_value, Decimal::new(20, 0));
    assert_eq!(summary.open_orders, 1);
    assert_eq!(summary.cancelled_orders, 1);
    let empty = summarize_orders(&[]).unwrap();
    assert_eq!(empty.average_order_value, Decimal::zero());
}

#[test]
fn report_dates_read_rfc3339() {
    let today = Timestamp::from_unix(42, 7);
    let q = TrialBalanceQuery { as_of_date: Some("2024-01-15T10:00:00Z".to_string()) };
    assert_eq!(report_date_at(&q, today), Timestamp::from_unix(1705312800, 0));
    let bad = TrialBalanceQuery { as_of_date: Some("yesterday".to_string()) };
    assert_eq!(report_date_at(&bad, today), today);
    let none = TrialBalanceQuery { as_of_date: None };
    assert_eq!(report_date_at(&none, today), today);
}

#[test]
fn table_statuses_parse_from_their_names() {
    assert_eq!(parse_table_status("Occupied"), TableStatus::Occupied);
    assert_eq!(parse_table_status("Dirty"), TableStatus::Dirty);
    assert_eq!(parse_table_status("Reserved"), TableStatus::Reserved);
    assert_eq!(parse_table_status("Empty"), TableStatus::Empty);
    assert_eq!(parse_table_status("??"), TableStatus::Empty);
}

fn row(name: &str, account_type: &str, debits: i64, credits: i64) -> BalanceRow {
    BalanceRow {
        account_id: new_id(),
        name: name.to_string(),
        account_type: account_type.to_string(),
        current_balance: Decimal::zero(),
        total_debits: Decimal::new(debits, 0),
        total_credits: Decimal::new(credits, 0),
    }
}

#[test]
fn balances_skip_unknown_account_types() {
    let rows = vec![
        row("Cash", "Asset", 500, 100),
        row("Mystery", "Other", 1, 0),
        row("Food Revenue", "Revenue", 0, 400),
    ];
    let balances = balances_from_rows(&rows).unwrap();
    assert_eq!(balances.len(), 2);
    assert_eq!(balances[0].net_balance, Decimal::new(400, 0));
    assert_eq!(balances[1].account_name, "Food Revenue");
    assert_eq!(balances[1].net_balance, Decimal::new(400, 0));
    let trial = trial_balance_from_rows(&rows, Timestamp::from_unix(0, 0)).unwrap();
    assert_eq!(trial.accounts.len(), 2);
    assert_eq!(trial.total_debits, Decimal::new(500, 0));
    assert_eq!(trial.total_credits, Decimal::new(500, 0));
    assert!(trial.is_balanced);
}

#[test]
fn stock_alerts_count_low_and_empty_items() {
    let levels = [
        StockLevel { stock_quantity: 0, low_stock_threshold: 5 },
        StockLevel { stock_quantity: 3, low_stock_threshold: 5 },
        StockLevel { stock_quantity: 5, low_stock_threshold: 5 },
        StockLevel { stock_quantity: 9, low_stock_threshold: 5 },
    ];
    assert_eq!(stock_alerts(&levels), (2, 1));
}
