//! What the accounting endpoints compute from the account balances: the
//! account type stored as text, and the income statement and balance sheet
//! drawn up from the balances of all accounts.
use vstd::prelude::*;
use vstd::string::*;
use crate::accounting::{
    can_add_balance, net_parts, Account, AccountBalance, AccountType, BalanceSheet, IncomeStatement, TrialBalance,
};
use crate::ids::Id;
use crate::decimal::{checked_sum, dparts, Decimal};
use crate::money::{difference_of, fold_sum, sum_of};
use crate::text::{contains_text, str_contains, str_equal};
use crate::time::{in_calendar, now, start_of_year, year_start, Timestamp};

verus! {

/// The date a report is drawn up at, as text; today where absent.
#[derive(Debug, Clone)]
pub struct TrialBalanceQuery {
    pub as_of_date: Option<String>,
}

/// The point in time `chrono`'s `FromStr` for `DateTime<Utc>` reads from a
/// text (RFC 3339, and the relaxed forms it also accepts, such as a space
/// between date and time or an offset without a colon), as seconds since the
/// epoch and nanoseconds.
pub uninterp spec fn rfc3339_time(text: Seq<char>) -> Option<(i64, u32)>;

/// Calls `str::parse::<chrono::DateTime<chrono::Utc>>`; the point in time,
/// where the text is one, is named by `rfc3339_time`, and lies between
/// `DateTime::<Utc>::MIN_UTC` and `MAX_UTC`, as every `DateTime<Utc>` does.
#[verifier::external_body]
fn parse_time(text: &str) -> (r: Option<Timestamp>)
    ensures
        match r {
            Some(t) => rfc3339_time(text@) == Some((t.secs, t.nanos)) && in_calendar(t),
            None => rfc3339_time(text@) is None,
        },
{
    match text.parse::<chrono::DateTime<chrono::Utc>>() {
        Ok(t) => Some(Timestamp { secs: t.timestamp(), nanos: t.timestamp_subsec_nanos() }),
        Err(_) => None,
    }
}

/// The date a report is drawn up at: the date the query gives, where it
/// reads as one, and `today` otherwise.
pub open spec fn report_date_of(query: TrialBalanceQuery, today: Timestamp) -> Timestamp {
    match query.as_of_date {
        Some(text) => match rfc3339_time(text@) {
            Some(p) => Timestamp { secs: p.0, nanos: p.1 },
            None => today,
        },
        None => today,
    }
}

/// The date a report is drawn up at, with `today` for a missing or
/// unreadable date.
pub fn report_date_at(query: &TrialBalanceQuery, today: Timestamp) -> (r: Timestamp)
    ensures
        r == report_date_of(*query, today),
        in_calendar(today) ==> in_calendar(r),
{
    match &query.as_of_date {
        Some(text) => match parse_time(text.as_str()) {
            Some(t) => t,
            None => today,
        },
        None => today,
    }
}

/// The date a report is drawn up at, with the current time for a missing
/// or unreadable date.
pub fn report_date(query: &TrialBalanceQuery) -> (r: Timestamp)
    ensures
        exists|today: Timestamp| r == report_date_of(*query, today),
        in_calendar(r),
{
    let today = now();
    report_date_at(query, today)
}

/// The account type stored under this name, where it is one.
pub open spec fn account_type_named(name: Seq<char>) -> Option<AccountType> {
    if name == "Asset"@ {
        Some(AccountType::Asset)
    } else if name == "Liability"@ {
        Some(AccountType::Liability)
    } else if name == "Equity"@ {
        Some(AccountType::Equity)
    } else if name == "Revenue"@ {
        Some(AccountType::Revenue)
    } else if name == "Expense"@ {
        Some(AccountType::Expense)
    } else {
        None
    }
}

/// The account type stored as this text; `None` for any other text.
pub fn parse_account_type(text: &str) -> (r: Option<AccountType>)
    ensures
        r == account_type_named(text@),
{
    if str_equal(text, "Asset") {
        Some(AccountType::Asset)
    } else if str_equal(text, "Liability") {
        Some(AccountType::Liability)
    } else if str_equal(text, "Equity") {
        Some(AccountType::Equity)
    } else if str_equal(text, "Revenue") {
        Some(AccountType::Revenue)
    } else if str_equal(text, "Expense") {
        Some(AccountType::Expense)
    } else {
        None
    }
}

/// An expense account counts as cost of goods sold where its name mentions
/// cost, food or beverage.
pub open spec fn is_cost_of_goods(name: Seq<char>) -> bool {
    contains_text(name, "Cost"@) || contains_text(name, "Food"@) || contains_text(name, "Beverage"@)
}

/// An asset account is current where its name mentions cash, receivables or
/// inventory.
pub open spec fn is_current_asset(name: Seq<char>) -> bool {
    contains_text(name, "Cash"@) || contains_text(name, "Receivable"@) || contains_text(name, "Inventory"@)
}

/// A liability account is current where its name mentions payables.
pub open spec fn is_current_liability(name: Seq<char>) -> bool {
    contains_text(name, "Payable"@)
}

/// The running totals of an income statement: revenue, cost of goods sold
/// and operating expenses.
pub type IncomeTotals = ((i128, u32), (i128, u32), (i128, u32));

/// The income totals of the balances, from zero: revenue accounts add to
/// revenue, expense accounts to cost of goods sold or operating expenses,
/// other accounts to nothing; `None` where an addition fails.
pub open spec fn income_totals(bs: Seq<AccountBalance>) -> Option<IncomeTotals>
    decreases bs.len(),
{
    if bs.len() == 0 {
        Some(((0i128, 0u32), (0i128, 0u32), (0i128, 0u32)))
    } else {
        match income_totals(bs.drop_last()) {
            None => None,
            Some(t) => {
                let b = bs.last();
                let net = dparts(b.net_balance);
                match b.account_type {
                    AccountType::Revenue => match sum_of(t.0, net) {
                        Some(r) => Some((r, t.1, t.2)),
                        None => None,
                    },
                    AccountType::Expense => if is_cost_of_goods(b.account_name@) {
                        match sum_of(t.1, net) {
                            Some(c) => Some((t.0, c, t.2)),
                            None => None,
                        }
                    } else {
                        match sum_of(t.2, net) {
                            Some(o) => Some((t.0, t.1, o)),
                            None => None,
                        }
                    },
                    _ => Some(t),
                }
            },
        }
    }
}

/// The names and net balances of the balances of this type, in order.
pub open spec fn lines_of_type(bs: Seq<AccountBalance>, account_type: AccountType) -> Seq<(Seq<char>, Decimal)>
    decreases bs.len(),
{
    if bs.len() == 0 {
        Seq::empty()
    } else if bs.last().account_type == account_type {
        lines_of_type(bs.drop_last(), account_type).push((bs.last().account_name@, bs.last().net_balance))
    } else {
        lines_of_type(bs.drop_last(), account_type)
    }
}

/// The breakdown holds these names and amounts, in order.
pub open spec fn breakdown_is(v: Seq<(String, Decimal)>, lines: Seq<(Seq<char>, Decimal)>) -> bool {
    &&& v.len() == lines.len()
    &&& forall|i: int| 0 <= i < v.len() ==> (#[trigger] v[i]).0@ == lines[i].0 && v[i].1 == lines[i].1
}

/// Gross profit and net income can be computed from the totals.
pub open spec fn profits_computable(t: IncomeTotals) -> bool {
    match difference_of(t.0, t.1) {
        Some(g) => difference_of(g, t.2) is Some,
        None => false,
    }
}

proof fn lemma_income_totals_prefix(bs: Seq<AccountBalance>, i: int)
    requires
        0 <= i <= bs.len(),
        income_totals(bs.take(i)) is None,
    ensures
        income_totals(bs) is None,
    decreases bs.len() - i,
{
    if i < bs.len() {
        assert(bs.take(i + 1).drop_last() =~= bs.take(i));
        lemma_income_totals_prefix(bs, i + 1);
    } else {
        assert(bs.take(i) =~= bs);
    }
}

/// `s` is the income statement for the period from `start` to `end` drawn up
/// from the balances `bs`: revenue, cost of goods sold and operating expenses
/// are the totals of `income_totals`, the breakdowns list the revenue and the
/// expense accounts, and gross profit and net income are computed from them.
pub open spec fn income_statement_is(s: IncomeStatement, bs: Seq<AccountBalance>, start: Timestamp, end: Timestamp) -> bool {
    let t = income_totals(bs).unwrap();
    let g = difference_of(t.0, t.1).unwrap();
    &&& s.period_id is None
    &&& s.start_date == start
    &&& s.end_date == end
    &&& dparts(s.revenue) == t.0
    &&& dparts(s.cost_of_goods_sold) == t.1
    &&& dparts(s.operating_expenses) == t.2
    &&& dparts(s.gross_profit) == g
    &&& dparts(s.net_income) == difference_of(g, t.2).unwrap()
    &&& breakdown_is(s.revenue_breakdown@, lines_of_type(bs, AccountType::Revenue))
    &&& breakdown_is(s.expense_breakdown@, lines_of_type(bs, AccountType::Expense))
}

/// The income statement for the period from `start` to `end`, drawn up from
/// the balances as `income_statement_is` says. `None` where an addition or
/// subtraction fails.
pub fn income_statement_from_balances(balances: &[AccountBalance], start: Timestamp, end: Timestamp) -> (r: Option<IncomeStatement>)
    ensures
        r is Some <==> (income_totals(balances@) matches Some(t) && profits_computable(t)),
        r matches Some(s) ==> income_statement_is(s, balances@, start, end),
{
    let ghost bs = balances@;
    let mut s = IncomeStatement::new(None, start, end);
    let mut i: usize = 0;
    proof {
        assert(bs.take(0) =~= Seq::<AccountBalance>::empty());
    }
    while i < balances.len()
        invariant
            i <= bs.len(),
            bs == balances@,
            s.period_id is None,
            s.start_date == start,
            s.end_date == end,
            income_totals(bs.take(i as int)) == Some((dparts(s.revenue), dparts(s.cost_of_goods_sold), dparts(s.operating_expenses))),
            breakdown_is(s.revenue_breakdown@, lines_of_type(bs.take(i as int), AccountType::Revenue)),
            breakdown_is(s.expense_breakdown@, lines_of_type(bs.take(i as int), AccountType::Expense)),
        decreases balances.len() - i,
    {
        proof {
            assert(bs.take(i + 1).drop_last() =~= bs.take(i as int));
            assert(bs.take(i + 1).last() == bs[i as int]);
        }
        let b = &balances[i];
        match b.account_type {
            AccountType::Revenue => {
                match checked_sum(&s.revenue, &b.net_balance) {
                    Some(v) => {
                        s.revenue = v;
                    },
                    None => {
                        proof {
                            lemma_income_totals_prefix(bs, i + 1);
                        }
                        return None;
                    },
                }
                s.revenue_breakdown.push((b.account_name.clone(), b.net_balance));
            },
            AccountType::Expense => {
                let cost = str_contains(b.account_name.as_str(), "Cost") || str_contains(
                    b.account_name.as_str(),
                    "Food",
                ) || str_contains(b.account_name.as_str(), "Beverage");
                if cost {
                    match checked_sum(&s.cost_of_goods_sold, &b.net_balance) {
                        Some(v) => {
                            s.cost_of_goods_sold = v;
                        },
                        None => {
                            proof {
                                lemma_income_totals_prefix(bs, i + 1);
                            }
                            return None;
                        },
                    }
                } else {
                    match checked_sum(&s.operating_expenses, &b.net_balance) {
                        Some(v) => {
                            s.operating_expenses = v;
                        },
                        None => {
                            proof {
                                lemma_income_totals_prefix(bs, i + 1);
                            }
                            return None;
                        },
                    }
                }
                s.expense_breakdown.push((b.account_name.clone(), b.net_balance));
            },
            _ => {},
        }
        i = i + 1;
    }
    proof {
        assert(bs.take(bs.len() as int) =~= bs);
    }
    if s.try_calculate() {
        Some(s)
    } else {
        None
    }
}

/// The running totals of a balance sheet: assets, current assets,
/// non-current assets, liabilities, current liabilities, non-current
/// liabilities and equity.
pub type SheetTotals = ((i128, u32), (i128, u32), (i128, u32), (i128, u32), (i128, u32), (i128, u32), (i128, u32));

/// The income statement for the year to `as_of`: from January 1 of the year
/// `as_of` falls within, at the same time of day, up to `as_of`.
pub fn income_statement_as_of(balances: &[AccountBalance], as_of: Timestamp) -> (r: Option<IncomeStatement>)
    requires
        in_calendar(as_of),
    ensures
        r is Some <==> (income_totals(balances@) matches Some(t) && profits_computable(t)),
        r matches Some(s) ==> income_statement_is(s, balances@, start_of_year(as_of), as_of),
{
    let start = year_start(as_of);
    income_statement_from_balances(balances, start, as_of)
}

/// One balance added to the sheet totals: an asset to assets and to current
/// or non-current assets, a liability to liabilities and to current or
/// non-current liabilities, equity to equity; other accounts to nothing.
pub open spec fn sheet_step(t: SheetTotals, b: AccountBalance) -> Option<SheetTotals> {
    let net = dparts(b.net_balance);
    match b.account_type {
        AccountType::Asset => match sum_of(t.0, net) {
            None => None,
            Some(a) => if is_current_asset(b.account_name@) {
                match sum_of(t.1, net) {
                    Some(c) => Some((a, c, t.2, t.3, t.4, t.5, t.6)),
                    None => None,
                }
            } else {
                match sum_of(t.2, net) {
                    Some(n) => Some((a, t.1, n, t.3, t.4, t.5, t.6)),
                    None => None,
                }
            },
        },
        AccountType::Liability => match sum_of(t.3, net) {
            None => None,
            Some(l) => if is_current_liability(b.account_name@) {
                match sum_of(t.4, net) {
                    Some(c) => Some((t.0, t.1, t.2, l, c, t.5, t.6)),
                    None => None,
                }
            } else {
                match sum_of(t.5, net) {
                    Some(n) => Some((t.0, t.1, t.2, l, t.4, n, t.6)),
                    None => None,
                }
            },
        },
        AccountType::Equity => match sum_of(t.6, net) {
            Some(e) => Some((t.0, t.1, t.2, t.3, t.4, t.5, e)),
            None => None,
        },
        _ => Some(t),
    }
}

/// The sheet totals of the balances, from zero; `None` where an addition fails.
pub open spec fn sheet_totals(bs: Seq<AccountBalance>) -> Option<SheetTotals>
    decreases bs.len(),
{
    if bs.len() == 0 {
        let z = (0i128, 0u32);
        Some((z, z, z, z, z, z, z))
    } else {
        match sheet_totals(bs.drop_last()) {
            Some(t) => sheet_step(t, bs.last()),
            None => None,
        }
    }
}

proof fn lemma_sheet_totals_prefix(bs: Seq<AccountBalance>, i: int)
    requires
        0 <= i <= bs.len(),
        sheet_totals(bs.take(i)) is None,
    ensures
        sheet_totals(bs) is None,
    decreases bs.len() - i,
{
    if i < bs.len() {
        assert(bs.take(i + 1).drop_last() =~= bs.take(i));
        lemma_sheet_totals_prefix(bs, i + 1);
    } else {
        assert(bs.take(i) =~= bs);
    }
}

/// The totals of the sheet.
pub open spec fn totals_of(s: BalanceSheet) -> SheetTotals {
    (
        dparts(s.assets),
        dparts(s.current_assets),
        dparts(s.non_current_assets),
        dparts(s.liabilities),
        dparts(s.current_liabilities),
        dparts(s.non_current_liabilities),
        dparts(s.equity),
    )
}

/// The balance sheet as of `as_of`, drawn up from the balances: its totals
/// are those of `sheet_totals`, the total of liabilities and equity is their
/// sum, and the sheet is balanced where the assets equal that sum. `None`
/// where an addition fails.
pub fn balance_sheet_from_balances(balances: &[AccountBalance], as_of: Timestamp) -> (r: Option<BalanceSheet>)
    ensures
        r is Some <==> (sheet_totals(balances@) matches Some(t) && sum_of(t.3, t.6) is Some),
        r matches Some(s) ==> {
            let t = sheet_totals(balances@).unwrap();
            &&& s.period_id is None
            &&& s.as_of_date == as_of
            &&& totals_of(s) == t
            &&& dparts(s.total_liabilities_equity) == sum_of(t.3, t.6).unwrap()
            &&& s.is_balanced == (s.assets@ == s.total_liabilities_equity@)
        },
{
    let ghost bs = balances@;
    let mut s = BalanceSheet::new(None, as_of);
    let mut i: usize = 0;
    proof {
        assert(bs.take(0) =~= Seq::<AccountBalance>::empty());
    }
    while i < balances.len()
        invariant
            i <= bs.len(),
            bs == balances@,
            s.period_id is None,
            s.as_of_date == as_of,
            sheet_totals(bs.take(i as int)) == Some(totals_of(s)),
        decreases balances.len() - i,
    {
        proof {
            assert(bs.take(i + 1).drop_last() =~= bs.take(i as int));
            assert(bs.take(i + 1).last() == bs[i as int]);
        }
        let b = &balances[i];
        let ok = match b.account_type {
            AccountType::Asset => {
                let current = str_contains(b.account_name.as_str(), "Cash") || str_contains(
                    b.account_name.as_str(),
                    "Receivable",
                ) || str_contains(b.account_name.as_str(), "Inventory");
                match checked_sum(&s.assets, &b.net_balance) {
                    None => false,
                    Some(a) => if current {
                        match checked_sum(&s.current_assets, &b.net_balance) {
                            Some(c) => {
                                s.assets = a;
                                s.current_assets = c;
                                true
                            },
                            None => false,
                        }
                    } else {
                        match checked_sum(&s.non_current_assets, &b.net_balance) {
                            Some(n) => {
                                s.assets = a;
                                s.non_current_assets = n;
                                true
                            },
                            None => false,
                        }
                    },
                }
            },
            AccountType::Liability => {
                let current = str_contains(b.account_name.as_str(), "Payable");
                match checked_sum(&s.liabilities, &b.net_balance) {
                    None => false,
                    Some(l) => if current {
                        match checked_sum(&s.current_liabilities, &b.net_balance) {
                            Some(c) => {
                                s.liabilities = l;
                                s.current_liabilities = c;
                                true
                            },
                            None => false,
                        }
                    } else {
                        match checked_sum(&s.non_current_liabilities, &b.net_balance) {
                            Some(n) => {
                                s.liabilities = l;
                                s.non_current_liabilities = n;
                                true
                            },
                            None => false,
                        }
                    },
                }
            },
            AccountType::Equity => {
                match checked_sum(&s.equity, &b.net_balance) {
                    Some(e) => {
                        s.equity = e;
                        true
                    },
                    None => false,
                }
            },
            _ => true,
        };
        if !ok {
            proof {
                lemma_sheet_totals_prefix(bs, i + 1);
            }
            return None;
        }
        i = i + 1;
    }
    proof {
        assert(bs.take(bs.len() as int) =~= bs);
    }
    if s.try_calculate() {
        Some(s)
    } else {
        None
    }
}

/// One row of the account balances query: the account, its type as stored,
/// and the totals of its debits and credits.
#[derive(Debug, Clone)]
pub struct BalanceRow {
    pub account_id: Id,
    pub name: String,
    pub account_type: String,
    pub current_balance: Decimal,
    pub total_debits: Decimal,
    pub total_credits: Decimal,
}

/// The rows whose account type is known, with that type, in order.
pub open spec fn typed_rows(rows: Seq<BalanceRow>) -> Seq<(BalanceRow, AccountType)>
    decreases rows.len(),
{
    if rows.len() == 0 {
        Seq::empty()
    } else {
        match account_type_named(rows.last().account_type@) {
            Some(t) => typed_rows(rows.drop_last()).push((rows.last(), t)),
            None => typed_rows(rows.drop_last()),
        }
    }
}

/// The balance is the one of the typed row: the account, its type, its
/// totals and its net balance on the normal side.
pub open spec fn balance_of_row(b: AccountBalance, row: (BalanceRow, AccountType)) -> bool {
    &&& b.account_id == row.0.account_id
    &&& b.account_name@ == row.0.name@
    &&& b.account_type == row.1
    &&& b.debit_balance == row.0.total_debits
    &&& b.credit_balance == row.0.total_credits
    &&& dparts(b.net_balance) == net_parts(row.1, row.0.total_debits, row.0.total_credits).unwrap()
}

/// The net balance of every typed row can be computed.
pub open spec fn rows_computable(rows: Seq<BalanceRow>) -> bool {
    forall|i: int|
        0 <= i < typed_rows(rows).len() ==> net_parts(
            (#[trigger] typed_rows(rows)[i]).1,
            typed_rows(rows)[i].0.total_debits,
            typed_rows(rows)[i].0.total_credits,
        ) is Some
}

proof fn lemma_typed_rows_take(rows: Seq<BalanceRow>, i: int)
    requires
        0 <= i < rows.len(),
    ensures
        typed_rows(rows.take(i + 1)) == match account_type_named(rows[i].account_type@) {
            Some(t) => typed_rows(rows.take(i)).push((rows[i], t)),
            None => typed_rows(rows.take(i)),
        },
{
    assert(rows.take(i + 1).drop_last() =~= rows.take(i));
}

proof fn lemma_typed_rows_prefix(rows: Seq<BalanceRow>, i: int)
    requires
        0 <= i <= rows.len(),
    ensures
        typed_rows(rows.take(i)).len() <= typed_rows(rows).len(),
        typed_rows(rows.take(i)) == typed_rows(rows).take(typed_rows(rows.take(i)).len() as int),
    decreases rows.len(),
{
    if i == rows.len() {
        assert(rows.take(i) =~= rows);
        assert(typed_rows(rows).take(typed_rows(rows).len() as int) =~= typed_rows(rows));
    } else {
        let init = rows.drop_last();
        lemma_typed_rows_prefix(init, i);
        assert(init.take(i) =~= rows.take(i));
        let a = typed_rows(rows.take(i));
        assert(typed_rows(init).take(a.len() as int) =~= typed_rows(rows).take(a.len() as int));
    }
}

/// The balances of the rows whose account type is known, in order; `None`
/// where a net balance cannot be computed.
pub fn balances_from_rows(rows: &[BalanceRow]) -> (r: Option<Vec<AccountBalance>>)
    ensures
        r is Some <==> rows_computable(rows@),
        r matches Some(v) ==> v@.len() == typed_rows(rows@).len() && forall|i: int|
            0 <= i < v@.len() ==> balance_of_row(#[trigger] v@[i], typed_rows(rows@)[i]),
{
    let ghost rs = rows@;
    let today = now();
    let mut v: Vec<AccountBalance> = Vec::new();
    let mut i: usize = 0;
    proof {
        assert(rs.take(0) =~= Seq::<BalanceRow>::empty());
    }
    while i < rows.len()
        invariant
            i <= rs.len(),
            rs == rows@,
            v@.len() == typed_rows(rs.take(i as int)).len(),
            forall|k: int| 0 <= k < v@.len() ==> balance_of_row(#[trigger] v@[k], typed_rows(rs.take(i as int))[k]),
            forall|k: int|
                0 <= k < typed_rows(rs.take(i as int)).len() ==> net_parts(
                    (#[trigger] typed_rows(rs.take(i as int))[k]).1,
                    typed_rows(rs.take(i as int))[k].0.total_debits,
                    typed_rows(rs.take(i as int))[k].0.total_credits,
                ) is Some,
        decreases rows.len() - i,
    {
        proof {
            lemma_typed_rows_take(rs, i as int);
        }
        let row = &rows[i];
        match parse_account_type(row.account_type.as_str()) {
            None => {},
            Some(account_type) => {
                let account = Account {
                    id: row.account_id,
                    name: row.name.clone(),
                    account_type,
                    description: None,
                    is_active: true,
                    parent_id: None,
                    account_code: None,
                    normal_balance: None,
                    opening_balance: None,
                    current_balance: row.current_balance,
                    currency: String::from_str("KES"),
                    reconciliation_account: false,
                    created_at: today,
                    updated_at: today,
                };
                match AccountBalance::checked_new(&account, row.total_debits, row.total_credits) {
                    Some(b) => {
                        v.push(b);
                    },
                    None => {
                        proof {
                            let t = typed_rows(rs.take(i + 1));
                            lemma_typed_rows_prefix(rs, i + 1);
                            let k = t.len() - 1;
                            assert(t[k] == typed_rows(rs)[k]);
                        }
                        return None;
                    },
                }
            },
        }
        i = i + 1;
    }
    proof {
        assert(rs.take(rs.len() as int) =~= rs);
    }
    Some(v)
}

/// The running totals of the debits and of the credits of the typed rows,
/// from zero, as the trial balance adds them up; `None` where an addition
/// fails.
pub open spec fn trial_totals(rows: Seq<(BalanceRow, AccountType)>) -> Option<((i128, u32), (i128, u32))>
    decreases rows.len(),
{
    if rows.len() == 0 {
        Some(((0i128, 0u32), (0i128, 0u32)))
    } else {
        match trial_totals(rows.drop_last()) {
            None => None,
            Some(t) => match (
                sum_of(t.0, dparts(rows.last().0.total_debits)),
                sum_of(t.1, dparts(rows.last().0.total_credits)),
            ) {
                (Some(d), Some(c)) => Some((d, c)),
                _ => None,
            },
        }
    }
}

proof fn lemma_trial_totals_prefix(rows: Seq<(BalanceRow, AccountType)>, i: int)
    requires
        0 <= i <= rows.len(),
        trial_totals(rows.take(i)) is None,
    ensures
        trial_totals(rows) is None,
    decreases rows.len() - i,
{
    if i < rows.len() {
        assert(rows.take(i + 1).drop_last() =~= rows.take(i));
        lemma_trial_totals_prefix(rows, i + 1);
    } else {
        assert(rows.take(i) =~= rows);
    }
}

/// The trial balance as of `as_of` of the balances of the rows: every
/// balance is added in order; `None` where a net balance or a total cannot be
/// computed.
pub fn trial_balance_from_rows(rows: &[BalanceRow], as_of: Timestamp) -> (r: Option<TrialBalance>)
    ensures
        r is Some <==> rows_computable(rows@) && trial_totals(typed_rows(rows@)) is Some,
        r matches Some(t) ==> {
            &&& t.period_id is None
            &&& t.as_of_date == as_of
            &&& t.accounts@.len() == typed_rows(rows@).len()
            &&& forall|i: int| 0 <= i < t.accounts@.len() ==> balance_of_row(#[trigger] t.accounts@[i], typed_rows(rows@)[i])
            &&& (dparts(t.total_debits), dparts(t.total_credits)) == trial_totals(typed_rows(rows@)).unwrap()
            &&& t.is_balanced == (t.total_debits@ == t.total_credits@)
        },
{
    let balances = match balances_from_rows(rows) {
        Some(b) => b,
        None => {
            return None;
        },
    };
    let ghost typed = typed_rows(rows@);
    let mut trial = TrialBalance::new(None, as_of);
    let ghost bs = balances@;
    let mut i: usize = 0;
    proof {
        assert(typed.take(0) =~= Seq::<(BalanceRow, AccountType)>::empty());
    }
    while i < balances.len()
        invariant
            i <= bs.len(),
            bs == balances@,
            typed == typed_rows(rows@),
            bs.len() == typed.len(),
            forall|k: int| 0 <= k < bs.len() ==> balance_of_row(#[trigger] bs[k], typed[k]),
            trial.period_id is None,
            trial.as_of_date == as_of,
            trial.accounts@ == bs.take(i as int),
            trial_totals(typed.take(i as int)) == Some((dparts(trial.total_debits), dparts(trial.total_credits))),
            trial.is_balanced == (trial.total_debits@ == trial.total_credits@),
        decreases balances.len() - i,
    {
        proof {
            assert(typed.take(i + 1).drop_last() =~= typed.take(i as int));
            assert(typed.take(i + 1).last() == typed[i as int]);
            assert(balance_of_row(bs[i as int], typed[i as int]));
        }
        let balance = balances[i].clone();
        let ghost before = trial;
        if !trial.try_add_account(balance) {
            proof {
                assert(balance == bs[i as int]);
                assert(!can_add_balance(before, balance));
                assert(trial_totals(typed.take(i + 1)) is None);
                lemma_trial_totals_prefix(typed, i + 1);
            }
            return None;
        }
        proof {
            assert(bs.take(i + 1) =~= bs.take(i as int).push(bs[i as int]));
        }
        i = i + 1;
    }
    proof {
        assert(bs.take(bs.len() as int) =~= bs);
        assert(typed.take(typed.len() as int) =~= typed);
    }
    Some(trial)
}

/// The net balances of the balances, in order.
pub open spec fn net_balances(bs: Seq<AccountBalance>) -> Seq<(i128, u32)> {
    bs.map_values(|b: AccountBalance| dparts(b.net_balance))
}

proof fn lemma_fold_filtered_push(
    bs: Seq<AccountBalance>,
    b: AccountBalance,
    pred: spec_fn(AccountBalance) -> bool,
)
    ensures
        pred(b) ==> net_balances(bs.push(b).filter(pred)) =~= net_balances(bs.filter(pred)).push(
            dparts(b.net_balance),
        ),
        !pred(b) ==> net_balances(bs.push(b).filter(pred)) =~= net_balances(bs.filter(pred)),
{
    reveal(Seq::filter);
    assert(bs.push(b).drop_last() =~= bs);
    assert(bs.push(b).last() == b);
}

proof fn lemma_fold_push(ps: Seq<(i128, u32)>, p: (i128, u32))
    ensures
        fold_sum(ps.push(p)) == match fold_sum(ps) {
            Some(acc) => sum_of(acc, p),
            None => None,
        },
{
    assert(ps.push(p).drop_last() =~= ps);
}

proof fn lemma_income_totals_fold(bs: Seq<AccountBalance>)
    requires
        income_totals(bs) is Some,
    ensures
        fold_sum(net_balances(bs.filter(|b: AccountBalance| b.account_type == AccountType::Revenue)))
            == Some(income_totals(bs).unwrap().0),
        fold_sum(
            net_balances(
                bs.filter(
                    |b: AccountBalance|
                        b.account_type == AccountType::Expense && (contains_text(b.account_name@, "Cost"@)
                            || contains_text(b.account_name@, "Food"@) || contains_text(
                            b.account_name@,
                            "Beverage"@,
                        )),
                ),
            ),
        ) == Some(income_totals(bs).unwrap().1),
        fold_sum(
            net_balances(
                bs.filter(
                    |b: AccountBalance|
                        b.account_type == AccountType::Expense && !(contains_text(b.account_name@, "Cost"@)
                            || contains_text(b.account_name@, "Food"@) || contains_text(
                            b.account_name@,
                            "Beverage"@,
                        )),
                ),
            ),
        ) == Some(income_totals(bs).unwrap().2),
    decreases bs.len(),
{
    let rev = |b: AccountBalance| b.account_type == AccountType::Revenue;
    let cogs = |b: AccountBalance|
        b.account_type == AccountType::Expense && (contains_text(b.account_name@, "Cost"@) || contains_text(
            b.account_name@,
            "Food"@,
        ) || contains_text(b.account_name@, "Beverage"@));
    let opex = |b: AccountBalance|
        b.account_type == AccountType::Expense && !(contains_text(b.account_name@, "Cost"@) || contains_text(
            b.account_name@,
            "Food"@,
        ) || contains_text(b.account_name@, "Beverage"@));
    reveal(Seq::filter);
    if bs.len() == 0 {
        assert(net_balances(bs.filter(rev)) =~= Seq::<(i128, u32)>::empty());
        assert(net_balances(bs.filter(cogs)) =~= Seq::<(i128, u32)>::empty());
        assert(net_balances(bs.filter(opex)) =~= Seq::<(i128, u32)>::empty());
    } else {
        let init = bs.drop_last();
        let b = bs.last();
        assert(init.push(b) =~= bs);
        lemma_income_totals_fold(init);
        lemma_fold_filtered_push(init, b, rev);
        lemma_fold_filtered_push(init, b, cogs);
        lemma_fold_filtered_push(init, b, opex);
        lemma_fold_push(net_balances(init.filter(rev)), dparts(b.net_balance));
        lemma_fold_push(net_balances(init.filter(cogs)), dparts(b.net_balance));
        lemma_fold_push(net_balances(init.filter(opex)), dparts(b.net_balance));
    }
}

/// The income statement adds up the accounts by kind: revenue is the sum of
/// the net balances of the revenue accounts; cost of goods sold the sum over
/// the expense accounts whose names mention "Cost", "Food" or "Beverage";
/// operating expenses the sum over the other expense accounts, each in the
/// order the balances come.
pub proof fn lemma_income_statement_sums(s: IncomeStatement, bs: Seq<AccountBalance>, start: Timestamp, end: Timestamp)
    requires
        income_totals(bs) is Some,
        income_statement_is(s, bs, start, end),
    ensures
        fold_sum(net_balances(bs.filter(|b: AccountBalance| b.account_type == AccountType::Revenue)))
            == Some(dparts(s.revenue)),
        fold_sum(
            net_balances(
                bs.filter(
                    |b: AccountBalance|
                        b.account_type == AccountType::Expense && (contains_text(b.account_name@, "Cost"@)
                            || contains_text(b.account_name@, "Food"@) || contains_text(
                            b.account_name@,
                            "Beverage"@,
                        )),
                ),
            ),
        ) == Some(dparts(s.cost_of_goods_sold)),
        fold_sum(
            net_balances(
                bs.filter(
                    |b: AccountBalance|
                        b.account_type == AccountType::Expense && !(contains_text(b.account_name@, "Cost"@)
                            || contains_text(b.account_name@, "Food"@) || contains_text(
                            b.account_name@,
                            "Beverage"@,
                        )),
                ),
            ),
        ) == Some(dparts(s.operating_expenses)),
{
    lemma_income_totals_fold(bs);
}

/// An expense account whose name mentions "Cost", "Food" or "Beverage",
/// added to the balances, adds its net balance to the cost of goods sold and
/// leaves revenue and operating expenses as they were; any other expense
/// account adds to the operating expenses only.
pub proof fn lemma_expense_classified(
    bs: Seq<AccountBalance>,
    b: AccountBalance,
    before: IncomeStatement,
    after: IncomeStatement,
    start: Timestamp,
    end: Timestamp,
)
    requires
        income_totals(bs) is Some,
        income_totals(bs.push(b)) is Some,
        income_statement_is(before, bs, start, end),
        income_statement_is(after, bs.push(b), start, end),
        b.account_type == AccountType::Expense,
    ensures
        dparts(after.revenue) == dparts(before.revenue),
        contains_text(b.account_name@, "Cost"@) || contains_text(b.account_name@, "Food"@) || contains_text(
            b.account_name@,
            "Beverage"@,
        ) ==> Some(dparts(after.cost_of_goods_sold)) == sum_of(dparts(before.cost_of_goods_sold), dparts(b.net_balance))
            && dparts(after.operating_expenses) == dparts(before.operating_expenses),
        !(contains_text(b.account_name@, "Cost"@) || contains_text(b.account_name@, "Food"@) || contains_text(
            b.account_name@,
            "Beverage"@,
        )) ==> Some(dparts(after.operating_expenses)) == sum_of(dparts(before.operating_expenses), dparts(b.net_balance))
            && dparts(after.cost_of_goods_sold) == dparts(before.cost_of_goods_sold),
{
    assert(bs.push(b).drop_last() =~= bs);
}

proof fn lemma_sheet_totals_fold(bs: Seq<AccountBalance>)
    requires
        sheet_totals(bs) is Some,
    ensures
        fold_sum(net_balances(bs.filter(|b: AccountBalance| b.account_type == AccountType::Asset))) == Some(sheet_totals(bs).unwrap().0),
        fold_sum(net_balances(bs.filter(|b: AccountBalance| b.account_type == AccountType::Asset && (contains_text(b.account_name@, "Cash"@) || contains_text(b.account_name@, "Receivable"@) || contains_text(b.account_name@, "Inventory"@))))) == Some(sheet_totals(bs).unwrap().1),
        fold_sum(net_balances(bs.filter(|b: AccountBalance| b.account_type == AccountType::Asset && !(contains_text(b.account_name@, "Cash"@) || contains_text(b.account_name@, "Receivable"@) || contains_text(b.account_name@, "Inventory"@))))) == Some(sheet_totals(bs).unwrap().2),
        fold_sum(net_balances(bs.filter(|b: AccountBalance| b.account_type == AccountType::Liability))) == Some(sheet_totals(bs).unwrap().3),
        fold_sum(net_balances(bs.filter(|b: AccountBalance| b.account_type == AccountType::Liability && contains_text(b.account_name@, "Payable"@)))) == Some(sheet_totals(bs).unwrap().4),
        fold_sum(net_balances(bs.filter(|b: AccountBalance| b.account_type == AccountType::Liability && !contains_text(b.account_name@, "Payable"@)))) == Some(sheet_totals(bs).unwrap().5),
        fold_sum(net_balances(bs.filter(|b: AccountBalance| b.account_type == AccountType::Equity))) == Some(sheet_totals(bs).unwrap().6),
    decreases bs.len(),
{
    let p0 = |b: AccountBalance| b.account_type == AccountType::Asset;
    let p1 = |b: AccountBalance| b.account_type == AccountType::Asset && (contains_text(b.account_name@, "Cash"@) || contains_text(b.account_name@, "Receivable"@) || contains_text(b.account_name@, "Inventory"@));
    let p2 = |b: AccountBalance| b.account_type == AccountType::Asset && !(contains_text(b.account_name@, "Cash"@) || contains_text(b.account_name@, "Receivable"@) || contains_text(b.account_name@, "Inventory"@));
    let p3 = |b: AccountBalance| b.account_type == AccountType::Liability;
    let p4 = |b: AccountBalance| b.account_type == AccountType::Liability && contains_text(b.account_name@, "Payable"@);
    let p5 = |b: AccountBalance| b.account_type == AccountType::Liability && !contains_text(b.account_name@, "Payable"@);
    let p6 = |b: AccountBalance| b.account_type == AccountType::Equity;
    reveal(Seq::filter);
    if bs.len() == 0 {
        assert(net_balances(bs.filter(p0)) =~= Seq::<(i128, u32)>::empty());
        assert(net_balances(bs.filter(p1)) =~= Seq::<(i128, u32)>::empty());
        assert(net_balances(bs.filter(p2)) =~= Seq::<(i128, u32)>::empty());
        assert(net_balances(bs.filter(p3)) =~= Seq::<(i128, u32)>::empty());
        assert(net_balances(bs.filter(p4)) =~= Seq::<(i128, u32)>::empty());
        assert(net_balances(bs.filter(p5)) =~= Seq::<(i128, u32)>::empty());
        assert(net_balances(bs.filter(p6)) =~= Seq::<(i128, u32)>::empty());
    } else {
        let init = bs.drop_last();
        let b = bs.last();
        assert(init.push(b) =~= bs);
        lemma_sheet_totals_fold(init);
        lemma_fold_filtered_push(init, b, p0);
        lemma_fold_push(net_balances(init.filter(p0)), dparts(b.net_balance));
        lemma_fold_filtered_push(init, b, p1);
        lemma_fold_push(net_balances(init.filter(p1)), dparts(b.net_balance));
        lemma_fold_filtered_push(init, b, p2);
        lemma_fold_push(net_balances(init.filter(p2)), dparts(b.net_balance));
        lemma_fold_filtered_push(init, b, p3);
        lemma_fold_push(net_balances(init.filter(p3)), dparts(b.net_balance));
        lemma_fold_filtered_push(init, b, p4);
        lemma_fold_push(net_balances(init.filter(p4)), dparts(b.net_balance));
        lemma_fold_filtered_push(init, b, p5);
        lemma_fold_push(net_balances(init.filter(p5)), dparts(b.net_balance));
        lemma_fold_filtered_push(init, b, p6);
        lemma_fold_push(net_balances(init.filter(p6)), dparts(b.net_balance));
    }
}

/// The balance sheet adds up the accounts by kind, each sum in the order the
/// balances come: assets over the asset accounts, current assets over those
/// whose names mention "Cash", "Receivable" or "Inventory", non-current
/// assets over the other asset accounts; liabilities over the liability
/// accounts, current liabilities over those whose names mention "Payable",
/// non-current liabilities over the others; equity over the equity accounts.
pub proof fn lemma_balance_sheet_sums(s: BalanceSheet, bs: Seq<AccountBalance>)
    requires
        sheet_totals(bs) is Some,
        totals_of(s) == sheet_totals(bs).unwrap(),
    ensures
        fold_sum(net_balances(bs.filter(|b: AccountBalance| b.account_type == AccountType::Asset))) == Some(dparts(s.assets)),
        fold_sum(net_balances(bs.filter(|b: AccountBalance| b.account_type == AccountType::Asset && (contains_text(b.account_name@, "Cash"@) || contains_text(b.account_name@, "Receivable"@) || contains_text(b.account_name@, "Inventory"@))))) == Some(dparts(s.current_assets)),
        fold_sum(net_balances(bs.filter(|b: AccountBalance| b.account_type == AccountType::Asset && !(contains_text(b.account_name@, "Cash"@) || contains_text(b.account_name@, "Receivable"@) || contains_text(b.account_name@, "Inventory"@))))) == Some(dparts(s.non_current_assets)),
        fold_sum(net_balances(bs.filter(|b: AccountBalance| b.account_type == AccountType::Liability))) == Some(dparts(s.liabilities)),
        fold_sum(net_balances(bs.filter(|b: AccountBalance| b.account_type == AccountType::Liability && contains_text(b.account_name@, "Payable"@)))) == Some(dparts(s.current_liabilities)),
        fold_sum(net_balances(bs.filter(|b: AccountBalance| b.account_type == AccountType::Liability && !contains_text(b.account_name@, "Payable"@)))) == Some(dparts(s.non_current_liabilities)),
        fold_sum(net_balances(bs.filter(|b: AccountBalance| b.account_type == AccountType::Equity))) == Some(dparts(s.equity)),
{
    lemma_sheet_totals_fold(bs);
}

} // verus!
