//! Double-entry accounting: accounts, journal entries and transactions.
//!
//! Every transaction is recorded as journal entries whose debits and credits
//! balance; a transaction whose entries do not balance is refused.
use vstd::prelude::*;
use vstd::string::*;
use crate::currencies;
use crate::decimal::{
    checked_difference, checked_sum, compare, dparts, lemma_pow10_positive, lemma_sum_back_is_exact, max_scale, parts_difference_is_exact,
    parts_sum_is_exact, pow10, Decimal,
};
use crate::ids::{id_text, new_id, uuid_text, Id, NIL_ID};
use crate::models::PaymentMethod;
use crate::money::{difference_of, fold_sum, parts_of, sum_of, value_of, Money};
use crate::decimal::difference_is_exact;
use crate::text::str_equal;
use crate::time::{now, Timestamp};

verus! {

/// A JSON document, carried through unchanged.
#[verifier::external_type_specification]
#[verifier::external_body]
pub struct ExJsonValue(serde_json::Value);

/// Accounting errors.
#[derive(Debug, Clone, PartialEq)]
pub enum AccountingError {
    UnbalancedTransaction { debits: Money, credits: Money },
    InvalidAccountType,
    AccountNotFound(Id),
    DuplicateAccount(String),
}

/// Result type for accounting operations.
pub type AccountingResult<T> = Result<T, AccountingError>;

/// Classification of accounts.
#[derive(Debug, Clone, Copy, PartialEq, Eq, Structural, Hash)]
pub enum AccountType {
    Asset,
    Liability,
    Equity,
    Revenue,
    Expense,
}

/// Debit or credit.
#[derive(Debug, Clone, Copy, PartialEq, Eq, Structural, Hash)]
pub enum DebitCredit {
    Debit,
    Credit,
}

impl AccountType {
    /// The side on which accounts of this type grow: assets and expenses
    /// grow with debits, liabilities, equity and revenue with credits.
    pub open spec fn normal_side(self) -> DebitCredit {
        match self {
            AccountType::Asset | AccountType::Expense => DebitCredit::Debit,
            _ => DebitCredit::Credit,
        }
    }

    /// The normal balance of accounts of this type.
    pub fn normal_balance(self) -> (d: DebitCredit)
        ensures
            d == self.normal_side(),
    {
        match self {
            AccountType::Asset | AccountType::Expense => DebitCredit::Debit,
            AccountType::Liability | AccountType::Equity | AccountType::Revenue => DebitCredit::Credit,
        }
    }
}

/// An account in the chart of accounts.
#[derive(Debug, Clone)]
pub struct Account {
    pub id: Id,
    pub name: String,
    pub account_type: AccountType,
    pub description: Option<String>,
    pub is_active: bool,
    pub parent_id: Option<Id>,
    pub account_code: Option<String>,
    pub normal_balance: Option<String>,
    pub opening_balance: Option<Decimal>,
    pub current_balance: Decimal,
    pub currency: String,
    pub reconciliation_account: bool,
    pub created_at: Timestamp,
    pub updated_at: Timestamp,
}

impl Account {
    /// A new active account in shillings with zero balances.
    pub fn new(name: String, account_type: AccountType, description: Option<String>) -> (a: Account)
        ensures
            a.name == name,
            a.account_type == account_type,
            a.description == description,
            a.is_active,
            a.parent_id is None,
            a.account_code is None,
            a.normal_balance matches Some(n) && n@ == (if account_type.normal_side()
                == DebitCredit::Debit {
                "Debit"@
            } else {
                "Credit"@
            }),
            a.opening_balance matches Some(b) && b@ == 0,
            a.current_balance@ == 0,
            a.currency@ == "KES"@,
            !a.reconciliation_account,
            a.created_at == a.updated_at,
    {
        let now = now();
        let normal = match account_type {
            AccountType::Asset | AccountType::Expense => String::from_str("Debit"),
            _ => String::from_str("Credit"),
        };
        Account {
            id: new_id(),
            name,
            account_type,
            description,
            is_active: true,
            parent_id: None,
            account_code: None,
            normal_balance: Some(normal),
            opening_balance: Some(Decimal::zero()),
            current_balance: Decimal::zero(),
            currency: String::from_str("KES"),
            reconciliation_account: false,
            created_at: now,
            updated_at: now,
        }
    }

    /// The account with the given code.
    pub fn with_code(self, code: String) -> (a: Account)
        ensures
            a == (Account { account_code: Some(code), ..self }),
    {
        let mut a = self;
        a.account_code = Some(code);
        a
    }

    /// The account under the given parent.
    pub fn with_parent(self, parent_id: Id) -> (a: Account)
        ensures
            a == (Account { parent_id: Some(parent_id), ..self }),
    {
        let mut a = self;
        a.parent_id = Some(parent_id);
        a
    }

    /// The account, marked as one that is reconciled against the bank.
    pub fn set_reconciliation_account(self) -> (a: Account)
        ensures
            a == (Account { reconciliation_account: true, ..self }),
    {
        let mut a = self;
        a.reconciliation_account = true;
        a
    }
}

/// The posting of one amount to one account within a transaction.
#[derive(Debug, Clone)]
pub struct JournalEntry {
    pub id: Id,
    pub transaction_id: Id,
    pub account_id: Id,
    pub debit_credit: DebitCredit,
    pub amount: Money,
    pub description: Option<String>,
    pub created_at: Timestamp,
    pub period_id: Option<Id>,
    pub reference_type: Option<String>,
    pub reference_id: Option<Id>,
    pub is_reconciled: bool,
    pub reconciled_date: Option<Timestamp>,
}

impl JournalEntry {
    /// A new unreconciled entry.
    pub fn new(
        transaction_id: Id,
        account_id: Id,
        debit_credit: DebitCredit,
        amount: Money,
        description: Option<String>,
    ) -> (e: JournalEntry)
        ensures
            e.transaction_id == transaction_id,
            e.account_id == account_id,
            e.debit_credit == debit_credit,
            e.amount == amount,
            e.description == description,
            e.period_id is None,
            e.reference_type is None,
            e.reference_id is None,
            !e.is_reconciled,
            e.reconciled_date is None,
    {
        JournalEntry {
            id: new_id(),
            transaction_id,
            account_id,
            debit_credit,
            amount,
            description,
            created_at: now(),
            period_id: None,
            reference_type: None,
            reference_id: None,
            is_reconciled: false,
            reconciled_date: None,
        }
    }

    /// The entry, within the given accounting period.
    pub fn with_period(self, period_id: Id) -> (e: JournalEntry)
        ensures
            e == (JournalEntry { period_id: Some(period_id), ..self }),
    {
        let mut e = self;
        e.period_id = Some(period_id);
        e
    }

    /// The entry, referring to the given record.
    pub fn with_reference(self, ref_type: String, ref_id: Id) -> (e: JournalEntry)
        ensures
            e == (JournalEntry { reference_type: Some(ref_type), reference_id: Some(ref_id), ..self }),
    {
        let mut e = self;
        e.reference_type = Some(ref_type);
        e.reference_id = Some(ref_id);
        e
    }

    /// The entry, reconciled on the given date.
    pub fn mark_reconciled(self, date: Timestamp) -> (e: JournalEntry)
        ensures
            e == (JournalEntry { is_reconciled: true, reconciled_date: Some(date), ..self }),
    {
        let mut e = self;
        e.is_reconciled = true;
        e.reconciled_date = Some(date);
        e
    }
}

/// What the balance of a transaction reads of a journal entry: its side,
/// the parts of its amount and its currency.
pub type Posting = (DebitCredit, (i128, u32), Seq<char>);

/// The posting of an entry.
pub open spec fn posting(e: JournalEntry) -> Posting {
    (e.debit_credit, parts_of(e.amount), e.amount.cur())
}

/// The postings of the entries.
pub open spec fn postings(entries: Seq<JournalEntry>) -> Seq<Posting> {
    entries.map_values(|e: JournalEntry| posting(e))
}

/// The running total of the postings on one side, starting from zero
/// dollars, as `Transaction::verify_balance` computes it (adding to zero
/// gives the amount added); `None` where a posting on that side is not in
/// dollars or an addition fails.
pub open spec fn side_total(ps: Seq<Posting>, side: DebitCredit) -> Option<(i128, u32)>
    decreases ps.len(),
{
    if ps.len() == 0 {
        Some((0i128, 0u32))
    } else {
        match side_total(ps.drop_last(), side) {
            None => None,
            Some(acc) => {
                let p = ps.last();
                if p.0 != side {
                    Some(acc)
                } else if p.2 != currencies::USD@ {
                    None
                } else if acc.0 == 0 {
                    Some(p.1)
                } else {
                    sum_of(acc, p.1)
                }
            },
        }
    }
}

/// Every addition of `side_total` needs no rounding.
pub open spec fn side_total_is_exact(ps: Seq<Posting>, side: DebitCredit) -> bool
    decreases ps.len(),
{
    if ps.len() == 0 {
        true
    } else {
        &&& side_total_is_exact(ps.drop_last(), side)
        &&& ps.last().0 == side && side_total(ps.drop_last(), side).unwrap().0 != 0
            ==> parts_sum_is_exact(side_total(ps.drop_last(), side).unwrap(), ps.last().1)
    }
}

/// The exact sum of the amounts on one side.
pub open spec fn side_sum(ps: Seq<Posting>, side: DebitCredit) -> int
    decreases ps.len(),
{
    if ps.len() == 0 {
        0
    } else if ps.last().0 == side {
        side_sum(ps.drop_last(), side) + value_of(ps.last().1)
    } else {
        side_sum(ps.drop_last(), side)
    }
}

/// What `Transaction::verify_balance` decides: `Some(true)` when the totals
/// of debits and credits are equal, `Some(false)` when they are not, `None`
/// where the totals cannot be computed.
pub open spec fn balance_check(ps: Seq<Posting>) -> Option<bool> {
    match (side_total(ps, DebitCredit::Debit), side_total(ps, DebitCredit::Credit)) {
        (Some(d), Some(c)) => Some(value_of(d) == value_of(c)),
        _ => None,
    }
}

/// Every posting on the side is in dollars.
pub open spec fn all_in_dollars(ps: Seq<Posting>, side: DebitCredit) -> bool {
    forall|i: int| 0 <= i < ps.len() && #[trigger] ps[i].0 == side ==> ps[i].2 == currencies::USD@
}

proof fn lemma_exact_prefix(ps: Seq<Posting>, side: DebitCredit, i: int)
    requires
        0 <= i <= ps.len(),
        side_total_is_exact(ps, side),
    ensures
        side_total_is_exact(ps.take(i), side),
    decreases ps.len() - i,
{
    if i < ps.len() {
        lemma_exact_prefix(ps, side, i + 1);
        assert(ps.take(i + 1).drop_last() =~= ps.take(i));
    } else {
        assert(ps.take(i) =~= ps);
    }
}

proof fn lemma_side_total_prefix(ps: Seq<Posting>, side: DebitCredit, i: int)
    requires
        0 <= i <= ps.len(),
        side_total(ps.take(i), side) is None,
    ensures
        side_total(ps, side) is None,
    decreases ps.len() - i,
{
    if i < ps.len() {
        assert(ps.take(i + 1).drop_last() =~= ps.take(i));
        lemma_side_total_prefix(ps, side, i + 1);
    } else {
        assert(ps.take(i) =~= ps);
    }
}

/// The total of the entries on one side, in dollars, or `None` where it
/// cannot be computed.
fn total_of_side(entries: &[JournalEntry], side: DebitCredit) -> (r: Option<Money>)
    ensures
        r is Some <==> side_total(postings(entries@), side) is Some,
        r matches Some(m) ==> parts_of(m) == side_total(postings(entries@), side).unwrap() && m.cur()
            == currencies::USD@,
        r matches Some(m) ==> (side_total_is_exact(postings(entries@), side) ==> m.value() == side_sum(
            postings(entries@),
            side,
        )),
        side_total_is_exact(postings(entries@), side) && all_in_dollars(postings(entries@), side)
            ==> r is Some,
{
    let ghost ps = postings(entries@);
    let mut acc = Money::zero(currencies::usd());
    let mut i: usize = 0;
    proof {
        assert(ps.take(0) =~= Seq::<Posting>::empty());
    }
    while i < entries.len()
        invariant
            i <= entries@.len(),
            ps == postings(entries@),
            side_total(ps.take(i as int), side) == Some(parts_of(acc)),
            acc.cur() == currencies::USD@,
            side_total_is_exact(ps.take(i as int), side) ==> acc.value() == side_sum(
                ps.take(i as int),
                side,
            ),
            side_total_is_exact(ps, side) && all_in_dollars(ps, side) ==> side_total_is_exact(
                ps.take(i as int),
                side,
            ),
        decreases entries.len() - i,
    {
        let entry = &entries[i];
        proof {
            assert(ps.take(i + 1).drop_last() =~= ps.take(i as int));
            assert(ps.take(i + 1).last() == posting(entries@[i as int]));
        }
        proof {
            if side_total_is_exact(ps, side) && all_in_dollars(ps, side) {
                lemma_exact_prefix(ps, side, i + 1);
            }
        }
        if entry.debit_credit == side {
            match acc.add(&entry.amount) {
                Ok(next) => {
                    proof {
                        if acc.amt().mant() == 0 {
                            assert(acc.value() == 0);
                            assert(next.value() == entry.amount.value());
                        }
                    }
                    acc = next;
                },
                Err(_) => {
                    proof {
                        lemma_side_total_prefix(ps, side, i + 1);
                    }
                    return None;
                },
            }
        }
        i = i + 1;
    }
    proof {
        assert(ps.take(entries@.len() as int) =~= ps);
    }
    Some(acc)
}

/// The entries' debits and credits balance as `verify_balance` decides it.
pub open spec fn verify_balance_outcome(ps: Seq<Posting>, r: AccountingResult<()>) -> bool {
    &&& r is Ok <==> balance_check(ps) == Some(true)
    &&& r is Err ==> (r matches Err(AccountingError::UnbalancedTransaction { debits, credits })
        && parts_of(debits) == side_total(ps, DebitCredit::Debit).unwrap() && parts_of(credits)
        == side_total(ps, DebitCredit::Credit).unwrap() && debits.cur() == currencies::USD@
        && credits.cur() == currencies::USD@)
    &&& side_total_is_exact(ps, DebitCredit::Debit) && side_total_is_exact(
        ps,
        DebitCredit::Credit,
    ) ==> (r is Ok <==> side_sum(ps, DebitCredit::Debit) == side_sum(ps, DebitCredit::Credit))
    &&& r matches Err(AccountingError::UnbalancedTransaction { debits, credits }) ==> {
        &&& side_total_is_exact(ps, DebitCredit::Debit) ==> debits.value() == side_sum(ps, DebitCredit::Debit)
        &&& side_total_is_exact(ps, DebitCredit::Credit) ==> credits.value() == side_sum(ps, DebitCredit::Credit)
    }
}

/// A business event, recorded as balanced journal entries.
#[derive(Debug)]
pub struct Transaction {
    pub id: Id,
    pub description: String,
    pub reference_id: Option<Id>,
    pub posted_at: Timestamp,
    pub created_at: Timestamp,
    pub currency: String,
    pub exchange_rate: Decimal,
    pub period_id: Option<Id>,
}

impl Clone for Transaction {
    fn clone(&self) -> (t: Transaction)
        ensures
            t == *self,
    {
        Transaction {
            id: self.id,
            description: self.description.clone(),
            reference_id: self.reference_id,
            posted_at: self.posted_at,
            created_at: self.created_at,
            currency: self.currency.clone(),
            exchange_rate: self.exchange_rate,
            period_id: self.period_id,
        }
    }
}

impl Transaction {
    /// A new transaction in shillings at exchange rate one.
    pub fn new(description: String, reference_id: Option<Id>) -> (t: Transaction)
        ensures
            t.description == description,
            t.reference_id == reference_id,
            t.posted_at == t.created_at,
            t.currency@ == "KES"@,
            t.exchange_rate.mant() == 1 && t.exchange_rate.sc() == 0,
            t.period_id is None,
    {
        let now = now();
        Transaction {
            id: new_id(),
            description,
            reference_id,
            posted_at: now,
            created_at: now,
            currency: String::from_str("KES"),
            exchange_rate: Decimal::new(1, 0),
            period_id: None,
        }
    }

    /// The transaction, within the given accounting period.
    pub fn with_period(self, period_id: Id) -> (t: Transaction)
        ensures
            t == (Transaction { period_id: Some(period_id), ..self }),
    {
        let mut t = self;
        t.period_id = Some(period_id);
        t
    }

    /// The transaction, in the given currency at the given exchange rate.
    pub fn with_currency(self, currency: String, exchange_rate: Decimal) -> (t: Transaction)
        ensures
            t == (Transaction { currency, exchange_rate, ..self }),
    {
        let mut t = self;
        t.currency = currency;
        t.exchange_rate = exchange_rate;
        t
    }

    /// Whether the entries balance, or `None` where their totals cannot be
    /// computed.
    pub fn checked_verify_balance(entries: &[JournalEntry]) -> (r: Option<AccountingResult<()>>)
        ensures
            r is Some <==> balance_check(postings(entries@)) is Some,
            r matches Some(res) ==> verify_balance_outcome(postings(entries@), res),
            side_total_is_exact(postings(entries@), DebitCredit::Debit) && side_total_is_exact(
                postings(entries@),
                DebitCredit::Credit,
            ) && all_in_dollars(postings(entries@), DebitCredit::Debit) && all_in_dollars(
                postings(entries@),
                DebitCredit::Credit,
            ) ==> r is Some,
    {
        let debits = match total_of_side(entries, DebitCredit::Debit) {
            Some(d) => d,
            None => {
                return None;
            },
        };
        let credits = match total_of_side(entries, DebitCredit::Credit) {
            Some(c) => c,
            None => {
                return None;
            },
        };
        if debits == credits {
            Some(Ok(()))
        } else {
            Some(Err(AccountingError::UnbalancedTransaction { debits, credits }))
        }
    }

    /// Verify that the total of the debits equals the total of the credits.
    pub fn verify_balance(entries: &[JournalEntry]) -> (r: AccountingResult<()>)
        requires
            balance_check(postings(entries@)) is Some,
        ensures
            verify_balance_outcome(postings(entries@), r),
    {
        match Self::checked_verify_balance(entries) {
            Some(r) => r,
            None => {
                proof {
                    assert(false);
                }
                Ok(())
            },
        }
    }
}

/// The description of one of the standard restaurant accounts.
pub struct StandardAccount {
    pub name: Seq<char>,
    pub account_type: AccountType,
    pub description: Seq<char>,
    pub code: Seq<char>,
    pub reconciliation: bool,
}

/// The standard chart of accounts of a restaurant, in order: assets (1000s),
/// liabilities (2000s), equity (3000s), revenue (4000s), cost of goods sold
/// (5000s) and operating expenses (6000s).
pub open spec fn standard_accounts() -> Seq<StandardAccount> {
    seq![
        StandardAccount { name: "Cash"@, account_type: AccountType::Asset, description: "Cash on hand and in registers"@, code: "1000"@, reconciliation: true },
        StandardAccount { name: "Card Receivable"@, account_type: AccountType::Asset, description: "Credit card receivables"@, code: "1100"@, reconciliation: true },
        StandardAccount { name: "Mobile Money Receivable"@, account_type: AccountType::Asset, description: "M-Pesa and mobile money receivables"@, code: "1150"@, reconciliation: true },
        StandardAccount { name: "Inventory"@, account_type: AccountType::Asset, description: "Food and beverage inventory"@, code: "1200"@, reconciliation: false },
        StandardAccount { name: "Accounts Receivable"@, account_type: AccountType::Asset, description: "Customer accounts receivable"@, code: "1300"@, reconciliation: false },
        StandardAccount { name: "Prepaid Expenses"@, account_type: AccountType::Asset, description: "Prepaid expenses"@, code: "1400"@, reconciliation: false },
        StandardAccount { name: "Accounts Payable"@, account_type: AccountType::Liability, description: "Accounts payable to suppliers"@, code: "2000"@, reconciliation: false },
        StandardAccount { name: "Tax Payable"@, account_type: AccountType::Liability, description: "Sales tax liability"@, code: "2100"@, reconciliation: false },
        StandardAccount { name: "Tips Payable"@, account_type: AccountType::Liability, description: "Tips to be distributed to staff"@, code: "2200"@, reconciliation: false },
        StandardAccount { name: "Accrued Expenses"@, account_type: AccountType::Liability, description: "Accrued expenses"@, code: "2300"@, reconciliation: false },
        StandardAccount { name: "Unearned Revenue"@, account_type: AccountType::Liability, description: "Deposits and advance payments"@, code: "2400"@, reconciliation: false },
        StandardAccount { name: "Owner's Equity"@, account_type: AccountType::Equity, description: "Owner's investment and retained earnings"@, code: "3000"@, reconciliation: false },
        StandardAccount { name: "Retained Earnings"@, account_type: AccountType::Equity, description: "Accumulated retained earnings"@, code: "3100"@, reconciliation: false },
        StandardAccount { name: "Current Period Earnings"@, account_type: AccountType::Equity, description: "Current period earnings"@, code: "3200"@, reconciliation: false },
        StandardAccount { name: "Food Revenue"@, account_type: AccountType::Revenue, description: "Food sales revenue"@, code: "4000"@, reconciliation: false },
        StandardAccount { name: "Beverage Revenue"@, account_type: AccountType::Revenue, description: "Beverage sales revenue"@, code: "4100"@, reconciliation: false },
        StandardAccount { name: "Other Revenue"@, account_type: AccountType::Revenue, description: "Other revenue sources"@, code: "4200"@, reconciliation: false },
        StandardAccount { name: "Service Charges"@, account_type: AccountType::Revenue, description: "Service charges and fees"@, code: "4300"@, reconciliation: false },
        StandardAccount { name: "Food Cost"@, account_type: AccountType::Expense, description: "Cost of goods sold - food"@, code: "5000"@, reconciliation: false },
        StandardAccount { name: "Beverage Cost"@, account_type: AccountType::Expense, description: "Cost of goods sold - beverage"@, code: "5100"@, reconciliation: false },
        StandardAccount { name: "Supply Cost"@, account_type: AccountType::Expense, description: "Cost of supplies"@, code: "5200"@, reconciliation: false },
        StandardAccount { name: "Labor Cost"@, account_type: AccountType::Expense, description: "Staff wages and salaries"@, code: "6000"@, reconciliation: false },
        StandardAccount { name: "Rent Expense"@, account_type: AccountType::Expense, description: "Rent and lease payments"@, code: "6100"@, reconciliation: false },
        StandardAccount { name: "Utilities Expense"@, account_type: AccountType::Expense, description: "Utilities (electricity, water, gas)"@, code: "6200"@, reconciliation: false },
        StandardAccount { name: "Marketing Expense"@, account_type: AccountType::Expense, description: "Marketing and advertising"@, code: "6300"@, reconciliation: false },
        StandardAccount { name: "Maintenance Expense"@, account_type: AccountType::Expense, description: "Equipment and facility maintenance"@, code: "6400"@, reconciliation: false },
        StandardAccount { name: "License Expense"@, account_type: AccountType::Expense, description: "Business licenses and permits"@, code: "6500"@, reconciliation: false },
        StandardAccount { name: "Other Operating Expense"@, account_type: AccountType::Expense, description: "Other operating expenses"@, code: "6600"@, reconciliation: false },
    ]
}

/// The account is a fresh one as described.
pub open spec fn is_standard(a: Account, s: StandardAccount) -> bool {
    &&& a.name@ == s.name
    &&& a.account_type == s.account_type
    &&& a.description matches Some(d) && d@ == s.description
    &&& a.account_code matches Some(c) && c@ == s.code
    &&& a.reconciliation_account == s.reconciliation
    &&& a.is_active
    &&& a.parent_id is None
    &&& a.currency@ == "KES"@
    &&& a.current_balance@ == 0
}

/// Some account has this name.
pub open spec fn has_name(accounts: Seq<Account>, name: Seq<char>) -> bool {
    exists|i: int| 0 <= i < accounts.len() && #[trigger] accounts[i].name@ == name
}

/// `a` is the first account in `accounts` with this name.
pub open spec fn first_named(accounts: Seq<Account>, name: Seq<char>, a: Account) -> bool {
    exists|i: int|
        0 <= i < accounts.len() && accounts[i] == a && a.name@ == name && forall|j: int|
            0 <= j < i ==> #[trigger] accounts[j].name@ != name
}

/// Some account has this identifier.
pub open spec fn has_id(accounts: Seq<Account>, id: Id) -> bool {
    exists|i: int| 0 <= i < accounts.len() && #[trigger] accounts[i].id == id
}

/// `a` is the first account in `accounts` with this identifier.
pub open spec fn first_with_id(accounts: Seq<Account>, id: Id, a: Account) -> bool {
    exists|i: int|
        0 <= i < accounts.len() && accounts[i] == a && a.id == id && forall|j: int|
            0 <= j < i ==> #[trigger] accounts[j].id != id
}

proof fn lemma_first_named_unique(accounts: Seq<Account>, name: Seq<char>, a: Account, b: Account)
    requires
        first_named(accounts, name, a),
        first_named(accounts, name, b),
    ensures
        a == b,
{
    let i = choose|i: int|
        0 <= i < accounts.len() && accounts[i] == a && a.name@ == name && forall|j: int|
            0 <= j < i ==> #[trigger] accounts[j].name@ != name;
    let k = choose|k: int|
        0 <= k < accounts.len() && accounts[k] == b && b.name@ == name && forall|j: int|
            0 <= j < k ==> #[trigger] accounts[j].name@ != name;
    if i < k {
        assert(accounts[i].name@ != name);
    } else if k < i {
        assert(accounts[k].name@ != name);
    }
}

/// The chart of accounts: accounts with pairwise different names.
#[derive(Debug, Clone)]
pub struct ChartOfAccounts {
    accounts: Vec<Account>,
}

impl View for ChartOfAccounts {
    type V = Seq<Account>;

    closed spec fn view(&self) -> Seq<Account> {
        self.accounts@
    }
}

impl ChartOfAccounts {
    /// An empty chart.
    pub fn new() -> (c: ChartOfAccounts)
        ensures
            c@ == Seq::<Account>::empty(),
    {
        ChartOfAccounts { accounts: Vec::new() }
    }

    /// Add an account; refused when an account of that name exists.
    pub fn add_account(&mut self, account: Account) -> (r: AccountingResult<()>)
        ensures
            has_name(old(self)@, account.name@) ==> (r matches Err(
                AccountingError::DuplicateAccount(n),
            ) && n == account.name && final(self)@ == old(self)@),
            !has_name(old(self)@, account.name@) ==> r is Ok && final(self)@ == old(self)@.push(
                account,
            ),
    {
        let mut i: usize = 0;
        while i < self.accounts.len()
            invariant
                i <= self.accounts@.len(),
                forall|j: int| 0 <= j < i ==> #[trigger] self.accounts@[j].name@ != account.name@,
            decreases self.accounts.len() - i,
        {
            if self.accounts[i].name == account.name {
                return Err(AccountingError::DuplicateAccount(account.name));
            }
            i = i + 1;
        }
        self.accounts.push(account);
        Ok(())
    }

    /// The first account with this name.
    pub fn get_account_by_name(&self, name: &str) -> (r: Option<&Account>)
        ensures
            r is None <==> !has_name(self@, name@),
            r matches Some(a) ==> first_named(self@, name@, *a),
    {
        let mut i: usize = 0;
        while i < self.accounts.len()
            invariant
                i <= self.accounts@.len(),
                forall|j: int| 0 <= j < i ==> #[trigger] self.accounts@[j].name@ != name@,
            decreases self.accounts.len() - i,
        {
            if str_equal(self.accounts[i].name.as_str(), name) {
                return Some(&self.accounts[i]);
            }
            i = i + 1;
        }
        None
    }

    /// The first account with this identifier.
    pub fn get_account_by_id(&self, id: &Id) -> (r: Option<&Account>)
        ensures
            r is None <==> !has_id(self@, *id),
            r matches Some(a) ==> first_with_id(self@, *id, *a),
    {
        let mut i: usize = 0;
        while i < self.accounts.len()
            invariant
                i <= self.accounts@.len(),
                forall|j: int| 0 <= j < i ==> #[trigger] self.accounts@[j].id != *id,
            decreases self.accounts.len() - i,
        {
            if self.accounts[i].id == *id {
                return Some(&self.accounts[i]);
            }
            i = i + 1;
        }
        None
    }

    /// Add one of the standard accounts.
    fn add_standard(
        &mut self,
        name: &str,
        account_type: AccountType,
        description: &str,
        code: &str,
        reconciliation: bool,
    )
        requires
            forall|i: int| 0 <= i < old(self)@.len() ==> #[trigger] old(self)@[i].name@ != name@,
        ensures
            final(self)@ == old(self)@.push(final(self)@.last()),
            is_standard(
                final(self)@.last(),
                StandardAccount {
                    name: name@,
                    account_type,
                    description: description@,
                    code: code@,
                    reconciliation,
                },
            ),
    {
        let account = Account::new(
            String::from_str(name),
            account_type,
            Some(String::from_str(description)),
        ).with_code(String::from_str(code));
        let account = if reconciliation {
            account.set_reconciliation_account()
        } else {
            account
        };
        let r = self.add_account(account);
    }

    /// The standard chart of accounts of a restaurant.
    pub fn initialize_restaurant_accounts() -> (c: ChartOfAccounts)
        ensures
            c@.len() == standard_accounts().len(),
            forall|i: int| 0 <= i < c@.len() ==> is_standard(c@[i], #[trigger] standard_accounts()[i]),
    {
        let mut coa = Self::new();
        proof {
            reveal_strlit("Cash");
            reveal_strlit("Card Receivable");
            reveal_strlit("Mobile Money Receivable");
            reveal_strlit("Inventory");
            reveal_strlit("Accounts Receivable");
            reveal_strlit("Prepaid Expenses");
            reveal_strlit("Accounts Payable");
            reveal_strlit("Tax Payable");
            reveal_strlit("Tips Payable");
            reveal_strlit("Accrued Expenses");
            reveal_strlit("Unearned Revenue");
            reveal_strlit("Owner's Equity");
            reveal_strlit("Retained Earnings");
            reveal_strlit("Current Period Earnings");
            reveal_strlit("Food Revenue");
            reveal_strlit("Beverage Revenue");
            reveal_strlit("Other Revenue");
            reveal_strlit("Service Charges");
            reveal_strlit("Food Cost");
            reveal_strlit("Beverage Cost");
            reveal_strlit("Supply Cost");
            reveal_strlit("Labor Cost");
            reveal_strlit("Rent Expense");
            reveal_strlit("Utilities Expense");
            reveal_strlit("Marketing Expense");
            reveal_strlit("Maintenance Expense");
            reveal_strlit("License Expense");
            reveal_strlit("Other Operating Expense");
            assert("Cash"@.len() == 4 && "Cash"@[0] == 'C' && "Cash"@[3] == 'h');
            assert("Card Receivable"@.len() == 15 && "Card Receivable"@[0] == 'C' && "Card Receivable"@[3] == 'd');
            assert("Mobile Money Receivable"@.len() == 23 && "Mobile Money Receivable"@[0] == 'M' && "Mobile Money Receivable"@[3] == 'i');
            assert("Inventory"@.len() == 9 && "Inventory"@[0] == 'I' && "Inventory"@[3] == 'e');
            assert("Accounts Receivable"@.len() == 19 && "Accounts Receivable"@[0] == 'A' && "Accounts Receivable"@[3] == 'o');
            assert("Prepaid Expenses"@.len() == 16 && "Prepaid Expenses"@[0] == 'P' && "Prepaid Expenses"@[3] == 'p');
            assert("Accounts Payable"@.len() == 16 && "Accounts Payable"@[0] == 'A' && "Accounts Payable"@[3] == 'o');
            assert("Tax Payable"@.len() == 11 && "Tax Payable"@[0] == 'T' && "Tax Payable"@[3] == ' ');
            assert("Tips Payable"@.len() == 12 && "Tips Payable"@[0] == 'T' && "Tips Payable"@[3] == 's');
            assert("Accrued Expenses"@.len() == 16 && "Accrued Expenses"@[0] == 'A' && "Accrued Expenses"@[3] == 'r');
            assert("Unearned Revenue"@.len() == 16 && "Unearned Revenue"@[0] == 'U' && "Unearned Revenue"@[3] == 'a');
            assert("Owner's Equity"@.len() == 14 && "Owner's Equity"@[0] == 'O' && "Owner's Equity"@[3] == 'e');
            assert("Retained Earnings"@.len() == 17 && "Retained Earnings"@[0] == 'R' && "Retained Earnings"@[3] == 'a');
            assert("Current Period Earnings"@.len() == 23 && "Current Period Earnings"@[0] == 'C' && "Current Period Earnings"@[3] == 'r');
            assert("Food Revenue"@.len() == 12 && "Food Revenue"@[0] == 'F' && "Food Revenue"@[3] == 'd');
            assert("Beverage Revenue"@.len() == 16 && "Beverage Revenue"@[0] == 'B' && "Beverage Revenue"@[3] == 'e');
            assert("Other Revenue"@.len() == 13 && "Other Revenue"@[0] == 'O' && "Other Revenue"@[3] == 'e');
            assert("Service Charges"@.len() == 15 && "Service Charges"@[0] == 'S' && "Service Charges"@[3] == 'v');
            assert("Food Cost"@.len() == 9 && "Food Cost"@[0] == 'F' && "Food Cost"@[3] == 'd');
            assert("Beverage Cost"@.len() == 13 && "Beverage Cost"@[0] == 'B' && "Beverage Cost"@[3] == 'e');
            assert("Supply Cost"@.len() == 11 && "Supply Cost"@[0] == 'S' && "Supply Cost"@[3] == 'p');
            assert("Labor Cost"@.len() == 10 && "Labor Cost"@[0] == 'L' && "Labor Cost"@[3] == 'o');
            assert("Rent Expense"@.len() == 12 && "Rent Expense"@[0] == 'R' && "Rent Expense"@[3] == 't');
            assert("Utilities Expense"@.len() == 17 && "Utilities Expense"@[0] == 'U' && "Utilities Expense"@[3] == 'l');
            assert("Marketing Expense"@.len() == 17 && "Marketing Expense"@[0] == 'M' && "Marketing Expense"@[3] == 'k');
            assert("Maintenance Expense"@.len() == 19 && "Maintenance Expense"@[0] == 'M' && "Maintenance Expense"@[3] == 'n');
            assert("License Expense"@.len() == 15 && "License Expense"@[0] == 'L' && "License Expense"@[3] == 'e');
            assert("Other Operating Expense"@.len() == 23 && "Other Operating Expense"@[0] == 'O' && "Other Operating Expense"@[3] == 'e');
        }
        coa.add_standard("Cash", AccountType::Asset, "Cash on hand and in registers", "1000", true);
        coa.add_standard("Card Receivable", AccountType::Asset, "Credit card receivables", "1100", true);
        coa.add_standard("Mobile Money Receivable", AccountType::Asset, "M-Pesa and mobile money receivables", "1150", true);
        coa.add_standard("Inventory", AccountType::Asset, "Food and beverage inventory", "1200", false);
        coa.add_standard("Accounts Receivable", AccountType::Asset, "Customer accounts receivable", "1300", false);
        coa.add_standard("Prepaid Expenses", AccountType::Asset, "Prepaid expenses", "1400", false);
        coa.add_standard("Accounts Payable", AccountType::Liability, "Accounts payable to suppliers", "2000", false);
        coa.add_standard("Tax Payable", AccountType::Liability, "Sales tax liability", "2100", false);
        coa.add_standard("Tips Payable", AccountType::Liability, "Tips to be distributed to staff", "2200", false);
        coa.add_standard("Accrued Expenses", AccountType::Liability, "Accrued expenses", "2300", false);
        coa.add_standard("Unearned Revenue", AccountType::Liability, "Deposits and advance payments", "2400", false);
        coa.add_standard("Owner's Equity", AccountType::Equity, "Owner's investment and retained earnings", "3000", false);
        coa.add_standard("Retained Earnings", AccountType::Equity, "Accumulated retained earnings", "3100", false);
        coa.add_standard("Current Period Earnings", AccountType::Equity, "Current period earnings", "3200", false);
        coa.add_standard("Food Revenue", AccountType::Revenue, "Food sales revenue", "4000", false);
        coa.add_standard("Beverage Revenue", AccountType::Revenue, "Beverage sales revenue", "4100", false);
        coa.add_standard("Other Revenue", AccountType::Revenue, "Other revenue sources", "4200", false);
        coa.add_standard("Service Charges", AccountType::Revenue, "Service charges and fees", "4300", false);
        coa.add_standard("Food Cost", AccountType::Expense, "Cost of goods sold - food", "5000", false);
        coa.add_standard("Beverage Cost", AccountType::Expense, "Cost of goods sold - beverage", "5100", false);
        coa.add_standard("Supply Cost", AccountType::Expense, "Cost of supplies", "5200", false);
        coa.add_standard("Labor Cost", AccountType::Expense, "Staff wages and salaries", "6000", false);
        coa.add_standard("Rent Expense", AccountType::Expense, "Rent and lease payments", "6100", false);
        coa.add_standard("Utilities Expense", AccountType::Expense, "Utilities (electricity, water, gas)", "6200", false);
        coa.add_standard("Marketing Expense", AccountType::Expense, "Marketing and advertising", "6300", false);
        coa.add_standard("Maintenance Expense", AccountType::Expense, "Equipment and facility maintenance", "6400", false);
        coa.add_standard("License Expense", AccountType::Expense, "Business licenses and permits", "6500", false);
        coa.add_standard("Other Operating Expense", AccountType::Expense, "Other operating expenses", "6600", false);
        coa
    }
}

/// A period of the books, for closing and reporting.
#[derive(Debug, Clone)]
pub struct AccountingPeriod {
    pub id: Id,
    pub period_name: String,
    pub start_date: Timestamp,
    pub end_date: Timestamp,
    pub is_closed: bool,
    pub closed_at: Option<Timestamp>,
    pub closed_by: Option<Id>,
    pub fiscal_year: i32,
    pub created_at: Timestamp,
    pub updated_at: Timestamp,
}

impl AccountingPeriod {
    /// A new open period.
    pub fn new(period_name: String, start_date: Timestamp, end_date: Timestamp, fiscal_year: i32) -> (p: AccountingPeriod)
        ensures
            p.period_name == period_name,
            p.start_date == start_date,
            p.end_date == end_date,
            !p.is_closed,
            p.closed_at is None,
            p.closed_by is None,
            p.fiscal_year == fiscal_year,
            p.created_at == p.updated_at,
    {
        let now = now();
        AccountingPeriod {
            id: new_id(),
            period_name,
            start_date,
            end_date,
            is_closed: false,
            closed_at: None,
            closed_by: None,
            fiscal_year,
            created_at: now,
            updated_at: now,
        }
    }

    /// Close the period.
    pub fn close(&mut self, closed_by: Id)
        ensures
            final(self).is_closed,
            final(self).closed_at is Some,
            final(self).closed_by == Some(closed_by),
            final(self).id == old(self).id,
            final(self).period_name == old(self).period_name,
            final(self).start_date == old(self).start_date,
            final(self).end_date == old(self).end_date,
            final(self).fiscal_year == old(self).fiscal_year,
            final(self).created_at == old(self).created_at,
    {
        self.is_closed = true;
        self.closed_at = Some(now());
        self.closed_by = Some(closed_by);
        self.updated_at = now();
    }
}

/// A reconciliation of an account against a bank statement.
#[derive(Debug, Clone)]
pub struct BankReconciliation {
    pub id: Id,
    pub account_id: Id,
    pub reconciliation_date: Timestamp,
    pub statement_balance: Decimal,
    pub book_balance: Decimal,
    pub difference: Decimal,
    pub status: String,
    pub reconciled_by: Option<Id>,
    pub notes: Option<String>,
    pub created_at: Timestamp,
    pub updated_at: Timestamp,
}

/// `r` is the reconciliation made from these values with the given
/// difference parts.
pub open spec fn reconciliation_made(
    r: BankReconciliation,
    account_id: Id,
    reconciliation_date: Timestamp,
    statement_balance: Decimal,
    book_balance: Decimal,
    difference: (i128, u32),
) -> bool {
    &&& r.account_id == account_id
    &&& r.reconciliation_date == reconciliation_date
    &&& r.statement_balance == statement_balance
    &&& r.book_balance == book_balance
    &&& dparts(r.difference) == difference
    &&& r.status@ == (if value_of(difference) == 0 {
        "Completed"@
    } else {
        "Pending"@
    })
    &&& r.reconciled_by is None
    &&& r.notes is None
    &&& r.created_at == r.updated_at
}

impl BankReconciliation {
    /// A reconciliation of the given balances, or `None` where their
    /// difference cannot be computed.
    pub fn checked_new(
        account_id: Id,
        reconciliation_date: Timestamp,
        statement_balance: Decimal,
        book_balance: Decimal,
    ) -> (r: Option<BankReconciliation>)
        ensures
            r is Some <==> difference_of(dparts(statement_balance), dparts(book_balance)) is Some,
            r matches Some(rec) ==> reconciliation_made(
                rec,
                account_id,
                reconciliation_date,
                statement_balance,
                book_balance,
                difference_of(dparts(statement_balance), dparts(book_balance)).unwrap(),
            ),
            r matches Some(rec) ==> (parts_difference_is_exact(
                dparts(statement_balance),
                dparts(book_balance),
            ) ==> rec.difference@ == statement_balance@ - book_balance@),
    {
        let difference = match checked_difference(&statement_balance, &book_balance) {
            Some(d) => d,
            None => {
                return None;
            },
        };
        let now = now();
        let status = if compare(&difference, &Decimal::zero()) == 0 {
            String::from_str("Completed")
        } else {
            String::from_str("Pending")
        };
        Some(
            BankReconciliation {
                id: new_id(),
                account_id,
                reconciliation_date,
                statement_balance,
                book_balance,
                difference,
                status,
                reconciled_by: None,
                notes: None,
                created_at: now,
                updated_at: now,
            },
        )
    }

    /// A reconciliation of the given balances: completed when they agree,
    /// pending otherwise.
    pub fn new(
        account_id: Id,
        reconciliation_date: Timestamp,
        statement_balance: Decimal,
        book_balance: Decimal,
    ) -> (r: BankReconciliation)
        requires
            difference_of(dparts(statement_balance), dparts(book_balance)) is Some,
        ensures
            reconciliation_made(
                r,
                account_id,
                reconciliation_date,
                statement_balance,
                book_balance,
                difference_of(dparts(statement_balance), dparts(book_balance)).unwrap(),
            ),
            parts_difference_is_exact(dparts(statement_balance), dparts(book_balance))
                ==> r.difference@ == statement_balance@ - book_balance@,
    {
        match Self::checked_new(account_id, reconciliation_date, statement_balance, book_balance) {
            Some(r) => r,
            None => {
                proof {
                    assert(false);
                }
                let zero = Decimal::zero();
                BankReconciliation {
                    id: 0,
                    account_id,
                    reconciliation_date,
                    statement_balance,
                    book_balance,
                    difference: zero,
                    status: String::new(),
                    reconciled_by: None,
                    notes: None,
                    created_at: reconciliation_date,
                    updated_at: reconciliation_date,
                }
            },
        }
    }

    /// Mark the reconciliation completed by the given person.
    pub fn complete(&mut self, reconciled_by: Id)
        ensures
            final(self).status@ == "Completed"@,
            final(self).reconciled_by == Some(reconciled_by),
            final(self).id == old(self).id,
            final(self).account_id == old(self).account_id,
            final(self).reconciliation_date == old(self).reconciliation_date,
            final(self).statement_balance == old(self).statement_balance,
            final(self).book_balance == old(self).book_balance,
            final(self).difference == old(self).difference,
            final(self).notes == old(self).notes,
            final(self).created_at == old(self).created_at,
    {
        self.status = String::from_str("Completed");
        self.reconciled_by = Some(reconciled_by);
        self.updated_at = now();
    }
}

/// An item of a bank reconciliation.
#[derive(Debug, Clone)]
pub struct ReconciliationItem {
    pub id: Id,
    pub reconciliation_id: Id,
    pub journal_entry_id: Option<Id>,
    pub item_type: String,
    pub amount: Decimal,
    pub description: Option<String>,
    pub is_cleared: bool,
    pub cleared_date: Option<Timestamp>,
    pub created_at: Timestamp,
}

impl ReconciliationItem {
    /// A new uncleared item.
    pub fn new(reconciliation_id: Id, item_type: String, amount: Decimal, description: Option<String>) -> (i: ReconciliationItem)
        ensures
            i.reconciliation_id == reconciliation_id,
            i.journal_entry_id is None,
            i.item_type == item_type,
            i.amount == amount,
            i.description == description,
            !i.is_cleared,
            i.cleared_date is None,
    {
        ReconciliationItem {
            id: new_id(),
            reconciliation_id,
            journal_entry_id: None,
            item_type,
            amount,
            description,
            is_cleared: false,
            cleared_date: None,
            created_at: now(),
        }
    }

    /// Mark the item cleared now.
    pub fn clear(&mut self)
        ensures
            final(self).is_cleared,
            final(self).cleared_date is Some,
            final(self).id == old(self).id,
            final(self).reconciliation_id == old(self).reconciliation_id,
            final(self).journal_entry_id == old(self).journal_entry_id,
            final(self).item_type == old(self).item_type,
            final(self).amount == old(self).amount,
            final(self).description == old(self).description,
            final(self).created_at == old(self).created_at,
    {
        self.is_cleared = true;
        self.cleared_date = Some(now());
    }

    /// The item, tied to a journal entry.
    pub fn with_journal_entry(self, entry_id: Id) -> (i: ReconciliationItem)
        ensures
            i == (ReconciliationItem { journal_entry_id: Some(entry_id), ..self }),
    {
        let mut i = self;
        i.journal_entry_id = Some(entry_id);
        i
    }
}

/// A generated financial report.
#[derive(Debug)]
pub struct FinancialReport {
    pub id: Id,
    pub report_type: String,
    pub period_id: Option<Id>,
    pub report_data: serde_json::Value,
    pub generated_by: Id,
    pub generated_at: Timestamp,
    pub parameters: Option<serde_json::Value>,
}

impl FinancialReport {
    /// A new report without parameters.
    pub fn new(report_type: String, period_id: Option<Id>, report_data: serde_json::Value, generated_by: Id) -> (r: FinancialReport)
        ensures
            r.report_type == report_type,
            r.period_id == period_id,
            r.report_data == report_data,
            r.generated_by == generated_by,
            r.parameters is None,
    {
        FinancialReport {
            id: new_id(),
            report_type,
            period_id,
            report_data,
            generated_by,
            generated_at: now(),
            parameters: None,
        }
    }

    /// The report with its parameters.
    pub fn with_parameters(self, parameters: serde_json::Value) -> (r: FinancialReport)
        ensures
            r == (FinancialReport { parameters: Some(parameters), ..self }),
    {
        let mut r = self;
        r.parameters = Some(parameters);
        r
    }
}

/// An entry of the audit log.
#[derive(Debug)]
pub struct AuditLogEntry {
    pub id: Id,
    pub entity_type: String,
    pub entity_id: Id,
    pub action_type: String,
    pub old_values: Option<serde_json::Value>,
    pub new_values: Option<serde_json::Value>,
    pub changed_by: Option<Id>,
    pub changed_at: Timestamp,
    pub description: Option<String>,
}

/// The balances of an account.
#[derive(Debug)]
pub struct AccountBalance {
    pub account_id: Id,
    pub account_name: String,
    pub account_type: AccountType,
    pub debit_balance: Decimal,
    pub credit_balance: Decimal,
    pub net_balance: Decimal,
}

impl Clone for AccountBalance {
    fn clone(&self) -> (b: AccountBalance)
        ensures
            b == *self,
    {
        AccountBalance {
            account_id: self.account_id,
            account_name: self.account_name.clone(),
            account_type: self.account_type,
            debit_balance: self.debit_balance,
            credit_balance: self.credit_balance,
            net_balance: self.net_balance,
        }
    }
}

/// The net balance on the account type's normal side: debits less credits
/// for assets and expenses, credits less debits otherwise.
pub open spec fn net_parts(account_type: AccountType, debit: Decimal, credit: Decimal) -> Option<(i128, u32)> {
    if account_type.normal_side() == DebitCredit::Debit {
        difference_of(dparts(debit), dparts(credit))
    } else {
        difference_of(dparts(credit), dparts(debit))
    }
}

/// The net balance needs no rounding.
pub open spec fn net_is_exact(account_type: AccountType, debit: Decimal, credit: Decimal) -> bool {
    if account_type.normal_side() == DebitCredit::Debit {
        parts_difference_is_exact(dparts(debit), dparts(credit))
    } else {
        parts_difference_is_exact(dparts(credit), dparts(debit))
    }
}

/// The net balance in exact arithmetic.
pub open spec fn net_value(account_type: AccountType, debit: Decimal, credit: Decimal) -> int {
    if account_type.normal_side() == DebitCredit::Debit {
        debit@ - credit@
    } else {
        credit@ - debit@
    }
}

impl AccountBalance {
    /// The balances of the account, or `None` where the net balance cannot
    /// be computed.
    pub fn checked_new(account: &Account, debit_balance: Decimal, credit_balance: Decimal) -> (r: Option<AccountBalance>)
        ensures
            r is Some <==> net_parts(account.account_type, debit_balance, credit_balance) is Some,
            r matches Some(b) ==> b.account_id == account.id && b.account_name == account.name
                && b.account_type == account.account_type && b.debit_balance == debit_balance
                && b.credit_balance == credit_balance && dparts(b.net_balance) == net_parts(
                account.account_type,
                debit_balance,
                credit_balance,
            ).unwrap(),
            r matches Some(b) ==> (net_is_exact(account.account_type, debit_balance, credit_balance)
                ==> b.net_balance@ == net_value(account.account_type, debit_balance, credit_balance)),
    {
        let net = match account.account_type {
            AccountType::Asset | AccountType::Expense => checked_difference(&debit_balance, &credit_balance),
            _ => checked_difference(&credit_balance, &debit_balance),
        };
        match net {
            Some(net_balance) => Some(
                AccountBalance {
                    account_id: account.id,
                    account_name: account.name.clone(),
                    account_type: account.account_type,
                    debit_balance,
                    credit_balance,
                    net_balance,
                },
            ),
            None => None,
        }
    }

    /// The balances of the account with the net balance on its normal side.
    pub fn new(account: &Account, debit_balance: Decimal, credit_balance: Decimal) -> (b: AccountBalance)
        requires
            net_parts(account.account_type, debit_balance, credit_balance) is Some,
        ensures
            b.account_id == account.id,
            b.account_name == account.name,
            b.account_type == account.account_type,
            b.debit_balance == debit_balance,
            b.credit_balance == credit_balance,
            dparts(b.net_balance) == net_parts(account.account_type, debit_balance, credit_balance).unwrap(),
            net_is_exact(account.account_type, debit_balance, credit_balance) ==> b.net_balance@
                == net_value(account.account_type, debit_balance, credit_balance),
    {
        match Self::checked_new(account, debit_balance, credit_balance) {
            Some(b) => b,
            None => {
                proof {
                    assert(false);
                }
                AccountBalance {
                    account_id: account.id,
                    account_name: String::new(),
                    account_type: account.account_type,
                    debit_balance,
                    credit_balance,
                    net_balance: debit_balance,
                }
            },
        }
    }
}

/// A trial balance: the balances of all accounts with their totals.
#[derive(Debug, Clone)]
pub struct TrialBalance {
    pub period_id: Option<Id>,
    pub as_of_date: Timestamp,
    pub accounts: Vec<AccountBalance>,
    pub total_debits: Decimal,
    pub total_credits: Decimal,
    pub is_balanced: bool,
}

/// The totals of a trial balance can take this balance.
pub open spec fn can_add_balance(t: TrialBalance, b: AccountBalance) -> bool {
    &&& sum_of(dparts(t.total_debits), dparts(b.debit_balance)) is Some
    &&& sum_of(dparts(t.total_credits), dparts(b.credit_balance)) is Some
}

/// `after` is `before` with the balance added.
pub open spec fn balance_added(before: TrialBalance, after: TrialBalance, b: AccountBalance) -> bool {
    &&& after.accounts@ == before.accounts@.push(b)
    &&& dparts(after.total_debits) == sum_of(dparts(before.total_debits), dparts(b.debit_balance)).unwrap()
    &&& dparts(after.total_credits) == sum_of(dparts(before.total_credits), dparts(b.credit_balance)).unwrap()
    &&& after.is_balanced == (after.total_debits@ == after.total_credits@)
    &&& parts_sum_is_exact(dparts(before.total_debits), dparts(b.debit_balance)) ==> after.total_debits@
        == before.total_debits@ + b.debit_balance@
    &&& parts_sum_is_exact(dparts(before.total_credits), dparts(b.credit_balance))
        ==> after.total_credits@ == before.total_credits@ + b.credit_balance@
    &&& after.period_id == before.period_id
    &&& after.as_of_date == before.as_of_date
}

impl TrialBalance {
    /// An empty trial balance, which is balanced.
    pub fn new(period_id: Option<Id>, as_of_date: Timestamp) -> (t: TrialBalance)
        ensures
            t.period_id == period_id,
            t.as_of_date == as_of_date,
            t.accounts@ == Seq::<AccountBalance>::empty(),
            dparts(t.total_debits) == (0i128, 0u32),
            dparts(t.total_credits) == (0i128, 0u32),
            t.is_balanced,
    {
        TrialBalance {
            period_id,
            as_of_date,
            accounts: Vec::new(),
            total_debits: Decimal::zero(),
            total_credits: Decimal::zero(),
            is_balanced: true,
        }
    }

    /// Add an account's balances where the totals can take them; answers
    /// whether they could, and leaves the trial balance unchanged where not.
    pub fn try_add_account(&mut self, balance: AccountBalance) -> (ok: bool)
        ensures
            ok == can_add_balance(*old(self), balance),
            ok ==> balance_added(*old(self), *final(self), balance),
            !ok ==> *final(self) == *old(self),
    {
        let debits = match checked_sum(&self.total_debits, &balance.debit_balance) {
            Some(d) => d,
            None => {
                return false;
            },
        };
        let credits = match checked_sum(&self.total_credits, &balance.credit_balance) {
            Some(c) => c,
            None => {
                return false;
            },
        };
        self.total_debits = debits;
        self.total_credits = credits;
        self.accounts.push(balance);
        self.is_balanced = compare(&self.total_debits, &self.total_credits) == 0;
        true
    }

    /// Add an account's balances to the trial balance and its totals.
    pub fn add_account(&mut self, balance: AccountBalance)
        requires
            can_add_balance(*old(self), balance),
        ensures
            balance_added(*old(self), *final(self), balance),
    {
        let ok = self.try_add_account(balance);
        assert(ok);
    }
}

/// An income statement (profit and loss).
#[derive(Debug, Clone)]
pub struct IncomeStatement {
    pub period_id: Option<Id>,
    pub start_date: Timestamp,
    pub end_date: Timestamp,
    pub revenue: Decimal,
    pub cost_of_goods_sold: Decimal,
    pub gross_profit: Decimal,
    pub operating_expenses: Decimal,
    pub net_income: Decimal,
    pub revenue_breakdown: Vec<(String, Decimal)>,
    pub expense_breakdown: Vec<(String, Decimal)>,
}

/// The profits of the statement can be computed.
pub open spec fn income_computable(s: IncomeStatement) -> bool {
    match difference_of(dparts(s.revenue), dparts(s.cost_of_goods_sold)) {
        Some(g) => difference_of(g, dparts(s.operating_expenses)) is Some,
        None => false,
    }
}

/// `after` holds the profits computed from `before`'s totals.
pub open spec fn income_calculated(before: IncomeStatement, after: IncomeStatement) -> bool {
    let g = difference_of(dparts(before.revenue), dparts(before.cost_of_goods_sold)).unwrap();
    &&& dparts(after.gross_profit) == g
    &&& dparts(after.net_income) == difference_of(g, dparts(before.operating_expenses)).unwrap()
    &&& parts_difference_is_exact(dparts(before.revenue), dparts(before.cost_of_goods_sold))
        ==> after.gross_profit@ == before.revenue@ - before.cost_of_goods_sold@
    &&& parts_difference_is_exact(dparts(before.revenue), dparts(before.cost_of_goods_sold))
        && parts_difference_is_exact(g, dparts(before.operating_expenses)) ==> after.net_income@
        == before.revenue@ - before.cost_of_goods_sold@ - before.operating_expenses@
    &&& after == (IncomeStatement { gross_profit: after.gross_profit, net_income: after.net_income, ..before })
}

impl IncomeStatement {
    /// An empty statement for the period.
    pub fn new(period_id: Option<Id>, start_date: Timestamp, end_date: Timestamp) -> (s: IncomeStatement)
        ensures
            s.period_id == period_id,
            s.start_date == start_date,
            s.end_date == end_date,
            dparts(s.revenue) == (0i128, 0u32),
            dparts(s.cost_of_goods_sold) == (0i128, 0u32),
            dparts(s.gross_profit) == (0i128, 0u32),
            dparts(s.operating_expenses) == (0i128, 0u32),
            dparts(s.net_income) == (0i128, 0u32),
            s.revenue_breakdown@ == Seq::<(String, Decimal)>::empty(),
            s.expense_breakdown@ == Seq::<(String, Decimal)>::empty(),
    {
        IncomeStatement {
            period_id,
            start_date,
            end_date,
            revenue: Decimal::zero(),
            cost_of_goods_sold: Decimal::zero(),
            gross_profit: Decimal::zero(),
            operating_expenses: Decimal::zero(),
            net_income: Decimal::zero(),
            revenue_breakdown: Vec::new(),
            expense_breakdown: Vec::new(),
        }
    }

    /// Compute gross profit and net income where they can be computed;
    /// answers whether they could, and leaves the statement unchanged where not.
    pub fn try_calculate(&mut self) -> (ok: bool)
        ensures
            ok == income_computable(*old(self)),
            ok ==> income_calculated(*old(self), *final(self)),
            !ok ==> *final(self) == *old(self),
    {
        let gross = match checked_difference(&self.revenue, &self.cost_of_goods_sold) {
            Some(g) => g,
            None => {
                return false;
            },
        };
        let net = match checked_difference(&gross, &self.operating_expenses) {
            Some(n) => n,
            None => {
                return false;
            },
        };
        self.gross_profit = gross;
        self.net_income = net;
        true
    }

    /// Gross profit is revenue less cost of goods sold; net income is gross
    /// profit less operating expenses.
    pub fn calculate(&mut self)
        requires
            income_computable(*old(self)),
        ensures
            income_calculated(*old(self), *final(self)),
    {
        let ok = self.try_calculate();
        assert(ok);
    }
}

/// A balance sheet.
#[derive(Debug, Clone)]
pub struct BalanceSheet {
    pub period_id: Option<Id>,
    pub as_of_date: Timestamp,
    pub assets: Decimal,
    pub current_assets: Decimal,
    pub non_current_assets: Decimal,
    pub liabilities: Decimal,
    pub current_liabilities: Decimal,
    pub non_current_liabilities: Decimal,
    pub equity: Decimal,
    pub total_liabilities_equity: Decimal,
    pub is_balanced: bool,
}

/// The totals of the sheet can be computed.
pub open spec fn sheet_computable(s: BalanceSheet) -> bool {
    sum_of(dparts(s.liabilities), dparts(s.equity)) is Some
}

/// `after` holds the totals computed from `before`.
pub open spec fn sheet_calculated(before: BalanceSheet, after: BalanceSheet) -> bool {
    &&& dparts(after.total_liabilities_equity) == sum_of(dparts(before.liabilities), dparts(before.equity)).unwrap()
    &&& after.is_balanced == (before.assets@ == after.total_liabilities_equity@)
    &&& parts_sum_is_exact(dparts(before.liabilities), dparts(before.equity)) ==> (after.is_balanced
        <==> before.assets@ == before.liabilities@ + before.equity@)
    &&& after == (BalanceSheet {
        total_liabilities_equity: after.total_liabilities_equity,
        is_balanced: after.is_balanced,
        ..before
    })
}

impl BalanceSheet {
    /// An empty sheet, which is balanced.
    pub fn new(period_id: Option<Id>, as_of_date: Timestamp) -> (s: BalanceSheet)
        ensures
            s.period_id == period_id,
            s.as_of_date == as_of_date,
            dparts(s.assets) == (0i128, 0u32),
            dparts(s.current_assets) == (0i128, 0u32),
            dparts(s.non_current_assets) == (0i128, 0u32),
            dparts(s.liabilities) == (0i128, 0u32),
            dparts(s.current_liabilities) == (0i128, 0u32),
            dparts(s.non_current_liabilities) == (0i128, 0u32),
            dparts(s.equity) == (0i128, 0u32),
            dparts(s.total_liabilities_equity) == (0i128, 0u32),
            s.is_balanced,
    {
        BalanceSheet {
            period_id,
            as_of_date,
            assets: Decimal::zero(),
            current_assets: Decimal::zero(),
            non_current_assets: Decimal::zero(),
            liabilities: Decimal::zero(),
            current_liabilities: Decimal::zero(),
            non_current_liabilities: Decimal::zero(),
            equity: Decimal::zero(),
            total_liabilities_equity: Decimal::zero(),
            is_balanced: true,
        }
    }

    /// Compute the total of liabilities and equity where it can be computed;
    /// answers whether it could, and leaves the sheet unchanged where not.
    pub fn try_calculate(&mut self) -> (ok: bool)
        ensures
            ok == sheet_computable(*old(self)),
            ok ==> sheet_calculated(*old(self), *final(self)),
            !ok ==> *final(self) == *old(self),
    {
        match checked_sum(&self.liabilities, &self.equity) {
            Some(total) => {
                self.total_liabilities_equity = total;
                self.is_balanced = compare(&self.assets, &self.total_liabilities_equity) == 0;
                true
            },
            None => false,
        }
    }

    /// The total of liabilities and equity, and whether the assets equal it.
    pub fn calculate(&mut self)
        requires
            sheet_computable(*old(self)),
        ensures
            sheet_calculated(*old(self), *final(self)),
    {
        let ok = self.try_calculate();
        assert(ok);
    }
}

/// The chart is the standard chart of a restaurant.
pub open spec fn is_standard_chart(chart: Seq<Account>) -> bool {
    &&& chart.len() == standard_accounts().len()
    &&& forall|i: int| 0 <= i < chart.len() ==> is_standard(chart[i], #[trigger] standard_accounts()[i])
}

/// The names of the standard accounts that payments and tips are posted
/// to differ from the names of the accounts before them.
proof fn lemma_standard_names()
    ensures
        forall|j: int| 0 <= j < 1 ==> #[trigger] standard_accounts()[j].name != standard_accounts()[1].name,
        forall|j: int| 0 <= j < 7 ==> #[trigger] standard_accounts()[j].name != standard_accounts()[7].name,
        forall|j: int| 0 <= j < 8 ==> #[trigger] standard_accounts()[j].name != standard_accounts()[8].name,
        forall|j: int| 0 <= j < 14 ==> #[trigger] standard_accounts()[j].name != standard_accounts()[14].name,
{
    reveal_strlit("Cash");
    reveal_strlit("Card Receivable");
    reveal_strlit("Mobile Money Receivable");
    reveal_strlit("Inventory");
    reveal_strlit("Accounts Receivable");
    reveal_strlit("Prepaid Expenses");
    reveal_strlit("Accounts Payable");
    reveal_strlit("Tax Payable");
    reveal_strlit("Tips Payable");
    reveal_strlit("Accrued Expenses");
    reveal_strlit("Unearned Revenue");
    reveal_strlit("Owner's Equity");
    reveal_strlit("Retained Earnings");
    reveal_strlit("Current Period Earnings");
    reveal_strlit("Food Revenue");
    reveal_strlit("Beverage Revenue");
    reveal_strlit("Other Revenue");
    reveal_strlit("Service Charges");
    reveal_strlit("Food Cost");
    reveal_strlit("Beverage Cost");
    reveal_strlit("Supply Cost");
    reveal_strlit("Labor Cost");
    reveal_strlit("Rent Expense");
    reveal_strlit("Utilities Expense");
    reveal_strlit("Marketing Expense");
    reveal_strlit("Maintenance Expense");
    reveal_strlit("License Expense");
    reveal_strlit("Other Operating Expense");
    assert("Cash"@.len() == 4 && "Cash"@[0] == 'C' && "Cash"@[3] == 'h');
    assert("Card Receivable"@.len() == 15 && "Card Receivable"@[0] == 'C' && "Card Receivable"@[3] == 'd');
    assert("Mobile Money Receivable"@.len() == 23 && "Mobile Money Receivable"@[0] == 'M' && "Mobile Money Receivable"@[3] == 'i');
    assert("Inventory"@.len() == 9 && "Inventory"@[0] == 'I' && "Inventory"@[3] == 'e');
    assert("Accounts Receivable"@.len() == 19 && "Accounts Receivable"@[0] == 'A' && "Accounts Receivable"@[3] == 'o');
    assert("Prepaid Expenses"@.len() == 16 && "Prepaid Expenses"@[0] == 'P' && "Prepaid Expenses"@[3] == 'p');
    assert("Accounts Payable"@.len() == 16 && "Accounts Payable"@[0] == 'A' && "Accounts Payable"@[3] == 'o');
    assert("Tax Payable"@.len() == 11 && "Tax Payable"@[0] == 'T' && "Tax Payable"@[3] == ' ');
    assert("Tips Payable"@.len() == 12 && "Tips Payable"@[0] == 'T' && "Tips Payable"@[3] == 's');
    assert("Accrued Expenses"@.len() == 16 && "Accrued Expenses"@[0] == 'A' && "Accrued Expenses"@[3] == 'r');
    assert("Unearned Revenue"@.len() == 16 && "Unearned Revenue"@[0] == 'U' && "Unearned Revenue"@[3] == 'a');
    assert("Owner's Equity"@.len() == 14 && "Owner's Equity"@[0] == 'O' && "Owner's Equity"@[3] == 'e');
    assert("Retained Earnings"@.len() == 17 && "Retained Earnings"@[0] == 'R' && "Retained Earnings"@[3] == 'a');
    assert("Current Period Earnings"@.len() == 23 && "Current Period Earnings"@[0] == 'C' && "Current Period Earnings"@[3] == 'r');
    assert("Food Revenue"@.len() == 12 && "Food Revenue"@[0] == 'F' && "Food Revenue"@[3] == 'd');
    assert("Beverage Revenue"@.len() == 16 && "Beverage Revenue"@[0] == 'B' && "Beverage Revenue"@[3] == 'e');
    assert("Other Revenue"@.len() == 13 && "Other Revenue"@[0] == 'O' && "Other Revenue"@[3] == 'e');
    assert("Service Charges"@.len() == 15 && "Service Charges"@[0] == 'S' && "Service Charges"@[3] == 'v');
    assert("Food Cost"@.len() == 9 && "Food Cost"@[0] == 'F' && "Food Cost"@[3] == 'd');
    assert("Beverage Cost"@.len() == 13 && "Beverage Cost"@[0] == 'B' && "Beverage Cost"@[3] == 'e');
    assert("Supply Cost"@.len() == 11 && "Supply Cost"@[0] == 'S' && "Supply Cost"@[3] == 'p');
    assert("Labor Cost"@.len() == 10 && "Labor Cost"@[0] == 'L' && "Labor Cost"@[3] == 'o');
    assert("Rent Expense"@.len() == 12 && "Rent Expense"@[0] == 'R' && "Rent Expense"@[3] == 't');
    assert("Utilities Expense"@.len() == 17 && "Utilities Expense"@[0] == 'U' && "Utilities Expense"@[3] == 'l');
    assert("Marketing Expense"@.len() == 17 && "Marketing Expense"@[0] == 'M' && "Marketing Expense"@[3] == 'k');
    assert("Maintenance Expense"@.len() == 19 && "Maintenance Expense"@[0] == 'M' && "Maintenance Expense"@[3] == 'n');
    assert("License Expense"@.len() == 15 && "License Expense"@[0] == 'L' && "License Expense"@[3] == 'e');
    assert("Other Operating Expense"@.len() == 23 && "Other Operating Expense"@[0] == 'O' && "Other Operating Expense"@[3] == 'e');
    assert(standard_accounts()[0].name != standard_accounts()[1].name);
    assert(standard_accounts()[0].name != standard_accounts()[7].name);
    assert(standard_accounts()[1].name != standard_accounts()[7].name);
    assert(standard_accounts()[2].name != standard_accounts()[7].name);
    assert(standard_accounts()[3].name != standard_accounts()[7].name);
    assert(standard_accounts()[4].name != standard_accounts()[7].name);
    assert(standard_accounts()[5].name != standard_accounts()[7].name);
    assert(standard_accounts()[6].name != standard_accounts()[7].name);
    assert(standard_accounts()[0].name != standard_accounts()[8].name);
    assert(standard_accounts()[1].name != standard_accounts()[8].name);
    assert(standard_accounts()[2].name != standard_accounts()[8].name);
    assert(standard_accounts()[3].name != standard_accounts()[8].name);
    assert(standard_accounts()[4].name != standard_accounts()[8].name);
    assert(standard_accounts()[5].name != standard_accounts()[8].name);
    assert(standard_accounts()[6].name != standard_accounts()[8].name);
    assert(standard_accounts()[7].name != standard_accounts()[8].name);
    assert(standard_accounts()[0].name != standard_accounts()[14].name);
    assert(standard_accounts()[1].name != standard_accounts()[14].name);
    assert(standard_accounts()[2].name != standard_accounts()[14].name);
    assert(standard_accounts()[3].name != standard_accounts()[14].name);
    assert(standard_accounts()[4].name != standard_accounts()[14].name);
    assert(standard_accounts()[5].name != standard_accounts()[14].name);
    assert(standard_accounts()[6].name != standard_accounts()[14].name);
    assert(standard_accounts()[7].name != standard_accounts()[14].name);
    assert(standard_accounts()[8].name != standard_accounts()[14].name);
    assert(standard_accounts()[9].name != standard_accounts()[14].name);
    assert(standard_accounts()[10].name != standard_accounts()[14].name);
    assert(standard_accounts()[11].name != standard_accounts()[14].name);
    assert(standard_accounts()[12].name != standard_accounts()[14].name);
    assert(standard_accounts()[13].name != standard_accounts()[14].name);
}

/// In the standard chart, the first account named like the `k`th standard
/// account is the `k`th account.
proof fn lemma_standard_lookup(chart: Seq<Account>, k: int, a: Account)
    requires
        is_standard_chart(chart),
        0 <= k < chart.len(),
        forall|j: int| 0 <= j < k ==> #[trigger] standard_accounts()[j].name != standard_accounts()[k].name,
        first_named(chart, standard_accounts()[k].name, a),
    ensures
        a == chart[k],
{
    let i = choose|i: int|
        0 <= i < chart.len() && chart[i] == a && a.name@ == standard_accounts()[k].name && forall|j: int|
            0 <= j < i ==> #[trigger] chart[j].name@ != standard_accounts()[k].name;
    assert(is_standard(chart[k], standard_accounts()[k]));
    assert(is_standard(chart[i], standard_accounts()[i]));
    if i < k {
        assert(standard_accounts()[i].name != standard_accounts()[k].name);
    }
}

/// The index in the standard chart of the account a payment by this method
/// is debited to: cash to "Cash", everything else to "Card Receivable".
pub open spec fn asset_account_index(method: PaymentMethod) -> int {
    match method {
        PaymentMethod::Cash => 0,
        _ => 1,
    }
}

/// Index of "Tax Payable" in the standard chart.
pub open spec fn tax_payable_index() -> int {
    7
}

/// Index of "Tips Payable" in the standard chart.
pub open spec fn tips_payable_index() -> int {
    8
}

/// Index of "Food Revenue" in the standard chart.
pub open spec fn food_revenue_index() -> int {
    14
}

/// The postings of a payment: the payment debited, the payment less tax
/// credited to revenue and, when there is tax, the tax credited.
pub open spec fn payment_postings(payment: Money, tax: Money) -> Seq<Posting> {
    let net = difference_of(parts_of(payment), parts_of(tax)).unwrap();
    let base = seq![
        (DebitCredit::Debit, parts_of(payment), payment.cur()),
        (DebitCredit::Credit, net, payment.cur()),
    ];
    if tax.value() == 0 {
        base
    } else {
        base.push((DebitCredit::Credit, parts_of(tax), tax.cur()))
    }
}

/// A decimal's parts stand for a non-negative number only where the mantissa
/// is not negative.
proof fn lemma_nonnegative_mantissa(p: (i128, u32))
    requires
        p.1 <= 28,
        value_of(p) >= 0,
    ensures
        p.0 >= 0,
{
    lemma_pow10_positive((28 - p.1) as nat);
    if p.0 < 0 {
        assert(p.0 * pow10((28 - p.1) as nat) < 0) by (nonlinear_arith)
            requires
                p.0 < 0,
                pow10((28 - p.1) as nat) > 0,
        ;
    }
}

/// Where the payment less the tax needs no rounding, the postings of a
/// payment in dollars can be totalled exactly and balance.
proof fn lemma_payment_postings_balance(payment: Money, tax: Money, net: (i128, u32))
    requires
        payment.cur() == currencies::USD@,
        tax.cur() == currencies::USD@,
        payment.amt().sc() <= 28,
        tax.amt().sc() <= 28,
        payment.value() >= 0,
        tax.value() >= 0,
        difference_is_exact(payment.amt(), tax.amt()),
        difference_of(parts_of(payment), parts_of(tax)) == Some(net),
        value_of(net) == payment.value() - tax.value(),
        value_of(net) >= 0,
        net.1 <= max_scale(payment.amt().sc(), tax.amt().sc()),
    ensures
        side_total_is_exact(payment_postings(payment, tax), DebitCredit::Debit),
        side_total_is_exact(payment_postings(payment, tax), DebitCredit::Credit),
        all_in_dollars(payment_postings(payment, tax), DebitCredit::Debit),
        all_in_dollars(payment_postings(payment, tax), DebitCredit::Credit),
        side_sum(payment_postings(payment, tax), DebitCredit::Debit) == side_sum(
            payment_postings(payment, tax),
            DebitCredit::Credit,
        ),
{
    let ps = payment_postings(payment, tax);
    let p = parts_of(payment);
    let t = parts_of(tax);
    lemma_nonnegative_mantissa(net);
    lemma_nonnegative_mantissa(t);
    lemma_sum_back_is_exact(p, t, net);
    let first: Posting = (DebitCredit::Debit, p, payment.cur());
    let second: Posting = (DebitCredit::Credit, net, payment.cur());
    let one = seq![first];
    let base = seq![first, second];
    let none = Seq::<Posting>::empty();
    assert(one.drop_last() =~= none);
    assert(base.drop_last() =~= one);
    assert(side_total(none, DebitCredit::Credit) == Some((0i128, 0u32)));
    assert(side_sum(none, DebitCredit::Credit) == 0);
    assert(side_sum(none, DebitCredit::Debit) == 0);
    assert(side_total(one, DebitCredit::Credit) == Some((0i128, 0u32)));
    assert(side_total(base, DebitCredit::Credit) == Some(net));
    assert(side_sum(one, DebitCredit::Debit) == value_of(p));
    assert(side_sum(one, DebitCredit::Credit) == 0);
    assert(side_sum(base, DebitCredit::Debit) == value_of(p));
    assert(side_sum(base, DebitCredit::Credit) == value_of(net));
    assert(side_total(none, DebitCredit::Debit) == Some((0i128, 0u32)));
    assert(side_total(one, DebitCredit::Debit) == Some(p));
    assert(side_total(base, DebitCredit::Debit) == Some(p));
    assert(side_total_is_exact(none, DebitCredit::Debit) && side_total_is_exact(none, DebitCredit::Credit));
    assert(side_total_is_exact(one, DebitCredit::Debit) && side_total_is_exact(one, DebitCredit::Credit));
    assert(side_total_is_exact(base, DebitCredit::Debit) && side_total_is_exact(base, DebitCredit::Credit));
    if tax.value() == 0 {
        assert(ps =~= base);
    } else {
        assert(ps.drop_last() =~= base);
    }
}

/// A payment can be recorded without the computation failing: one currency,
/// tax not above the payment, and the arithmetic of the entries succeeds.
pub open spec fn payment_recordable(payment: Money, tax: Money) -> bool {
    &&& payment.cur() == tax.cur()
    &&& tax.value() <= payment.value()
    &&& difference_of(parts_of(payment), parts_of(tax)) is Some
    &&& balance_check(payment_postings(payment, tax)) is Some
}

/// The entry posts the amount on the side to the account within the transaction.
pub open spec fn entry_posts(
    e: JournalEntry,
    transaction_id: Id,
    account: Account,
    side: DebitCredit,
    amount: (i128, u32),
    currency: Seq<char>,
    description: Seq<char>,
) -> bool {
    &&& e.transaction_id == transaction_id
    &&& e.account_id == account.id
    &&& e.debit_credit == side
    &&& parts_of(e.amount) == amount
    &&& e.amount.cur() == currency
    &&& e.description matches Some(d) && d@ == description
}

/// The entries are those `record_payment` makes.
pub open spec fn payment_entries(
    es: Seq<JournalEntry>,
    chart: Seq<Account>,
    transaction_id: Id,
    method: PaymentMethod,
    payment: Money,
    tax: Money,
) -> bool {
    &&& es.len() == (if tax.value() == 0 { 2int } else { 3int })
    &&& entry_posts(
        es[0],
        transaction_id,
        chart[asset_account_index(method)],
        DebitCredit::Debit,
        parts_of(payment),
        payment.cur(),
        "Payment via "@ + method.name(),
    )
    &&& entry_posts(
        es[1],
        transaction_id,
        chart[food_revenue_index()],
        DebitCredit::Credit,
        difference_of(parts_of(payment), parts_of(tax)).unwrap(),
        payment.cur(),
        "Food and beverage sales"@,
    )
    &&& tax.value() != 0 ==> entry_posts(
        es[2],
        transaction_id,
        chart[tax_payable_index()],
        DebitCredit::Credit,
        parts_of(tax),
        tax.cur(),
        "Sales tax collected"@,
    )
}

/// The entries are those `record_tip` makes.
pub open spec fn tip_entries(
    es: Seq<JournalEntry>,
    chart: Seq<Account>,
    transaction_id: Id,
    staff_id: Id,
    tip: Money,
) -> bool {
    &&& es.len() == 2
    &&& entry_posts(es[0], transaction_id, chart[0], DebitCredit::Debit, parts_of(tip), tip.cur(), "Tip distribution"@)
    &&& entry_posts(
        es[1],
        transaction_id,
        chart[tips_payable_index()],
        DebitCredit::Credit,
        parts_of(tip),
        tip.cur(),
        "Tip for staff "@ + uuid_text(staff_id),
    )
}

/// The entries of the journal that belong to the transaction, in order.
pub open spec fn entries_of(entries: Seq<JournalEntry>, transaction_id: Id) -> Seq<JournalEntry>
    decreases entries.len(),
{
    if entries.len() == 0 {
        Seq::empty()
    } else if entries.last().transaction_id == transaction_id {
        entries_of(entries.drop_last(), transaction_id).push(entries.last())
    } else {
        entries_of(entries.drop_last(), transaction_id)
    }
}

/// The balance of an account on its normal side over the entries, starting
/// from zero dollars: an entry on the normal side is added; an entry on the
/// other side is taken away when the balance covers it and is passed over
/// otherwise. `None` where an addition fails or an amount on the normal side
/// is not in dollars.
pub open spec fn account_balance(entries: Seq<JournalEntry>, account: Id, normal: DebitCredit) -> Option<(i128, u32)>
    decreases entries.len(),
{
    if entries.len() == 0 {
        Some((0i128, 0u32))
    } else {
        match account_balance(entries.drop_last(), account, normal) {
            None => None,
            Some(acc) => {
                let e = entries.last();
                if e.account_id != account {
                    Some(acc)
                } else if e.debit_credit == normal {
                    if e.amount.cur() != currencies::USD@ {
                        None
                    } else {
                        sum_of(acc, parts_of(e.amount))
                    }
                } else if e.amount.cur() != currencies::USD@ || value_of(acc) < e.amount.value() {
                    Some(acc)
                } else {
                    match difference_of(acc, parts_of(e.amount)) {
                        Some(d) => Some(d),
                        None => Some(acc),
                    }
                }
            },
        }
    }
}

/// The books: the chart of accounts, the transactions and their journal
/// entries, in which every transaction's entries balance.
pub struct AccountingSystem {
    chart_of_accounts: ChartOfAccounts,
    transactions: Vec<Transaction>,
    journal_entries: Vec<JournalEntry>,
    groups: Ghost<Seq<Seq<JournalEntry>>>,
}

impl AccountingSystem {
    /// The chart of accounts.
    pub closed spec fn chart(self) -> Seq<Account> {
        self.chart_of_accounts@
    }

    /// The transactions, in the order they were recorded.
    pub closed spec fn transactions(self) -> Seq<Transaction> {
        self.transactions@
    }

    /// The journal entries, in the order they were recorded.
    pub closed spec fn entries(self) -> Seq<JournalEntry> {
        self.journal_entries@
    }

    /// The journal entries of each transaction, in order.
    pub closed spec fn groups(self) -> Seq<Seq<JournalEntry>> {
        self.groups@
    }

    /// The books are well formed: the chart is the standard one, the journal
    /// is the entries of the transactions one after the other, each group of
    /// entries belongs to its transaction and balances, and balances in exact
    /// arithmetic where its totals need no rounding.
    pub open spec fn wf(self) -> bool {
        &&& is_standard_chart(self.chart())
        &&& self.entries() == self.groups().flatten()
        &&& self.groups().len() == self.transactions().len()
        &&& forall|i: int, j: int|
            0 <= i < self.groups().len() && 0 <= j < self.groups()[i].len() ==> #[trigger] self.groups()[i][j].transaction_id
                == self.transactions()[i].id
        &&& forall|i: int|
            0 <= i < self.groups().len() ==> balance_check(postings(#[trigger] self.groups()[i]))
                == Some(true)
        &&& forall|i: int|
            0 <= i < self.groups().len() && side_total_is_exact(
                postings(#[trigger] self.groups()[i]),
                DebitCredit::Debit,
            ) && side_total_is_exact(postings(self.groups()[i]), DebitCredit::Credit) ==> side_sum(
                postings(self.groups()[i]),
                DebitCredit::Debit,
            ) == side_sum(postings(self.groups()[i]), DebitCredit::Credit)
    }

    /// Books with the standard restaurant chart and no transactions.
    pub fn new() -> (s: AccountingSystem)
        ensures
            s.wf(),
            is_standard_chart(s.chart()),
            s.transactions() == Seq::<Transaction>::empty(),
            s.entries() == Seq::<JournalEntry>::empty(),
    {
        let s = AccountingSystem {
            chart_of_accounts: ChartOfAccounts::initialize_restaurant_accounts(),
            transactions: Vec::new(),
            journal_entries: Vec::new(),
            groups: Ghost(Seq::empty()),
        };
        proof {
            assert(s.groups().flatten() =~= Seq::<JournalEntry>::empty());
        }
        s
    }

    /// All transactions.
    pub fn get_transactions(&self) -> (r: &[Transaction])
        ensures
            r@ == self.transactions(),
    {
        self.transactions.as_slice()
    }

    /// The journal entries of a transaction.
    pub fn get_journal_entries(&self, transaction_id: &Id) -> (r: Vec<&JournalEntry>)
        ensures
            r@.len() == entries_of(self.entries(), *transaction_id).len(),
            forall|i: int| 0 <= i < r@.len() ==> *r@[i] == entries_of(self.entries(), *transaction_id)[i],
    {
        let mut r: Vec<&JournalEntry> = Vec::new();
        let mut i: usize = 0;
        proof {
            assert(self.journal_entries@.take(0) =~= Seq::<JournalEntry>::empty());
        }
        while i < self.journal_entries.len()
            invariant
                i <= self.journal_entries@.len(),
                r@.len() == entries_of(self.journal_entries@.take(i as int), *transaction_id).len(),
                forall|k: int| 0 <= k < r@.len() ==> *r@[k] == entries_of(self.journal_entries@.take(i as int), *transaction_id)[k],
            decreases self.journal_entries.len() - i,
        {
            proof {
                assert(self.journal_entries@.take(i + 1).drop_last() =~= self.journal_entries@.take(i as int));
            }
            if self.journal_entries[i].transaction_id == *transaction_id {
                r.push(&self.journal_entries[i]);
            }
            i = i + 1;
        }
        proof {
            assert(self.journal_entries@.take(self.journal_entries@.len() as int) =~= self.journal_entries@);
        }
        r
    }
}

/// What recording a transaction did to the books: where it was refused,
/// nothing changed; where it was accepted, the transaction and its entries
/// were appended.
pub open spec fn recorded(
    before: AccountingSystem,
    after: AccountingSystem,
    r: AccountingResult<Transaction>,
    entries: Seq<JournalEntry>,
) -> bool {
    &&& after.chart() == before.chart()
    &&& r is Err ==> after.transactions() == before.transactions() && after.entries()
        == before.entries()
    &&& r matches Ok(t) ==> after.transactions() == before.transactions().push(t) && after.entries()
        == before.entries() + entries
}

impl AccountingSystem {
    /// Look up the `k`th standard account by its name.
    fn standard_account(&self, name: &str, k: Ghost<int>) -> (id: Id)
        requires
            self.wf(),
            0 <= k@ < standard_accounts().len(),
            name@ == standard_accounts()[k@].name,
            forall|j: int| 0 <= j < k@ ==> #[trigger] standard_accounts()[j].name != standard_accounts()[k@].name,
        ensures
            id == self.chart()[k@].id,
    {
        proof {
            assert(is_standard(self.chart()[k@], standard_accounts()[k@]));
            assert(self.chart_of_accounts@[k@].name@ == name@);
        }
        match self.chart_of_accounts.get_account_by_name(name) {
            Some(a) => {
                proof {
                    lemma_standard_lookup(self.chart(), k@, *a);
                }
                a.id
            },
            None => {
                proof {
                    assert(false);
                }
                0
            },
        }
    }

    /// Append a balanced transaction and its entries to the books.
    fn append(&mut self, transaction: Transaction, entries: Vec<JournalEntry>)
        requires
            old(self).wf(),
            forall|j: int| 0 <= j < entries@.len() ==> #[trigger] entries@[j].transaction_id == transaction.id,
            balance_check(postings(entries@)) == Some(true),
            side_total_is_exact(postings(entries@), DebitCredit::Debit) && side_total_is_exact(
                postings(entries@),
                DebitCredit::Credit,
            ) ==> side_sum(postings(entries@), DebitCredit::Debit) == side_sum(
                postings(entries@),
                DebitCredit::Credit,
            ),
        ensures
            final(self).wf(),
            final(self).chart() == old(self).chart(),
            final(self).transactions() == old(self).transactions().push(transaction),
            final(self).entries() == old(self).entries() + entries@,
    {
        let ghost g = entries@;
        let mut entries = entries;
        self.transactions.push(transaction);
        self.journal_entries.append(&mut entries);
        self.groups = Ghost(self.groups@.push(g));
        proof {
            old(self).groups().lemma_flatten_push(g);
            assert(self.groups()[self.groups().len() - 1] == g);
            assert forall|i: int, j: int|
                0 <= i < self.groups().len() && 0 <= j < self.groups()[i].len() implies #[trigger] self.groups()[i][j].transaction_id
                == self.transactions()[i].id by {
                if i < old(self).groups().len() {
                    assert(self.groups()[i] == old(self).groups()[i]);
                    assert(self.transactions()[i] == old(self).transactions()[i]);
                }
            }
            assert forall|i: int| 0 <= i < self.groups().len() implies balance_check(
                postings(#[trigger] self.groups()[i]),
            ) == Some(true) by {
                if i < old(self).groups().len() {
                    assert(self.groups()[i] == old(self).groups()[i]);
                }
            }
            assert forall|i: int|
                0 <= i < self.groups().len() && side_total_is_exact(
                    postings(#[trigger] self.groups()[i]),
                    DebitCredit::Debit,
                ) && side_total_is_exact(postings(self.groups()[i]), DebitCredit::Credit) implies side_sum(
                postings(self.groups()[i]),
                DebitCredit::Debit,
            ) == side_sum(postings(self.groups()[i]), DebitCredit::Credit) by {
                if i < old(self).groups().len() {
                    assert(self.groups()[i] == old(self).groups()[i]);
                }
            }
        }
    }

    /// Record a payment, where the computation does not fail: the payment is
    /// debited to cash (or to card receivables for any other method), the
    /// payment less tax credited to food revenue and the tax, when there is
    /// any, credited to tax payable. Refused when the entries do not balance.
    pub fn try_record_payment(
        &mut self,
        payment_amount: Money,
        payment_method: PaymentMethod,
        tax_amount: Money,
        order_id: Id,
    ) -> (r: Option<AccountingResult<Transaction>>)
        requires
            old(self).wf(),
        ensures
            final(self).wf(),
            r is Some <==> payment_recordable(payment_amount, tax_amount),
            r is None ==> final(self).chart() == old(self).chart() && final(self).transactions()
                == old(self).transactions() && final(self).entries() == old(self).entries(),
            r matches Some(res) ==> (res is Ok <==> balance_check(
                payment_postings(payment_amount, tax_amount),
            ) == Some(true)),
            r matches Some(res) ==> (res is Err ==> res matches Err(
                AccountingError::UnbalancedTransaction { .. },
            )),
            r matches Some(res) ==> exists|es: Seq<JournalEntry>|
                recorded(*old(self), *final(self), res, es) && (res matches Ok(t) ==> payment_entries(
                    es,
                    old(self).chart(),
                    t.id,
                    payment_method,
                    payment_amount,
                    tax_amount,
                ) && t.reference_id == Some(order_id) && t.description@ == "Payment for order "@
                    + uuid_text(order_id) + " via "@ + payment_method.name()),
            payment_amount.cur() == currencies::USD@ && tax_amount.cur() == currencies::USD@
                && tax_amount.value() <= payment_amount.value() && difference_is_exact(
                payment_amount.amt(),
                tax_amount.amt(),
            ) ==> r matches Some(Ok(_)),
    {
        let mut description = String::from_str("Payment for order ");
        let order_text = id_text(order_id);
        description.append(order_text.as_str());
        description.append(" via ");
        let method_text = payment_method.text();
        description.append(method_text.as_str());
        let transaction = Transaction::new(description, Some(order_id));
        proof {
            lemma_standard_names();
            reveal_strlit("Cash");
            reveal_strlit("Card Receivable");
            reveal_strlit("Food Revenue");
            reveal_strlit("Tax Payable");
        }
        let cash_account_id = match payment_method {
            PaymentMethod::Cash => self.standard_account("Cash", Ghost(0int)),
            _ => self.standard_account("Card Receivable", Ghost(1int)),
        };
        let mut entries: Vec<JournalEntry> = Vec::new();
        let mut via = String::from_str("Payment via ");
        via.append(method_text.as_str());
        entries.push(
            JournalEntry::new(
                transaction.id,
                cash_account_id,
                DebitCredit::Debit,
                payment_amount.clone(),
                Some(via),
            ),
        );
        let revenue_account_id = self.standard_account("Food Revenue", Ghost(14int));
        let payment_decimal = payment_amount.amount();
        let tax_decimal = tax_amount.amount();
        proof {
            use_type_invariant(&payment_amount);
            use_type_invariant(&tax_amount);
            use_type_invariant(&payment_decimal);
            use_type_invariant(&tax_decimal);
        }
        let net_amount = match payment_amount.subtract(&tax_amount) {
            Ok(net) => net,
            Err(_) => {
                return None;
            },
        };
        let ghost net_parts = parts_of(net_amount);
        proof {
            use_type_invariant(&net_amount);
        }
        entries.push(
            JournalEntry::new(
                transaction.id,
                revenue_account_id,
                DebitCredit::Credit,
                net_amount,
                Some(String::from_str("Food and beverage sales")),
            ),
        );
        if !tax_amount.is_zero() {
            let tax_account_id = self.standard_account("Tax Payable", Ghost(7int));
            entries.push(
                JournalEntry::new(
                    transaction.id,
                    tax_account_id,
                    DebitCredit::Credit,
                    tax_amount.clone(),
                    Some(String::from_str("Sales tax collected")),
                ),
            );
        }
        proof {
            assert(postings(entries@) =~= payment_postings(payment_amount, tax_amount));
            if payment_amount.cur() == currencies::USD@ && tax_amount.cur() == currencies::USD@
                && tax_amount.value() <= payment_amount.value() && difference_is_exact(
                payment_amount.amt(),
                tax_amount.amt(),
            ) {
                lemma_payment_postings_balance(payment_amount, tax_amount, net_parts);
            }
        }
        let ghost es = entries@;
        let checked = Transaction::checked_verify_balance(entries.as_slice());
        match checked {
            None => None,
            Some(Err(e)) => {
                proof {
                    assert(recorded(*old(self), *self, Err(e), es));
                }
                Some(Err(e))
            },
            Some(Ok(())) => {
                let t = transaction.clone();
                self.append(transaction, entries);
                proof {
                    assert(recorded(*old(self), *self, Ok(t), es));
                }
                Some(Ok(t))
            },
        }
    }
}


proof fn lemma_account_balance_prefix(entries: Seq<JournalEntry>, account: Id, normal: DebitCredit, i: int)
    requires
        0 <= i <= entries.len(),
        account_balance(entries.take(i), account, normal) is None,
    ensures
        account_balance(entries, account, normal) is None,
    decreases entries.len() - i,
{
    if i < entries.len() {
        assert(entries.take(i + 1).drop_last() =~= entries.take(i));
        lemma_account_balance_prefix(entries, account, normal, i + 1);
    } else {
        assert(entries.take(i) =~= entries);
    }
}

impl AccountingSystem {
    /// Record a payment: the payment is debited to cash (or to card
    /// receivables for any other method), the payment less tax credited to
    /// food revenue and the tax, when there is any, credited to tax payable.
    /// Refused when the entries do not balance.
    pub fn record_payment(
        &mut self,
        payment_amount: Money,
        payment_method: PaymentMethod,
        tax_amount: Money,
        order_id: Id,
    ) -> (r: AccountingResult<Transaction>)
        requires
            old(self).wf(),
            payment_recordable(payment_amount, tax_amount),
        ensures
            final(self).wf(),
            r is Ok <==> balance_check(payment_postings(payment_amount, tax_amount)) == Some(true),
            r is Err ==> r matches Err(AccountingError::UnbalancedTransaction { .. }),
            exists|es: Seq<JournalEntry>|
                recorded(*old(self), *final(self), r, es) && (r matches Ok(t) ==> payment_entries(
                    es,
                    old(self).chart(),
                    t.id,
                    payment_method,
                    payment_amount,
                    tax_amount,
                ) && t.reference_id == Some(order_id) && t.description@ == "Payment for order "@
                    + uuid_text(order_id) + " via "@ + payment_method.name()),
            payment_amount.cur() == currencies::USD@ && difference_is_exact(
                payment_amount.amt(),
                tax_amount.amt(),
            ) ==> r is Ok,
    {
        match self.try_record_payment(payment_amount, payment_method, tax_amount, order_id) {
            Some(r) => r,
            None => {
                proof {
                    assert(false);
                }
                Err(AccountingError::AccountNotFound(NIL_ID))
            },
        }
    }

    /// Record a tip paid out to a member of staff: cash is debited and tips
    /// payable credited with the tip. A tip must be in dollars, the currency
    /// the balance of a transaction is checked in.
    pub fn record_tip(&mut self, tip_amount: Money, staff_id: Id, payment_id: Id) -> (r: AccountingResult<Transaction>)
        requires
            old(self).wf(),
            tip_amount.cur() == currencies::USD@,
        ensures
            final(self).wf(),
            r is Ok,
            exists|es: Seq<JournalEntry>|
                recorded(*old(self), *final(self), r, es) && (r matches Ok(t) ==> tip_entries(
                    es,
                    old(self).chart(),
                    t.id,
                    staff_id,
                    tip_amount,
                ) && t.reference_id == Some(payment_id) && t.description@ == "Tip for staff "@
                    + uuid_text(staff_id)),
    {
        let staff_text = id_text(staff_id);
        let mut description = String::from_str("Tip for staff ");
        description.append(staff_text.as_str());
        let transaction = Transaction::new(description, Some(payment_id));
        proof {
            lemma_standard_names();
            reveal_strlit("Cash");
            reveal_strlit("Tips Payable");
        }
        let cash_account_id = self.standard_account("Cash", Ghost(0int));
        let tips_account_id = self.standard_account("Tips Payable", Ghost(8int));
        let mut entries: Vec<JournalEntry> = Vec::new();
        entries.push(
            JournalEntry::new(
                transaction.id,
                cash_account_id,
                DebitCredit::Debit,
                tip_amount.clone(),
                Some(String::from_str("Tip distribution")),
            ),
        );
        let mut staff_description = String::from_str("Tip for staff ");
        staff_description.append(staff_text.as_str());
        entries.push(
            JournalEntry::new(
                transaction.id,
                tips_account_id,
                DebitCredit::Credit,
                tip_amount,
                Some(staff_description),
            ),
        );
        let ghost es = entries@;
        let ghost ps = postings(es);
        proof {
            let none = Seq::<Posting>::empty();
            let one = seq![ps[0]];
            assert(ps.drop_last() =~= one);
            assert(one.drop_last() =~= none);
            assert(side_total(none, DebitCredit::Debit) == Some((0i128, 0u32)));
            assert(side_total(none, DebitCredit::Credit) == Some((0i128, 0u32)));
            assert(side_total(one, DebitCredit::Debit) == Some(ps[0].1));
            assert(side_total(one, DebitCredit::Credit) == Some((0i128, 0u32)));
            assert(side_total(ps, DebitCredit::Debit) == Some(ps[0].1));
            assert(side_total(ps, DebitCredit::Credit) == Some(ps[1].1));
            assert(side_total_is_exact(none, DebitCredit::Debit) && side_total_is_exact(none, DebitCredit::Credit));
            assert(side_total_is_exact(one, DebitCredit::Debit) && side_total_is_exact(one, DebitCredit::Credit));
            assert(side_sum(none, DebitCredit::Debit) == 0 && side_sum(none, DebitCredit::Credit) == 0);
            assert(side_sum(one, DebitCredit::Debit) == value_of(ps[0].1));
            assert(side_sum(one, DebitCredit::Credit) == 0);
            assert(balance_check(ps) == Some(true));
        }
        let t = transaction.clone();
        self.append(transaction, entries);
        proof {
            assert(recorded(*old(self), *self, Ok(t), es));
        }
        Ok(t)
    }

    /// The balance of an account on its normal side, or `None` where an
    /// addition fails or an amount on its normal side is not in dollars.
    fn balance_of(&self, account: &Account) -> (r: Option<Money>)
        ensures
            r is Some <==> account_balance(self.entries(), account.id, account.account_type.normal_side()) is Some,
            r matches Some(m) ==> parts_of(m) == account_balance(
                self.entries(),
                account.id,
                account.account_type.normal_side(),
            ).unwrap() && m.cur() == currencies::USD@,
    {
        let ghost entries = self.journal_entries@;
        let normal = account.account_type.normal_balance();
        let mut acc = Money::zero(currencies::usd());
        let mut i: usize = 0;
        proof {
            assert(entries.take(0) =~= Seq::<JournalEntry>::empty());
        }
        while i < self.journal_entries.len()
            invariant
                i <= entries.len(),
                entries == self.journal_entries@,
                normal == account.account_type.normal_side(),
                account_balance(entries.take(i as int), account.id, normal) == Some(parts_of(acc)),
                acc.cur() == currencies::USD@,
            decreases self.journal_entries.len() - i,
        {
            let entry = &self.journal_entries[i];
            proof {
                assert(entries.take(i + 1).drop_last() =~= entries.take(i as int));
                assert(entries.take(i + 1).last() == entries[i as int]);
            }
            if entry.account_id == account.id {
                if entry.debit_credit == normal {
                    match acc.add(&entry.amount) {
                        Ok(next) => {
                            acc = next;
                        },
                        Err(_) => {
                            proof {
                                lemma_account_balance_prefix(entries, account.id, normal, i + 1);
                            }
                            return None;
                        },
                    }
                } else {
                    match acc.subtract(&entry.amount) {
                        Ok(next) => {
                            acc = next;
                        },
                        Err(_) => {},
                    }
                }
            }
            i = i + 1;
        }
        proof {
            assert(entries.take(entries.len() as int) =~= entries);
        }
        Some(acc)
    }

    /// The balance of the account with this name, or `Some(None)` where no
    /// account has it; `None` where the balance cannot be computed.
    pub fn checked_get_account_balance(&self, account_name: &str) -> (r: Option<Option<Money>>)
        ensures
            !has_name(self.chart(), account_name@) ==> r == Some(Option::<Money>::None),
            forall|a: Account|
                first_named(self.chart(), account_name@, a) ==> {
                    &&& r is None <==> account_balance(self.entries(), a.id, a.account_type.normal_side()) is None
                    &&& r matches Some(Some(m)) ==> parts_of(m) == account_balance(
                        self.entries(),
                        a.id,
                        a.account_type.normal_side(),
                    ).unwrap() && m.cur() == currencies::USD@
                    &&& r matches Some(b) ==> b is Some
                },
    {
        match self.chart_of_accounts.get_account_by_name(account_name) {
            None => Some(None),
            Some(account) => {
                proof {
                    assert forall|a: Account| first_named(self.chart(), account_name@, a) implies a
                        == *account by {
                        lemma_first_named_unique(self.chart(), account_name@, a, *account);
                    }
                }
                match self.balance_of(account) {
                    None => None,
                    Some(m) => Some(Some(m)),
                }
            },
        }
    }

    /// The balance of the account with this name on its normal side: entries
    /// on that side are added, entries on the other side taken away where the
    /// balance covers them. `None` where no account has the name.
    pub fn get_account_balance(&self, account_name: &str) -> (r: Option<Money>)
        requires
            forall|a: Account|
                first_named(self.chart(), account_name@, a) ==> account_balance(
                    self.entries(),
                    a.id,
                    a.account_type.normal_side(),
                ) is Some,
        ensures
            r is None <==> !has_name(self.chart(), account_name@),
            forall|a: Account|
                first_named(self.chart(), account_name@, a) ==> (r matches Some(m) && parts_of(m)
                    == account_balance(self.entries(), a.id, a.account_type.normal_side()).unwrap()
                    && m.cur() == currencies::USD@),
    {
        match self.chart_of_accounts.get_account_by_name(account_name) {
            None => None,
            Some(account) => {
                proof {
                    assert forall|a: Account| first_named(self.chart(), account_name@, a) implies a
                        == *account by {
                        lemma_first_named_unique(self.chart(), account_name@, a, *account);
                    }
                }
                self.balance_of(account)
            },
        }
    }
}

proof fn lemma_side_sum_append(a: Seq<Posting>, b: Seq<Posting>, side: DebitCredit)
    ensures
        side_sum(a + b, side) == side_sum(a, side) + side_sum(b, side),
    decreases b.len(),
{
    if b.len() == 0 {
        assert(a + b =~= a);
    } else {
        assert((a + b).drop_last() =~= a + b.drop_last());
        assert((a + b).last() == b.last());
        lemma_side_sum_append(a, b.drop_last(), side);
    }
}

proof fn lemma_groups_balance(g: Seq<Seq<JournalEntry>>)
    requires
        forall|i: int|
            0 <= i < g.len() ==> side_sum(postings(#[trigger] g[i]), DebitCredit::Debit) == side_sum(
                postings(g[i]),
                DebitCredit::Credit,
            ),
    ensures
        side_sum(postings(g.flatten()), DebitCredit::Debit) == side_sum(
            postings(g.flatten()),
            DebitCredit::Credit,
        ),
    decreases g.len(),
{
    if g.len() == 0 {
        assert(postings(g.flatten()) =~= Seq::<Posting>::empty());
    } else {
        let init = g.drop_last();
        let last = g.last();
        assert(init.push(last) =~= g);
        init.lemma_flatten_push(last);
        assert forall|i: int| 0 <= i < init.len() implies side_sum(postings(#[trigger] init[i]), DebitCredit::Debit)
            == side_sum(postings(init[i]), DebitCredit::Credit) by {
            assert(init[i] == g[i]);
        }
        lemma_groups_balance(init);
        assert(postings(init.flatten() + last) =~= postings(init.flatten()) + postings(last));
        lemma_side_sum_append(postings(init.flatten()), postings(last), DebitCredit::Debit);
        lemma_side_sum_append(postings(init.flatten()), postings(last), DebitCredit::Credit);
        assert(g[g.len() - 1] == last);
    }
}

/// The books balance: over the whole journal the debits add up to the
/// credits, wherever the totals of every transaction need no rounding.
pub proof fn lemma_books_balance(s: AccountingSystem)
    requires
        s.wf(),
        forall|i: int|
            0 <= i < s.groups().len() ==> side_total_is_exact(
                postings(#[trigger] s.groups()[i]),
                DebitCredit::Debit,
            ) && side_total_is_exact(postings(s.groups()[i]), DebitCredit::Credit),
    ensures
        side_sum(postings(s.entries()), DebitCredit::Debit) == side_sum(
            postings(s.entries()),
            DebitCredit::Credit,
        ),
{
    let g = s.groups();
    assert forall|i: int| 0 <= i < g.len() implies side_sum(postings(#[trigger] g[i]), DebitCredit::Debit)
        == side_sum(postings(g[i]), DebitCredit::Credit) by {
        assert(side_total_is_exact(postings(s.groups()[i]), DebitCredit::Debit));
    }
    lemma_groups_balance(g);
}

proof fn lemma_account_balance_push(entries: Seq<JournalEntry>, e: JournalEntry, account: Id, normal: DebitCredit)
    ensures
        account_balance(entries.push(e), account, normal) == match account_balance(entries, account, normal) {
            None => None,
            Some(acc) => if e.account_id != account {
                Some(acc)
            } else if e.debit_credit == normal {
                if e.amount.cur() != currencies::USD@ {
                    None
                } else {
                    sum_of(acc, parts_of(e.amount))
                }
            } else if e.amount.cur() != currencies::USD@ || value_of(acc) < e.amount.value() {
                Some(acc)
            } else {
                match difference_of(acc, parts_of(e.amount)) {
                    Some(d) => Some(d),
                    None => Some(acc),
                }
            },
        },
{
    assert(entries.push(e).drop_last() =~= entries);
}

/// Reading back a recorded payment: on its normal side, the account the
/// payment was received into grows by the payment, food revenue by the
/// payment less the tax, and tax payable by the tax where there is any
/// (and stays as it was otherwise), provided the three accounts are
/// distinct.
pub proof fn lemma_payment_read_back(
    before: AccountingSystem,
    after: AccountingSystem,
    t: Transaction,
    es: Seq<JournalEntry>,
    method: PaymentMethod,
    payment: Money,
    tax: Money,
)
    requires
        recorded(before, after, Ok(t), es),
        payment_entries(es, before.chart(), t.id, method, payment, tax),
        payment.cur() == currencies::USD@,
        tax.cur() == currencies::USD@,
        before.chart()[asset_account_index(method)].id != before.chart()[food_revenue_index()].id,
        before.chart()[asset_account_index(method)].id != before.chart()[tax_payable_index()].id,
        before.chart()[food_revenue_index()].id != before.chart()[tax_payable_index()].id,
    ensures
        ({
            let chart = before.chart();
            let asset = chart[asset_account_index(method)].id;
            let revenue = chart[food_revenue_index()].id;
            let payable = chart[tax_payable_index()].id;
            let net = difference_of(parts_of(payment), parts_of(tax)).unwrap();
            &&& account_balance(after.entries(), asset, DebitCredit::Debit) == match account_balance(
                before.entries(),
                asset,
                DebitCredit::Debit,
            ) {
                Some(b) => sum_of(b, parts_of(payment)),
                None => None,
            }
            &&& account_balance(after.entries(), revenue, DebitCredit::Credit) == match account_balance(
                before.entries(),
                revenue,
                DebitCredit::Credit,
            ) {
                Some(b) => sum_of(b, net),
                None => None,
            }
            &&& account_balance(after.entries(), payable, DebitCredit::Credit) == if tax.value() == 0 {
                account_balance(before.entries(), payable, DebitCredit::Credit)
            } else {
                match account_balance(before.entries(), payable, DebitCredit::Credit) {
                    Some(b) => sum_of(b, parts_of(tax)),
                    None => None,
                }
            }
        }),
{
    let e0 = before.entries();
    let e1 = e0.push(es[0]);
    let e2 = e1.push(es[1]);
    let chart = before.chart();
    let asset = chart[asset_account_index(method)].id;
    let revenue = chart[food_revenue_index()].id;
    let payable = chart[tax_payable_index()].id;
    assert(es[0].account_id == asset && es[0].debit_credit == DebitCredit::Debit);
    assert(parts_of(es[0].amount) == parts_of(payment) && es[0].amount.cur() == currencies::USD@);
    assert(es[1].account_id == revenue && es[1].debit_credit == DebitCredit::Credit);
    assert(es[1].amount.cur() == currencies::USD@);
    lemma_account_balance_push(e0, es[0], asset, DebitCredit::Debit);
    lemma_account_balance_push(e1, es[1], asset, DebitCredit::Debit);
    lemma_account_balance_push(e0, es[0], revenue, DebitCredit::Credit);
    lemma_account_balance_push(e1, es[1], revenue, DebitCredit::Credit);
    lemma_account_balance_push(e0, es[0], payable, DebitCredit::Credit);
    lemma_account_balance_push(e1, es[1], payable, DebitCredit::Credit);
    if tax.value() == 0 {
        assert(after.entries() =~= e2);
    } else {
        let e3 = e2.push(es[2]);
        assert(after.entries() =~= e3);
        lemma_account_balance_push(e2, es[2], asset, DebitCredit::Debit);
        lemma_account_balance_push(e2, es[2], revenue, DebitCredit::Credit);
        lemma_account_balance_push(e2, es[2], payable, DebitCredit::Credit);
    }
}

/// The sum of the debit balances of the accounts.
pub open spec fn debit_total(bs: Seq<AccountBalance>) -> int
    decreases bs.len(),
{
    if bs.len() == 0 {
        0
    } else {
        debit_total(bs.drop_last()) + bs.last().debit_balance@
    }
}

/// The sum of the credit balances of the accounts.
pub open spec fn credit_total(bs: Seq<AccountBalance>) -> int
    decreases bs.len(),
{
    if bs.len() == 0 {
        0
    } else {
        credit_total(bs.drop_last()) + bs.last().credit_balance@
    }
}

/// Adding an account to a trial balance keeps its totals equal to the sums
/// of its accounts' debit and credit balances, wherever the additions need
/// no rounding (a new trial balance starts at zero with no accounts).
pub proof fn lemma_trial_totals_track(before: TrialBalance, after: TrialBalance, b: AccountBalance)
    requires
        balance_added(before, after, b),
        before.total_debits@ == debit_total(before.accounts@),
        before.total_credits@ == credit_total(before.accounts@),
        parts_sum_is_exact(dparts(before.total_debits), dparts(b.debit_balance)),
        parts_sum_is_exact(dparts(before.total_credits), dparts(b.credit_balance)),
    ensures
        after.total_debits@ == debit_total(after.accounts@),
        after.total_credits@ == credit_total(after.accounts@),
{
    assert(after.accounts@.drop_last() =~= before.accounts@);
}

/// The debit balances of the accounts, as decimal parts.
pub open spec fn debit_parts(bs: Seq<AccountBalance>) -> Seq<(i128, u32)> {
    bs.map_values(|b: AccountBalance| dparts(b.debit_balance))
}

/// The credit balances of the accounts, as decimal parts.
pub open spec fn credit_parts(bs: Seq<AccountBalance>) -> Seq<(i128, u32)> {
    bs.map_values(|b: AccountBalance| dparts(b.credit_balance))
}

/// Adding an account to a trial balance keeps its totals equal to the
/// running sums (as `rust_decimal` adds them, from zero) of its accounts'
/// debit and credit balances, and keeps it balanced exactly when the totals
/// are equal. A new trial balance starts with these sums: no accounts and
/// zero totals.
pub proof fn lemma_trial_running_sums(before: TrialBalance, after: TrialBalance, b: AccountBalance)
    requires
        can_add_balance(before, b),
        balance_added(before, after, b),
        fold_sum(debit_parts(before.accounts@)) == Some(dparts(before.total_debits)),
        fold_sum(credit_parts(before.accounts@)) == Some(dparts(before.total_credits)),
    ensures
        fold_sum(debit_parts(after.accounts@)) == Some(dparts(after.total_debits)),
        fold_sum(credit_parts(after.accounts@)) == Some(dparts(after.total_credits)),
        after.accounts@ == before.accounts@.push(b),
        after.is_balanced == (after.total_debits@ == after.total_credits@),
{
    assert(debit_parts(after.accounts@).drop_last() =~= debit_parts(before.accounts@));
    assert(debit_parts(after.accounts@).last() == dparts(b.debit_balance));
    assert(credit_parts(after.accounts@).last() == dparts(b.credit_balance));
    assert(credit_parts(after.accounts@).drop_last() =~= credit_parts(before.accounts@));
}

} // verus!
