//! Money: a non-negative decimal amount in a currency.
//!
//! Every operation checks the currency of its operands; arithmetic is done by
//! `rust_decimal` (see `decimal`), and an operation whose decimal result
//! cannot be represented answers `MoneyError::ArithmeticError`.
use vstd::prelude::*;
use vstd::std_specs::cmp::PartialEqSpecImpl;
use vstd::string::*;
use crate::decimal::{
    checked_sum, checked_difference, checked_product, checked_quotient, compare, parse, display,
    common_scale, decimal_parse, decimal_sum, decimal_difference, decimal_product, decimal_quotient,
    decimal_text, difference_is_exact, fits, lemma_difference_back_is_exact, lemma_fits_smaller_factor, lemma_pow10_adds, lemma_pow10_positive, pow10,
    parts_sum_is_exact, product_is_exact, sum_is_exact, unit, Decimal, MAX_SCALE,
};

pub use crate::currencies;

verus! {

/// Error type for money operations.
#[derive(Debug, Clone, PartialEq, Eq)]
pub enum MoneyError {
    InvalidAmount(String),
    CurrencyMismatch { expected: String, actual: String },
    ArithmeticError(String),
    InsufficientFunds,
}

/// Result type for money operations.
pub type MoneyResult<T> = Result<T, MoneyError>;

/// A non-negative amount of money in a currency.
#[derive(Debug)]
pub struct Money {
    amount: Decimal,
    currency: String,
}

/// The error is `InvalidAmount` with the given message.
pub open spec fn is_invalid_amount<T>(r: MoneyResult<T>, msg: Seq<char>) -> bool {
    r matches Err(MoneyError::InvalidAmount(m)) && m@ == msg
}

/// The error is `ArithmeticError`.
pub open spec fn is_arithmetic_error<T>(r: MoneyResult<T>) -> bool {
    r matches Err(MoneyError::ArithmeticError(_))
}

/// The error is `CurrencyMismatch` naming the two currencies.
pub open spec fn is_currency_mismatch<T>(r: MoneyResult<T>, expected: Seq<char>, actual: Seq<char>) -> bool {
    r matches Err(MoneyError::CurrencyMismatch { expected: e, actual: a }) && e@ == expected && a@
        == actual
}

/// The mantissa and scale of an amount of money.
pub open spec fn parts_of(m: Money) -> (i128, u32) {
    (m.amt().mant(), m.amt().sc())
}

/// What `rust_decimal` makes of the sum of two decimals given by their parts.
pub open spec fn sum_of(a: (i128, u32), b: (i128, u32)) -> Option<(i128, u32)> {
    decimal_sum(a.0, a.1, b.0, b.1)
}

/// What `rust_decimal` makes of the difference of two decimals given by their parts.
pub open spec fn difference_of(a: (i128, u32), b: (i128, u32)) -> Option<(i128, u32)> {
    decimal_difference(a.0, a.1, b.0, b.1)
}

/// What `rust_decimal` makes of the product of two decimals given by their parts.
pub open spec fn product_of(a: (i128, u32), b: (i128, u32)) -> Option<(i128, u32)> {
    decimal_product(a.0, a.1, b.0, b.1)
}

/// What `Money::percentage` computes from an amount given by its parts:
/// the amount times `percent / 100`.
pub open spec fn percentage_of(a: (i128, u32), percent: Decimal) -> Option<(i128, u32)> {
    match decimal_quotient(percent.mant(), percent.sc(), 100, 0) {
        Some(q) => decimal_product(a.0, a.1, q.0, q.1),
        None => None,
    }
}

/// The running sum of decimals given by their parts, starting from zero, as
/// repeated `rust_decimal` additions compute it; `None` where one fails.
pub open spec fn fold_sum(ps: Seq<(i128, u32)>) -> Option<(i128, u32)>
    decreases ps.len(),
{
    if ps.len() == 0 {
        Some((0i128, 0u32))
    } else {
        match fold_sum(ps.drop_last()) {
            Some(acc) => sum_of(acc, ps.last()),
            None => None,
        }
    }
}

/// Every addition of `fold_sum` needs no rounding.
pub open spec fn fold_sum_is_exact(ps: Seq<(i128, u32)>) -> bool
    decreases ps.len(),
{
    if ps.len() == 0 {
        true
    } else {
        fold_sum_is_exact(ps.drop_last()) && parts_sum_is_exact(
            fold_sum(ps.drop_last()).unwrap(),
            ps.last(),
        )
    }
}

/// The exact sum of the numbers the parts stand for.
pub open spec fn values_sum(ps: Seq<(i128, u32)>) -> int
    decreases ps.len(),
{
    if ps.len() == 0 {
        0
    } else {
        values_sum(ps.drop_last()) + value_of(ps.last())
    }
}

/// The number the parts stand for, in units of `10^-28`.
pub open spec fn value_of(p: (i128, u32)) -> int {
    p.0 * pow10((28 - p.1) as nat)
}

/// What adding `b` to `a` gives: a currency mismatch where the currencies
/// differ; otherwise the amount `decimal_sum` names, in the same currency, or
/// an arithmetic error where there is none. Adding to a zero gives the other
/// amount unchanged, and a sum that needs no rounding is exact.
pub open spec fn sum_outcome(a: Money, b: Money, r: MoneyResult<Money>) -> bool {
    &&& a.cur() != b.cur() ==> is_currency_mismatch(r, a.cur(), b.cur())
    &&& a.cur() == b.cur() ==> match decimal_sum(a.amt().mant(), a.amt().sc(), b.amt().mant(), b.amt().sc()) {
        None => is_arithmetic_error(r),
        Some(p) => r matches Ok(m) && m.amt().mant() == p.0 && m.amt().sc() == p.1 && m.cur() == a.cur(),
    }
    &&& a.cur() == b.cur() && a.amt().mant() == 0 ==> (r matches Ok(m) && parts_of(m) == parts_of(b))
    &&& a.cur() == b.cur() && a.amt().mant() != 0 && b.amt().mant() == 0 ==> (r matches Ok(m) && parts_of(m)
        == parts_of(a))
    &&& a.cur() == b.cur() && sum_is_exact(a.amt(), b.amt()) ==> (r matches Ok(m) && m.value() == a.value()
        + b.value() && m.amt().sc() <= common_scale(a.amt(), b.amt()))
}

/// What taking `b` away from `a` gives: a currency mismatch where the
/// currencies differ; insufficient funds where `b` is the larger; otherwise
/// the amount `decimal_difference` names, in the same currency, or an
/// arithmetic error where there is none. A difference that needs no rounding
/// is exact.
pub open spec fn difference_outcome(a: Money, b: Money, r: MoneyResult<Money>) -> bool {
    &&& a.cur() != b.cur() ==> is_currency_mismatch(r, a.cur(), b.cur())
    &&& a.cur() == b.cur() && a.value() < b.value() ==> r == MoneyResult::<Money>::Err(
        MoneyError::InsufficientFunds,
    )
    &&& a.cur() == b.cur() && a.value() >= b.value() ==> match decimal_difference(
        a.amt().mant(),
        a.amt().sc(),
        b.amt().mant(),
        b.amt().sc(),
    ) {
        None => is_arithmetic_error(r),
        Some(p) => r matches Ok(m) && m.amt().mant() == p.0 && m.amt().sc() == p.1 && m.cur() == a.cur(),
    }
    &&& a.cur() == b.cur() && a.value() >= b.value() && difference_is_exact(a.amt(), b.amt()) ==> (r matches Ok(
        m,
    ) && m.value() == a.value() - b.value() && m.amt().sc() <= common_scale(a.amt(), b.amt()))
}

impl Money {
    pub closed spec fn amt(self) -> Decimal {
        self.amount
    }

    pub closed spec fn cur(self) -> Seq<char> {
        self.currency@
    }

    /// The amount, counted in units of `10^-28`.
    pub open spec fn value(self) -> int {
        self.amt()@
    }

    #[verifier::type_invariant]
    pub open spec fn inv(self) -> bool {
        self.value() >= 0
    }

    /// Create a new amount of money; negative amounts are refused.
    pub fn new(amount: Decimal, currency: String) -> (r: MoneyResult<Money>)
        ensures
            amount@ < 0 <==> r is Err,
            amount@ < 0 ==> is_invalid_amount(r, "Amount cannot be negative"@),
            r matches Ok(m) ==> m.amt() == amount && m.cur() == currency@,
    {
        if compare(&amount, &Decimal::zero()) == -1 {
            return Err(MoneyError::InvalidAmount(String::from_str("Amount cannot be negative")));
        }
        Ok(Money { amount, currency })
    }

    /// Create money from the text of an amount.
    pub fn from_str(amount: &str, currency: String) -> (r: MoneyResult<Money>)
        ensures
            match decimal_parse(amount@) {
                None => is_invalid_amount(r, "Invalid amount: "@ + amount@),
                Some(p) => {
                    let d = p.0 * pow10((28 - p.1) as nat);
                    &&& d < 0 ==> is_invalid_amount(r, "Amount cannot be negative"@)
                    &&& d >= 0 ==> (r matches Ok(m) && m.amt().mant() == p.0 && m.amt().sc() == p.1
                        && m.cur() == currency@)
                },
            },
    {
        match parse(amount) {
            None => {
                let mut msg = String::from_str("Invalid amount: ");
                msg.append(amount);
                Err(MoneyError::InvalidAmount(msg))
            },
            Some(d) => Self::new(d, currency),
        }
    }

    /// The amount.
    pub fn amount(&self) -> (d: Decimal)
        ensures
            d == self.amt(),
    {
        self.amount
    }

    /// The currency code.
    pub fn currency(&self) -> (s: &str)
        ensures
            s@ == self.cur(),
    {
        self.currency.as_str()
    }

    /// Refuse two amounts of different currencies.
    fn check_currency(&self, other: &Money) -> (r: MoneyResult<()>)
        ensures
            r is Ok <==> self.cur() == other.cur(),
            r is Err ==> is_currency_mismatch(r, self.cur(), other.cur()),
    {
        if self.currency != other.currency {
            return Err(
                MoneyError::CurrencyMismatch {
                    expected: self.currency.clone(),
                    actual: other.currency.clone(),
                },
            );
        }
        Ok(())
    }

    /// Add two amounts of the same currency, as `sum_outcome` says.
    pub fn add(&self, other: &Money) -> (r: MoneyResult<Money>)
        ensures
            sum_outcome(*self, *other, r),
    {
        proof {
            use_type_invariant(self);
            use_type_invariant(other);
        }
        self.check_currency(other)?;
        match checked_sum(&self.amount, &other.amount) {
            Some(amount) => {
                let currency = self.currency.clone();
                Ok(Money { amount, currency })
            },
            None => Err(MoneyError::ArithmeticError(String::from_str("Addition overflowed"))),
        }
    }
    /// Take an amount of the same currency away, as `difference_outcome`
    /// says; refused when it is larger.
    pub fn subtract(&self, other: &Money) -> (r: MoneyResult<Money>)
        ensures
            difference_outcome(*self, *other, r),
    {
        proof {
            use_type_invariant(self);
            use_type_invariant(other);
        }
        self.check_currency(other)?;
        if compare(&self.amount, &other.amount) == -1 {
            return Err(MoneyError::InsufficientFunds);
        }
        match checked_difference(&self.amount, &other.amount) {
            Some(amount) => {
                let currency = self.currency.clone();
                Ok(Money { amount, currency })
            },
            None => Err(MoneyError::ArithmeticError(String::from_str("Subtraction overflowed"))),
        }
    }

    /// Multiply by a non-negative factor.
    pub fn multiply(&self, factor: Decimal) -> (r: MoneyResult<Money>)
        ensures
            factor@ < 0 ==> is_invalid_amount(r, "Factor cannot be negative"@),
            factor@ >= 0 ==> match decimal_product(
                self.amt().mant(),
                self.amt().sc(),
                factor.mant(),
                factor.sc(),
            ) {
                None => is_arithmetic_error(r),
                Some(p) => r matches Ok(m) && m.amt().mant() == p.0 && m.amt().sc() == p.1 && m.cur()
                    == self.cur(),
            },
            0 <= factor@ <= unit() ==> r is Ok,
            factor@ >= 0 && product_is_exact(self.amt(), factor) ==> (r matches Ok(m) && m.value()
                == self.amt().mant() * factor.mant() * pow10(
                (28 - self.amt().sc() - factor.sc()) as nat,
            ) && m.amt().sc() <= self.amt().sc() + factor.sc()),
    {
        proof {
            use_type_invariant(self);
        }
        if compare(&factor, &Decimal::zero()) == -1 {
            return Err(MoneyError::InvalidAmount(String::from_str("Factor cannot be negative")));
        }
        match checked_product(&self.amount, &factor) {
            Some(amount) => {
                let currency = self.currency.clone();
                Ok(Money { amount, currency })
            },
            None => Err(MoneyError::ArithmeticError(String::from_str("Multiplication overflowed"))),
        }
    }

    /// The given percentage (between 0 and 100) of the amount: the amount
    /// multiplied by `percent / 100`.
    pub fn percentage(&self, percent: Decimal) -> (r: MoneyResult<Money>)
        ensures
            percent@ < 0 || percent@ > 100 * unit() ==> is_invalid_amount(
                r,
                "Percent must be between 0 and 100"@,
            ),
            0 <= percent@ <= 100 * unit() ==> match decimal_quotient(percent.mant(), percent.sc(), 100, 0) {
                None => is_arithmetic_error(r),
                Some(q) => match decimal_product(self.amt().mant(), self.amt().sc(), q.0, q.1) {
                    None => is_arithmetic_error(r),
                    Some(p) => r matches Ok(m) && m.amt().mant() == p.0 && m.amt().sc() == p.1
                        && m.cur() == self.cur(),
                },
            },
            0 <= percent@ <= 100 * unit() ==> r is Ok,
            0 <= percent@ <= 100 * unit() && percentage_is_exact(self.amt(), percent) ==> (r matches Ok(m)
                && m.value() * 100 * unit() == self.value() * percent@),
    {
        proof {
            use_type_invariant(self);
            use_type_invariant(&self.amount);
            use_type_invariant(&percent);
        }
        let hundred = Decimal::from_i32(100);
        if compare(&percent, &Decimal::zero()) == -1 || compare(&percent, &hundred) == 1 {
            return Err(
                MoneyError::InvalidAmount(String::from_str("Percent must be between 0 and 100")),
            );
        }
        proof {
            lemma_pow10_positive(28);
        }
        match checked_quotient(&percent, &hundred) {
            Some(q) => {
                let r = self.multiply(q);
                proof {
                    if percentage_is_exact(self.amt(), percent) {
                        lemma_percentage_exact(self.amt(), percent, q);
                    }
                }
                r
            },
            None => Err(MoneyError::ArithmeticError(String::from_str("Division overflowed"))),
        }
    }

    /// The amount is zero.
    pub fn is_zero(&self) -> (b: bool)
        ensures
            b == (self.value() == 0),
    {
        compare(&self.amount, &Decimal::zero()) == 0
    }

    /// Zero in the given currency.
    pub fn zero(currency: String) -> (m: Money)
        ensures
            m.value() == 0,
            m.amt().mant() == 0,
            m.amt().sc() == 0,
            m.cur() == currency@,
    {
        Money { amount: Decimal::zero(), currency }
    }

    /// The text `"<currency> <amount>"`.
    pub fn to_string(&self) -> (s: String)
        ensures
            s@ == self.cur() + " "@ + decimal_text(self.amt().mant(), self.amt().sc()),
    {
        let mut s = self.currency.clone();
        s.append(" ");
        let amount = display(&self.amount);
        s.append(amount.as_str());
        s
    }
}

/// Dividing the percentage by 100 and multiplying by the amount needs no rounding.
pub open spec fn percentage_is_exact(amount: Decimal, percent: Decimal) -> bool {
    &&& amount.sc() + percent.sc() + 2 <= MAX_SCALE
    &&& fits(amount.mant() * percent.mant())
}

proof fn lemma_percentage_exact(amount: Decimal, percent: Decimal, q: Decimal)
    requires
        percentage_is_exact(amount, percent),
        q@ * 100 == percent@,
        q.sc() <= percent.sc() + 2,
    ensures
        product_is_exact(amount, q),
        amount.mant() * q.mant() * pow10((28 - amount.sc() - q.sc()) as nat) * 100 * unit() == amount@
            * percent@,
{
    let sa = amount.sc() as nat;
    let sp = percent.sc() as nat;
    let sq = q.sc() as nat;
    let ma = amount.mant() as int;
    let mp = percent.mant() as int;
    let mq = q.mant() as int;
    let k = (sp + 2 - sq) as nat;
    let pq = pow10((28 - sq) as nat);
    let pp = pow10((26 - sp) as nat);
    lemma_pow10_adds(k, (26 - sp) as nat);
    assert(pq == pow10(k) * pp);
    lemma_pow10_adds(2, (26 - sp) as nat);
    assert(pow10(2) == 100) by {
        reveal_with_fuel(pow10, 3);
    }
    assert(pow10((28 - sp) as nat) == 100 * pp);
    lemma_pow10_positive(k);
    lemma_pow10_positive((26 - sp) as nat);
    assert(mq * pq * 100 == mp * (100 * pp));
    assert(mq * pow10(k) * pp == mp * pp) by (nonlinear_arith)
        requires
            mq * pq * 100 == mp * (100 * pp),
            pq == pow10(k) * pp,
    ;
    assert(mq * pow10(k) == mp) by (nonlinear_arith)
        requires
            mq * pow10(k) * pp == mp * pp,
            pp > 0,
    ;
    lemma_fits_smaller_factor(ma, mq, mp, pow10(k));
    // Both sides are ma * mq * 10^(56 - sa - sq) * 100.
    let e1 = (28 - sa - sq) as nat;
    let a = pow10((28 - sa) as nat);
    let c = pow10(e1);
    let u = pow10(28);
    let pk = pow10(k);
    lemma_pow10_adds(e1, 28);
    lemma_pow10_adds((28 - sa) as nat, (28 - sq) as nat);
    assert(e1 + 28 == (28 - sa) + (28 - sq));
    assert(c * u == a * pq);
    assert(mp * pow10((28 - sp) as nat) == mq * pk * (100 * pp));
    assert(mq * pk * (100 * pp) == mq * 100 * (pk * pp)) by (nonlinear_arith);
    assert(mq * 100 * (pk * pp) == mq * 100 * pq);
    assert((ma * a) * (mq * 100 * pq) == ma * mq * 100 * (a * pq)) by (nonlinear_arith);
    assert(ma * mq * 100 * (a * pq) == ma * mq * 100 * (c * u));
    assert(ma * mq * 100 * (c * u) == ma * mq * c * 100 * u) by (nonlinear_arith);
}

impl Clone for Money {
    fn clone(&self) -> (r: Money)
        ensures
            r.amt() == self.amt(),
            r.cur() == self.cur(),
    {
        proof {
            use_type_invariant(self);
        }
        Money { amount: self.amount, currency: self.currency.clone() }
    }
}

impl PartialEq for Money {
    fn eq(&self, other: &Money) -> (r: bool) {
        compare(&self.amount, &other.amount) == 0 && self.currency == other.currency
    }
}

impl PartialEqSpecImpl for Money {
    open spec fn obeys_eq_spec() -> bool {
        true
    }

    open spec fn eq_spec(&self, other: &Money) -> bool {
        self.value() == other.value() && self.cur() == other.cur()
    }
}

/// Adding is commutative: for two amounts of one currency whose sum needs no
/// rounding, adding either to the other succeeds with the same amount, their
/// sum, in their currency.
pub proof fn lemma_add_commutes(a: Money, b: Money, ab: MoneyResult<Money>, ba: MoneyResult<Money>)
    requires
        a.cur() == b.cur(),
        sum_is_exact(a.amt(), b.amt()),
        sum_outcome(a, b, ab),
        sum_outcome(b, a, ba),
    ensures
        ab matches Ok(x) && ba matches Ok(y) && x.value() == y.value() && x.value() == a.value() + b.value()
            && x.cur() == a.cur() && y.cur() == a.cur(),
{
    assert(sum_is_exact(b.amt(), a.amt()));
}

/// Taking away what was added gives back the first amount: for two amounts
/// of one currency whose sum needs no rounding, subtracting the second from
/// the sum succeeds with the first amount, in their currency.
pub proof fn lemma_add_then_subtract(a: Money, b: Money, s: Money, d: MoneyResult<Money>)
    requires
        a.inv(),
        b.inv(),
        a.amt().inv(),
        b.amt().inv(),
        a.cur() == b.cur(),
        sum_is_exact(a.amt(), b.amt()),
        sum_outcome(a, b, MoneyResult::<Money>::Ok(s)),
        difference_outcome(s, b, d),
    ensures
        d matches Ok(m) && m.value() == a.value() && m.cur() == a.cur(),
{
    let pa = (a.amt().mant(), a.amt().sc());
    let pb = (b.amt().mant(), b.amt().sc());
    let ps = (s.amt().mant(), s.amt().sc());
    lemma_pow10_positive((28 - a.amt().sc()) as nat);
    lemma_pow10_positive((28 - b.amt().sc()) as nat);
    assert(pa.0 >= 0) by (nonlinear_arith)
        requires
            pa.0 * pow10((28 - pa.1) as nat) >= 0,
            pow10((28 - pa.1) as nat) > 0,
    ;
    assert(pb.0 >= 0) by (nonlinear_arith)
        requires
            pb.0 * pow10((28 - pb.1) as nat) >= 0,
            pow10((28 - pb.1) as nat) > 0,
    ;
    lemma_difference_back_is_exact(pa, pb, ps);
    assert(difference_is_exact(s.amt(), b.amt()));
}

} // verus!
