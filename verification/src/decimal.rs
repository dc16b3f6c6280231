//! Fixed-point decimal numbers as used for every monetary value.
//!
//! A `Decimal` is a signed 96-bit mantissa `m` together with a scale
//! `s <= 28`; it stands for the number `m / 10^s`.  Its view is that number
//! counted in units of `10^-28`, so that every decimal is an integer number
//! of units and two decimals are equal exactly when their views are.
//!
//! The arithmetic itself is performed by `rust_decimal`; the functions here
//! carry plain mantissa/scale pairs into and out of it.
use vstd::prelude::*;
use vstd::std_specs::cmp::PartialEqSpecImpl;

verus! {

/// Largest scale a decimal can have.
pub const MAX_SCALE: u32 = 28;

/// Largest magnitude of a 96-bit mantissa.
pub const MAX_MANTISSA: i128 = 79228162514264337593543950335i128;

/// `10^n`.
pub open spec fn pow10(n: nat) -> int
    decreases n,
{
    if n == 0 {
        1
    } else {
        10 * pow10((n - 1) as nat)
    }
}

/// One whole unit (the number 1) counted in `10^-28` units.
pub open spec fn unit() -> int {
    pow10(28)
}

pub proof fn lemma_pow10_positive(n: nat)
    ensures
        pow10(n) > 0,
    decreases n,
{
    if n > 0 {
        lemma_pow10_positive((n - 1) as nat);
    }
}

pub proof fn lemma_pow10_adds(a: nat, b: nat)
    ensures
        pow10(a + b) == pow10(a) * pow10(b),
    decreases a,
{
    if a > 0 {
        lemma_pow10_adds((a - 1) as nat, b);
        assert(pow10(a + b) == 10 * pow10((a - 1 + b) as nat));
        assert(10 * (pow10((a - 1) as nat) * pow10(b)) == (10 * pow10((a - 1) as nat)) * pow10(b))
            by (nonlinear_arith);
    }
}

/// A value fits in a 96-bit mantissa.
pub open spec fn fits(v: int) -> bool {
    -MAX_MANTISSA <= v <= MAX_MANTISSA
}

pub proof fn lemma_fits_smaller_factor(a: int, b: int, c: int, p: int)
    requires
        b * p == c,
        p >= 1,
        fits(a * c),
    ensures
        fits(a * b),
{
    assert(a * c == (a * b) * p) by (nonlinear_arith)
        requires
            b * p == c,
    ;
    if a * b >= 0 {
        assert((a * b) * p >= a * b) by (nonlinear_arith)
            requires
                a * b >= 0,
                p >= 1,
        ;
    } else {
        assert((a * b) * p <= a * b) by (nonlinear_arith)
            requires
                a * b < 0,
                p >= 1,
        ;
    }
}

/// Two representations of one number: the one with the smaller scale has the
/// mantissa that is smaller by the power of ten between the scales.
pub proof fn lemma_rescaled_mantissa(m1: int, s1: nat, m2: int, s2: nat)
    requires
        s1 <= s2 <= 28,
        m1 * pow10((28 - s1) as nat) == m2 * pow10((28 - s2) as nat),
    ensures
        m1 * pow10((s2 - s1) as nat) == m2,
{
    let k = (s2 - s1) as nat;
    let p = pow10((28 - s2) as nat);
    lemma_pow10_adds(k, (28 - s2) as nat);
    lemma_pow10_positive((28 - s2) as nat);
    assert(m1 * pow10(k) * p == m2 * p) by (nonlinear_arith)
        requires
            m1 * pow10((28 - s1) as nat) == m2 * p,
            pow10((28 - s1) as nat) == pow10(k) * p,
    ;
    assert(m1 * pow10(k) == m2) by (nonlinear_arith)
        requires
            m1 * pow10(k) * p == m2 * p,
            p > 0,
    ;
}

/// A decimal's value is its mantissa aligned to any larger scale `k`, in
/// units of `10^(k-28)`.
pub proof fn lemma_aligned_value(p: (i128, u32), k: nat)
    requires
        p.1 <= k <= 28,
    ensures
        aligned_parts(p, k) * pow10((28 - k) as nat) == p.0 * pow10((28 - p.1) as nat),
{
    lemma_pow10_adds((k - p.1) as nat, (28 - k) as nat);
    assert(p.0 * pow10((k - p.1) as nat) * pow10((28 - k) as nat) == p.0 * (pow10((k - p.1) as nat)
        * pow10((28 - k) as nat))) by (nonlinear_arith);
}

/// Where `n` is `p - t` (all non-negative) at a scale no larger than theirs and
/// `p - t` needs no rounding, `n + t` needs no rounding either.
pub proof fn lemma_sum_back_is_exact(p: (i128, u32), t: (i128, u32), n: (i128, u32))
    requires
        parts_difference_is_exact(p, t),
        p.1 <= 28,
        t.1 <= 28,
        n.1 <= max_scale(p.1, t.1),
        n.0 * pow10((28 - n.1) as nat) == p.0 * pow10((28 - p.1) as nat) - t.0 * pow10(
            (28 - t.1) as nat,
        ),
        n.0 >= 0,
        t.0 >= 0,
    ensures
        parts_sum_is_exact(n, t),
{
    let m = max_scale(p.1, t.1);
    let m2 = max_scale(n.1, t.1);
    let d = (m - m2) as nat;
    let q = pow10((28 - m) as nat);
    lemma_aligned_value(p, m);
    lemma_aligned_value(t, m);
    lemma_aligned_value(t, m2);
    lemma_aligned_value(n, m2);
    lemma_pow10_adds(d, (28 - m) as nat);
    lemma_pow10_positive(d);
    lemma_pow10_positive((28 - m) as nat);
    lemma_pow10_positive((m2 - n.1) as nat);
    lemma_pow10_positive((m2 - t.1) as nat);
    let an = aligned_parts(n, m2);
    let at2 = aligned_parts(t, m2);
    let ap = aligned_parts(p, m);
    let at = aligned_parts(t, m);
    let pd = pow10(d);
    assert(pow10((28 - m2) as nat) == pd * q);
    assert(at2 * pd == at) by (nonlinear_arith)
        requires
            at2 * (pd * q) == at * q,
            q > 0,
    ;
    assert(an * pd == ap - at) by (nonlinear_arith)
        requires
            an * (pd * q) == ap * q - at * q,
            q > 0,
    ;
    assert(an >= 0) by (nonlinear_arith)
        requires
            an == n.0 * pow10((m2 - n.1) as nat),
            n.0 >= 0,
            pow10((m2 - n.1) as nat) > 0,
    ;
    assert(at2 >= 0) by (nonlinear_arith)
        requires
            at2 == t.0 * pow10((m2 - t.1) as nat),
            t.0 >= 0,
            pow10((m2 - t.1) as nat) > 0,
    ;
    assert(an <= an * pd && at2 <= at2 * pd && an + at2 <= (an + at2) * pd) by (nonlinear_arith)
        requires
            an >= 0,
            at2 >= 0,
            pd >= 1,
    ;
    assert((an + at2) * pd == ap) by (nonlinear_arith)
        requires
            an * pd == ap - at,
            at2 * pd == at,
    ;
}

/// Where `n` is `p + t` (all non-negative) at a scale no larger than theirs and
/// `p + t` needs no rounding, `n - t` needs no rounding either.
pub proof fn lemma_difference_back_is_exact(p: (i128, u32), t: (i128, u32), n: (i128, u32))
    requires
        parts_sum_is_exact(p, t),
        p.1 <= 28,
        t.1 <= 28,
        n.1 <= max_scale(p.1, t.1),
        n.0 * pow10((28 - n.1) as nat) == p.0 * pow10((28 - p.1) as nat) + t.0 * pow10(
            (28 - t.1) as nat,
        ),
        p.0 >= 0,
        t.0 >= 0,
    ensures
        parts_difference_is_exact(n, t),
{
    let m = max_scale(p.1, t.1);
    let m2 = max_scale(n.1, t.1);
    let d = (m - m2) as nat;
    let q = pow10((28 - m) as nat);
    lemma_aligned_value(p, m);
    lemma_aligned_value(t, m);
    lemma_aligned_value(t, m2);
    lemma_aligned_value(n, m2);
    lemma_pow10_adds(d, (28 - m) as nat);
    lemma_pow10_positive(d);
    lemma_pow10_positive((28 - m) as nat);
    lemma_pow10_positive((m - p.1) as nat);
    lemma_pow10_positive((m2 - t.1) as nat);
    let an = aligned_parts(n, m2);
    let at2 = aligned_parts(t, m2);
    let ap = aligned_parts(p, m);
    let at = aligned_parts(t, m);
    let pd = pow10(d);
    assert(pow10((28 - m2) as nat) == pd * q);
    assert(at2 * pd == at) by (nonlinear_arith)
        requires
            at2 * (pd * q) == at * q,
            q > 0,
    ;
    assert(an * pd == ap + at) by (nonlinear_arith)
        requires
            an * (pd * q) == ap * q + at * q,
            q > 0,
    ;
    assert(ap >= 0) by (nonlinear_arith)
        requires
            ap == p.0 * pow10((m - p.1) as nat),
            p.0 >= 0,
            pow10((m - p.1) as nat) > 0,
    ;
    assert(at2 >= 0) by (nonlinear_arith)
        requires
            at2 == t.0 * pow10((m2 - t.1) as nat),
            t.0 >= 0,
            pow10((m2 - t.1) as nat) > 0,
    ;
    assert(an >= 0 && an <= an * pd) by (nonlinear_arith)
        requires
            an * pd == ap + at,
            ap >= 0,
            at2 >= 0,
            at2 * pd == at,
            pd >= 1,
    ;
    assert(at2 <= at2 * pd) by (nonlinear_arith)
        requires
            at2 >= 0,
            pd >= 1,
    ;
    assert((an - at2) * pd == ap) by (nonlinear_arith)
        requires
            an * pd == ap + at,
            at2 * pd == at,
    ;
    assert(0 <= an - at2 <= ap) by (nonlinear_arith)
        requires
            (an - at2) * pd == ap,
            ap >= 0,
            pd >= 1,
    ;
}

/// A fixed-point decimal number `mantissa / 10^scale`.
#[derive(Clone, Copy, Debug)]
pub struct Decimal {
    mantissa: i128,
    scale: u32,
}

impl Decimal {
    pub closed spec fn mant(self) -> i128 {
        self.mantissa
    }

    pub closed spec fn sc(self) -> u32 {
        self.scale
    }

    #[verifier::type_invariant]
    pub open spec fn inv(self) -> bool {
        &&& fits(self.mant() as int)
        &&& self.sc() <= MAX_SCALE
    }

    /// The mantissa rescaled to the larger scale `s`.
    pub open spec fn aligned(self, s: nat) -> int {
        self.mant() * pow10((s - self.sc()) as nat)
    }

    /// The decimal `num / 10^scale`.
    pub fn new(num: i64, scale: u32) -> (d: Decimal)
        requires
            scale <= MAX_SCALE,
        ensures
            d.mant() == num,
            d.sc() == scale,
    {
        Decimal { mantissa: num as i128, scale }
    }

    /// The decimal `num / 10^scale` for a full 96-bit mantissa.
    pub fn from_i128_with_scale(num: i128, scale: u32) -> (d: Decimal)
        requires
            scale <= MAX_SCALE,
            fits(num as int),
        ensures
            d.mant() == num,
            d.sc() == scale,
    {
        Decimal { mantissa: num, scale }
    }

    /// The integer `v` as a decimal of scale 0.
    pub fn from_i32(v: i32) -> (d: Decimal)
        ensures
            d.mant() == v,
            d.sc() == 0,
            d@ == v * unit(),
    {
        Decimal { mantissa: v as i128, scale: 0 }
    }

    /// Zero.
    pub fn zero() -> (d: Decimal)
        ensures
            d.mant() == 0,
            d.sc() == 0,
            d@ == 0,
    {
        Decimal { mantissa: 0, scale: 0 }
    }

    /// The decimal a text holds, as `rust_decimal` reads it.
    pub fn from_text(text: &str) -> (r: Option<Decimal>)
        ensures
            parts(r) == decimal_parse(text@),
    {
        parse(text)
    }

    pub fn mantissa(&self) -> (m: i128)
        ensures
            m == self.mant(),
    {
        self.mantissa
    }

    pub fn scale(&self) -> (s: u32)
        ensures
            s == self.sc(),
    {
        self.scale
    }

    /// The decimal's text, as `rust_decimal` prints it.
    pub fn to_text(&self) -> (s: String)
        ensures
            s@ == decimal_text(self.mant(), self.sc()),
    {
        display(self)
    }
}

impl View for Decimal {
    type V = int;

    open spec fn view(&self) -> int {
        self.aligned(28)
    }
}

/// The mantissa and scale of a decimal.
pub open spec fn dparts(d: Decimal) -> (i128, u32) {
    (d.mant(), d.sc())
}

/// Turns an optional decimal into its optional mantissa/scale pair.
pub open spec fn parts(r: Option<Decimal>) -> Option<(i128, u32)> {
    match r {
        Some(d) => Some((d.mant(), d.sc())),
        None => None,
    }
}

/// The larger of the two scales.
pub open spec fn common_scale(a: Decimal, b: Decimal) -> nat {
    max_scale(a.sc(), b.sc())
}

/// The mantissa of the decimal `p.0 / 10^p.1` rescaled to the larger scale `s`.
pub open spec fn aligned_parts(p: (i128, u32), s: nat) -> int {
    p.0 * pow10((s - p.1) as nat)
}

/// The larger of two scales.
pub open spec fn max_scale(a: u32, b: u32) -> nat {
    if a >= b {
        a as nat
    } else {
        b as nat
    }
}

/// Both operands, given by their parts, and their sum fit a 96-bit mantissa
/// at the common scale.
pub open spec fn parts_sum_is_exact(a: (i128, u32), b: (i128, u32)) -> bool {
    let s = max_scale(a.1, b.1);
    &&& fits(aligned_parts(a, s))
    &&& fits(aligned_parts(b, s))
    &&& fits(aligned_parts(a, s) + aligned_parts(b, s))
}

/// Both operands, given by their parts, and their difference fit a 96-bit
/// mantissa at the common scale.
pub open spec fn parts_difference_is_exact(a: (i128, u32), b: (i128, u32)) -> bool {
    let s = max_scale(a.1, b.1);
    &&& fits(aligned_parts(a, s))
    &&& fits(aligned_parts(b, s))
    &&& fits(aligned_parts(a, s) - aligned_parts(b, s))
}

/// Both operands and their sum fit a 96-bit mantissa at the common scale.
pub open spec fn sum_is_exact(a: Decimal, b: Decimal) -> bool {
    parts_sum_is_exact((a.mant(), a.sc()), (b.mant(), b.sc()))
}

/// Both operands and their difference fit a 96-bit mantissa at the common scale.
pub open spec fn difference_is_exact(a: Decimal, b: Decimal) -> bool {
    parts_difference_is_exact((a.mant(), a.sc()), (b.mant(), b.sc()))
}

/// The product of the mantissas fits 96 bits and the scales add up to at most 28.
pub open spec fn product_is_exact(a: Decimal, b: Decimal) -> bool {
    &&& a.sc() + b.sc() <= MAX_SCALE
    &&& fits(a.mant() * b.mant())
}

/// What `rust_decimal::Decimal::checked_add` returns for the two decimals.
pub uninterp spec fn decimal_sum(a_mantissa: i128, a_scale: u32, b_mantissa: i128, b_scale: u32) -> Option<(i128, u32)>;

/// What `rust_decimal::Decimal::checked_sub` returns for the two decimals.
pub uninterp spec fn decimal_difference(a_mantissa: i128, a_scale: u32, b_mantissa: i128, b_scale: u32) -> Option<(i128, u32)>;

/// What `rust_decimal::Decimal::checked_mul` returns for the two decimals.
pub uninterp spec fn decimal_product(a_mantissa: i128, a_scale: u32, b_mantissa: i128, b_scale: u32) -> Option<(i128, u32)>;

/// What `rust_decimal::Decimal::checked_div` returns for the two decimals.
pub uninterp spec fn decimal_quotient(a_mantissa: i128, a_scale: u32, b_mantissa: i128, b_scale: u32) -> Option<(i128, u32)>;

/// What `rust_decimal`'s `FromStr` makes of a text.
pub uninterp spec fn decimal_parse(text: Seq<char>) -> Option<(i128, u32)>;

/// `n` zeros.
pub open spec fn zeros(n: nat) -> Seq<char> {
    Seq::new(n, |i: int| '0')
}

/// The decimal digits of the magnitude `n`, padded with zeros in front to at
/// least `scale` digits; none for zero, before padding.
pub open spec fn padded_digits(n: nat, scale: nat) -> Seq<char> {
    let ds = if n == 0 {
        Seq::<char>::empty()
    } else {
        crate::queries::decimal_digits(n)
    };
    if ds.len() < scale {
        zeros((scale - ds.len()) as nat) + ds
    } else {
        ds
    }
}

/// How `rust_decimal`'s `Display` prints the decimal `mantissa / 10^scale`:
/// a minus sign where negative, the digits before the point (`0` where
/// there are none), and, where the scale is positive, a point followed by
/// exactly `scale` digits.
pub open spec fn decimal_text(mantissa: i128, scale: u32) -> Seq<char> {
    let sign = if mantissa < 0 {
        "-"@
    } else {
        Seq::<char>::empty()
    };
    let magnitude = if mantissa < 0 {
        -mantissa
    } else {
        mantissa as int
    };
    let ds = padded_digits(magnitude as nat, scale as nat);
    let whole = ds.subrange(0, ds.len() - scale);
    let fraction = ds.subrange(ds.len() - scale, ds.len() as int);
    let whole_text = if whole.len() == 0 {
        "0"@
    } else {
        whole
    };
    if scale == 0 {
        sign + whole_text
    } else {
        sign + whole_text + "."@ + fraction
    }
}

/// Calls `rust_decimal::Decimal::checked_add`. The result is named by
/// `decimal_sum`; beyond that the contract claims that the sum is computed
/// exactly, at no larger scale than the operands', whenever both operands and
/// the sum fit a 96-bit mantissa at the common scale, that the sum of two
/// non-negative decimals is not negative, and that adding to a zero gives the
/// other operand unchanged (a zero on the left gives the right operand, and
/// otherwise a zero on the right gives the left one).
#[verifier::external_body]
pub(crate) fn checked_sum(a: &Decimal, b: &Decimal) -> (r: Option<Decimal>)
    ensures
        parts(r) == decimal_sum(a.mant(), a.sc(), b.mant(), b.sc()),
        sum_is_exact(*a, *b) ==> r is Some && r.unwrap()@ == a@ + b@ && r.unwrap().sc()
            <= common_scale(*a, *b),
        a@ >= 0 && b@ >= 0 && r is Some ==> r.unwrap()@ >= 0,
        a.mant() == 0 ==> r == Some(*b),
        a.mant() != 0 && b.mant() == 0 ==> r == Some(*a),
{
    let x = rust_decimal::Decimal::from_i128_with_scale(a.mantissa, a.scale);
    let y = rust_decimal::Decimal::from_i128_with_scale(b.mantissa, b.scale);
    match x.checked_add(y) {
        Some(z) => Some(Decimal { mantissa: z.mantissa(), scale: z.scale() }),
        None => None,
    }
}

/// Calls `rust_decimal::Decimal::checked_sub`. The result is named by
/// `decimal_difference`; beyond that the contract claims exactness under the
/// same condition as for the sum, and that taking a non-negative decimal from
/// a larger one leaves a non-negative decimal.
#[verifier::external_body]
pub(crate) fn checked_difference(a: &Decimal, b: &Decimal) -> (r: Option<Decimal>)
    ensures
        parts(r) == decimal_difference(a.mant(), a.sc(), b.mant(), b.sc()),
        difference_is_exact(*a, *b) ==> r is Some && r.unwrap()@ == a@ - b@ && r.unwrap().sc()
            <= common_scale(*a, *b),
        a@ >= b@ && b@ >= 0 && r is Some ==> r.unwrap()@ >= 0,
{
    let x = rust_decimal::Decimal::from_i128_with_scale(a.mantissa, a.scale);
    let y = rust_decimal::Decimal::from_i128_with_scale(b.mantissa, b.scale);
    match x.checked_sub(y) {
        Some(z) => Some(Decimal { mantissa: z.mantissa(), scale: z.scale() }),
        None => None,
    }
}

/// Calls `rust_decimal::Decimal::checked_mul`. The result is named by
/// `decimal_product`; beyond that the contract claims that the product of the
/// mantissas is kept exactly, at the sum of the scales or below, when it fits
/// 96 bits and the scales add up to at most 28 (no rounding is then needed),
/// that the product of two non-negative decimals is not negative, and that
/// multiplying by a factor of magnitude at most one always succeeds (the
/// product's integer part then fits, and only digits after the point are
/// rounded away).
#[verifier::external_body]
pub(crate) fn checked_product(a: &Decimal, b: &Decimal) -> (r: Option<Decimal>)
    ensures
        parts(r) == decimal_product(a.mant(), a.sc(), b.mant(), b.sc()),
        product_is_exact(*a, *b) ==> r is Some && r.unwrap()@ == a.mant() * b.mant() * pow10(
            (28 - a.sc() - b.sc()) as nat,
        ) && r.unwrap().sc() <= a.sc() + b.sc(),
        a@ >= 0 && b@ >= 0 && r is Some ==> r.unwrap()@ >= 0,
        -unit() <= b@ <= unit() ==> r is Some,
{
    let x = rust_decimal::Decimal::from_i128_with_scale(a.mantissa, a.scale);
    let y = rust_decimal::Decimal::from_i128_with_scale(b.mantissa, b.scale);
    match x.checked_mul(y) {
        Some(z) => Some(Decimal { mantissa: z.mantissa(), scale: z.scale() }),
        None => None,
    }
}

/// Calls `rust_decimal::Decimal::checked_div`. The result is named by
/// `decimal_quotient`; beyond that the contract claims that division by zero
/// gives `None`, and that dividing a decimal of scale at most 26 by the
/// integer 100 (mantissa 100, scale 0) is exact, at a scale at most two above
/// the dividend's; a non-negative decimal divided by a positive one is not
/// negative; dividing a non-negative decimal by a positive one at least as
/// large always succeeds, with a quotient between 0 and 1; and dividing a
/// non-negative decimal by one of at least 1 always succeeds (the quotient is
/// no larger than the dividend).
#[verifier::external_body]
pub(crate) fn checked_quotient(a: &Decimal, b: &Decimal) -> (r: Option<Decimal>)
    ensures
        parts(r) == decimal_quotient(a.mant(), a.sc(), b.mant(), b.sc()),
        b.mant() == 0 ==> r is None,
        (b.mant() == 100 && b.sc() == 0 && a.sc() + 2 <= MAX_SCALE) ==> r is Some && r.unwrap()@
            * 100 == a@ && r.unwrap().sc() <= a.sc() + 2,
        a@ >= 0 && b@ > 0 && r is Some ==> r.unwrap()@ >= 0,
        0 <= a@ <= b@ && b@ > 0 ==> r is Some && 0 <= r.unwrap()@ <= unit(),
        a@ >= 0 && b@ >= unit() ==> r is Some,
{
    let x = rust_decimal::Decimal::from_i128_with_scale(a.mantissa, a.scale);
    let y = rust_decimal::Decimal::from_i128_with_scale(b.mantissa, b.scale);
    match x.checked_div(y) {
        Some(z) => Some(Decimal { mantissa: z.mantissa(), scale: z.scale() }),
        None => None,
    }
}

/// Calls `Ord::cmp` of `rust_decimal::Decimal`, which compares the numbers
/// the decimals stand for: -1, 0 or 1 as the first is smaller, equal or larger.
#[verifier::external_body]
pub(crate) fn compare(a: &Decimal, b: &Decimal) -> (r: i8)
    ensures
        (r == -1) == (a@ < b@),
        (r == 0) == (a@ == b@),
        (r == 1) == (a@ > b@),
{
    let x = rust_decimal::Decimal::from_i128_with_scale(a.mantissa, a.scale);
    let y = rust_decimal::Decimal::from_i128_with_scale(b.mantissa, b.scale);
    match x.cmp(&y) {
        std::cmp::Ordering::Less => -1,
        std::cmp::Ordering::Equal => 0,
        std::cmp::Ordering::Greater => 1,
    }
}

/// Calls `rust_decimal`'s `FromStr`; the result is named by `decimal_parse`.
#[verifier::external_body]
pub(crate) fn parse(text: &str) -> (r: Option<Decimal>)
    ensures
        parts(r) == decimal_parse(text@),
{
    match text.parse::<rust_decimal::Decimal>() {
        Ok(z) => Some(Decimal { mantissa: z.mantissa(), scale: z.scale() }),
        Err(_) => None,
    }
}

/// Calls `rust_decimal`'s `Display` (through `to_string`, so with no width
/// or precision); the text is `decimal_text`.
#[verifier::external_body]
pub(crate) fn display(d: &Decimal) -> (r: String)
    ensures
        r@ == decimal_text(d.mant(), d.sc()),
{
    rust_decimal::Decimal::from_i128_with_scale(d.mantissa, d.scale).to_string()
}

impl PartialEq for Decimal {
    fn eq(&self, other: &Decimal) -> (r: bool) {
        compare(self, other) == 0
    }
}

impl PartialEqSpecImpl for Decimal {
    open spec fn obeys_eq_spec() -> bool {
        true
    }

    open spec fn eq_spec(&self, other: &Decimal) -> bool {
        self@ == other@
    }
}

} // verus!
