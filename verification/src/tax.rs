//! Tax calculation: jurisdictions with their rates, exemptions, the tax of
//! single items and of whole orders, and how an order's tax is divided
//! among the jurisdictions in force.
use vstd::prelude::*;
use vstd::string::*;
use crate::currencies;
use crate::decimal::{checked_product, checked_quotient, checked_sum, compare, dparts, unit, Decimal};
use crate::ids::{new_id, Id};
use crate::models::{MenuItem, OrderItem, OrderItemStatus};
use crate::money::{
    difference_of, fold_sum, fold_sum_is_exact, parts_of, percentage_of, product_of, sum_of, value_of,
    values_sum, Money, MoneyError,
};
use crate::decimal::{parts_difference_is_exact, sum_is_exact};
use crate::text::{contains_text, lowercase_text, str_contains, to_lowercase};
use crate::time::{now, Timestamp};

verus! {

/// Why a tax calculation failed.
#[derive(Debug, Clone, PartialEq)]
pub enum TaxError {
    InvalidTaxRate(Decimal),
    ExemptionNotFound(String),
    JurisdictionNotFound(String),
    MoneyError(MoneyError),
}

/// Result type for tax operations.
pub type TaxResult<T> = Result<T, TaxError>;

/// The rate is a percentage between 0 and 100.
pub open spec fn rate_in_range(rate: Decimal) -> bool {
    0 <= rate@ <= 100 * unit()
}

/// A tax jurisdiction (state, city, special district) and its rate in percent.
#[derive(Debug, Clone)]
pub struct TaxJurisdiction {
    pub id: Id,
    pub name: String,
    pub code: String,
    /// Percentage rate (8.5 for 8.5%).
    pub tax_rate: Decimal,
    pub is_active: bool,
    pub effective_date: Timestamp,
    pub expiry_date: Option<Timestamp>,
    pub created_at: Timestamp,
    pub updated_at: Timestamp,
}

impl TaxJurisdiction {
    /// The jurisdiction is in force at `date`: from its effective date on,
    /// and before its expiry date where it has one.
    pub open spec fn effective_at(self, date: Timestamp) -> bool {
        &&& !date.before(self.effective_date)
        &&& (self.expiry_date matches Some(e) ==> date.before(e))
    }

    /// The jurisdiction counts at `date`: it is active and in force.
    pub open spec fn applies_at(self, date: Timestamp) -> bool {
        self.is_active && self.effective_at(date)
    }

    /// A new active jurisdiction in force from now on; refused where the
    /// rate is not between 0 and 100.
    pub fn new(name: String, code: String, tax_rate: Decimal) -> (r: TaxResult<TaxJurisdiction>)
        ensures
            !rate_in_range(tax_rate) ==> r == TaxResult::<TaxJurisdiction>::Err(TaxError::InvalidTaxRate(tax_rate)),
            rate_in_range(tax_rate) ==> (r matches Ok(j) && j.name == name && j.code == code && j.tax_rate
                == tax_rate && j.is_active && j.expiry_date is None && j.created_at == j.effective_date
                && j.updated_at == j.effective_date),
    {
        let hundred = Decimal::from_i32(100);
        if compare(&tax_rate, &Decimal::zero()) == -1 || compare(&tax_rate, &hundred) == 1 {
            return Err(TaxError::InvalidTaxRate(tax_rate));
        }
        let now = now();
        Ok(TaxJurisdiction {
            id: new_id(),
            name,
            code,
            tax_rate,
            is_active: true,
            effective_date: now,
            expiry_date: None,
            created_at: now,
            updated_at: now,
        })
    }

    /// Whether the jurisdiction is in force at `date`.
    pub fn is_effective_at(&self, date: Timestamp) -> (b: bool)
        ensures
            b == self.effective_at(date),
    {
        !date.is_before(&self.effective_date) && match &self.expiry_date {
            Some(e) => date.is_before(e),
            None => true,
        }
    }
}

/// The kind of a tax exemption.
#[derive(Debug, Clone, Copy, PartialEq, Eq, Structural)]
pub enum TaxExemptionType {
    NonProfit,
    Government,
    Resale,
    Agricultural,
    Manufacturing,
    Other,
}

/// A tax exemption, as a certificate holder presents it.
#[derive(Debug, Clone)]
pub struct TaxExemption {
    pub id: Id,
    pub name: String,
    pub exemption_type: TaxExemptionType,
    pub certificate_number: Option<String>,
    pub is_active: bool,
    pub created_at: Timestamp,
    pub updated_at: Timestamp,
}

impl TaxExemption {
    /// A new active exemption.
    pub fn new(name: String, exemption_type: TaxExemptionType, certificate_number: Option<String>) -> (e: TaxExemption)
        ensures
            e.name == name,
            e.exemption_type == exemption_type,
            e.certificate_number == certificate_number,
            e.is_active,
            e.created_at == e.updated_at,
    {
        let now = now();
        TaxExemption {
            id: new_id(),
            name,
            exemption_type,
            certificate_number,
            is_active: true,
            created_at: now,
            updated_at: now,
        }
    }
}

/// The tax of one order item.
#[derive(Debug, Clone)]
pub struct ItemTaxCalculation {
    pub item_id: Id,
    pub item_name: String,
    pub pre_tax_amount: Money,
    pub tax_amount: Money,
    pub total_amount: Money,
    pub tax_rate: Decimal,
    pub is_exempt: bool,
    pub exemption_reason: Option<String>,
}

/// The tax of a whole order.
#[derive(Debug, Clone)]
pub struct OrderTaxCalculation {
    pub items: Vec<ItemTaxCalculation>,
    pub subtotal: Money,
    pub total_tax: Money,
    pub grand_total: Money,
    pub tax_breakdown: Vec<TaxBreakdown>,
}

/// The part of an order's tax that falls to one jurisdiction.
#[derive(Debug, Clone)]
pub struct TaxBreakdown {
    pub jurisdiction_name: String,
    pub tax_rate: Decimal,
    pub taxable_amount: Money,
    pub tax_amount: Money,
}

/// The first menu item with this identifier.
pub open spec fn menu_item_for(ms: Seq<MenuItem>, id: Id) -> Option<MenuItem>
    decreases ms.len(),
{
    if ms.len() == 0 {
        None
    } else if ms[0].id == id {
        Some(ms[0])
    } else {
        menu_item_for(ms.drop_first(), id)
    }
}

/// The first exemption with this identifier.
pub open spec fn exemption_for(es: Seq<TaxExemption>, id: Id) -> Option<TaxExemption>
    decreases es.len(),
{
    if es.len() == 0 {
        None
    } else if es[0].id == id {
        Some(es[0])
    } else {
        exemption_for(es.drop_first(), id)
    }
}

/// An item of this name is exempt under an exemption of this kind: always
/// for resale, non-profits and government; for agriculture where the name
/// mentions seed or feed; for manufacturing where it mentions raw goods or
/// ingredients; never otherwise (such cases go to manual review). Names are
/// compared in lower case.
pub open spec fn item_exempt(name: Seq<char>, kind: TaxExemptionType) -> bool {
    match kind {
        TaxExemptionType::Resale | TaxExemptionType::NonProfit | TaxExemptionType::Government => true,
        TaxExemptionType::Agricultural => contains_text(lowercase_text(name), "seed"@) || contains_text(
            lowercase_text(name),
            "feed"@,
        ),
        TaxExemptionType::Manufacturing => contains_text(lowercase_text(name), "raw"@) || contains_text(
            lowercase_text(name),
            "ingredient"@,
        ),
        TaxExemptionType::Other => false,
    }
}

/// The jurisdictions that count at `date`, in order.
pub open spec fn applying_at(js: Seq<TaxJurisdiction>, date: Timestamp) -> Seq<TaxJurisdiction>
    decreases js.len(),
{
    if js.len() == 0 {
        Seq::empty()
    } else if js.last().applies_at(date) {
        applying_at(js.drop_last(), date).push(js.last())
    } else {
        applying_at(js.drop_last(), date)
    }
}

/// The running sum of the rates, from zero; `None` where an addition fails.
pub open spec fn rate_total(js: Seq<TaxJurisdiction>) -> Option<(i128, u32)>
    decreases js.len(),
{
    if js.len() == 0 {
        Some((0i128, 0u32))
    } else {
        match rate_total(js.drop_last()) {
            Some(acc) => sum_of(acc, dparts(js.last().tax_rate)),
            None => None,
        }
    }
}

/// The tax engine: the jurisdictions and the exemptions it knows.
#[derive(Debug, Clone)]
pub struct TaxEngine {
    jurisdictions: Vec<TaxJurisdiction>,
    exemptions: Vec<TaxExemption>,
}

impl TaxEngine {
    /// The jurisdictions, in the order they were added.
    pub closed spec fn jurisdictions(self) -> Seq<TaxJurisdiction> {
        self.jurisdictions@
    }

    /// The exemptions, in the order they were added.
    pub closed spec fn exemptions(self) -> Seq<TaxExemption> {
        self.exemptions@
    }

    /// An engine with no jurisdictions and no exemptions.
    pub fn new() -> (e: TaxEngine)
        ensures
            e.jurisdictions() == Seq::<TaxJurisdiction>::empty(),
            e.exemptions() == Seq::<TaxExemption>::empty(),
    {
        TaxEngine { jurisdictions: Vec::new(), exemptions: Vec::new() }
    }

    /// Add a jurisdiction.
    pub fn add_jurisdiction(&mut self, jurisdiction: TaxJurisdiction)
        ensures
            final(self).jurisdictions() == old(self).jurisdictions().push(jurisdiction),
            final(self).exemptions() == old(self).exemptions(),
    {
        self.jurisdictions.push(jurisdiction);
    }

    /// Add an exemption.
    pub fn add_exemption(&mut self, exemption: TaxExemption)
        ensures
            final(self).exemptions() == old(self).exemptions().push(exemption),
            final(self).jurisdictions() == old(self).jurisdictions(),
    {
        self.exemptions.push(exemption);
    }

    /// The tax at `tax_rate` percent of the amount; refused where the rate is
    /// not between 0 and 100 or the computation fails.
    pub fn calculate_item_tax(&self, pre_tax_amount: &Money, tax_rate: Decimal) -> (r: TaxResult<Money>)
        ensures
            r is Err ==> r == TaxResult::<Money>::Err(TaxError::InvalidTaxRate(tax_rate)),
            r is Ok <==> rate_in_range(tax_rate),
            rate_in_range(tax_rate) ==> percentage_of(parts_of(*pre_tax_amount), tax_rate) is Some,
            r matches Ok(m) ==> parts_of(m) == percentage_of(parts_of(*pre_tax_amount), tax_rate).unwrap()
                && m.cur() == pre_tax_amount.cur(),
    {
        let hundred = Decimal::from_i32(100);
        if compare(&tax_rate, &Decimal::zero()) == -1 || compare(&tax_rate, &hundred) == 1 {
            return Err(TaxError::InvalidTaxRate(tax_rate));
        }
        match pre_tax_amount.percentage(tax_rate) {
            Ok(m) => Ok(m),
            Err(_) => Err(TaxError::InvalidTaxRate(tax_rate)),
        }
    }

    /// Whether the exemption exempts the menu item.
    fn is_item_exempt(&self, menu_item: &MenuItem, exemption: &TaxExemption) -> (b: bool)
        ensures
            b == item_exempt(menu_item.name@, exemption.exemption_type),
    {
        match exemption.exemption_type {
            TaxExemptionType::Resale => true,
            TaxExemptionType::NonProfit => true,
            TaxExemptionType::Government => true,
            TaxExemptionType::Agricultural => {
                let lower = to_lowercase(menu_item.name.as_str());
                str_contains(lower.as_str(), "seed") || str_contains(lower.as_str(), "feed")
            },
            TaxExemptionType::Manufacturing => {
                let lower = to_lowercase(menu_item.name.as_str());
                str_contains(lower.as_str(), "raw") || str_contains(lower.as_str(), "ingredient")
            },
            TaxExemptionType::Other => false,
        }
    }

    /// The exemption with this identifier.
    fn find_exemption(&self, id: Id) -> (r: Option<&TaxExemption>)
        ensures
            r is None <==> exemption_for(self.exemptions(), id) is None,
            r matches Some(e) ==> exemption_for(self.exemptions(), id) == Some(*e),
    {
        let ghost es = self.exemptions@;
        let mut i: usize = 0;
        proof {
            assert(es.skip(0) =~= es);
        }
        while i < self.exemptions.len()
            invariant
                i <= es.len(),
                es == self.exemptions@,
                exemption_for(es, id) == exemption_for(es.skip(i as int), id),
            decreases self.exemptions.len() - i,
        {
            proof {
                assert(es.skip(i as int)[0] == es[i as int]);
                assert(es.skip(i as int).drop_first() =~= es.skip(i + 1));
            }
            if self.exemptions[i].id == id {
                return Some(&self.exemptions[i]);
            }
            i = i + 1;
        }
        proof {
            assert(es.skip(i as int) =~= Seq::<TaxExemption>::empty());
        }
        None
    }

    /// The jurisdictions that count at `date`.
    pub fn get_active_jurisdictions_at(&self, date: Timestamp) -> (r: Vec<&TaxJurisdiction>)
        ensures
            r@.len() == applying_at(self.jurisdictions(), date).len(),
            forall|i: int| 0 <= i < r@.len() ==> *r@[i] == applying_at(self.jurisdictions(), date)[i],
    {
        let ghost js = self.jurisdictions@;
        let mut r: Vec<&TaxJurisdiction> = Vec::new();
        let mut i: usize = 0;
        proof {
            assert(js.take(0) =~= Seq::<TaxJurisdiction>::empty());
        }
        while i < self.jurisdictions.len()
            invariant
                i <= js.len(),
                js == self.jurisdictions@,
                r@.len() == applying_at(js.take(i as int), date).len(),
                forall|k: int| 0 <= k < r@.len() ==> *r@[k] == applying_at(js.take(i as int), date)[k],
            decreases self.jurisdictions.len() - i,
        {
            proof {
                assert(js.take(i + 1).drop_last() =~= js.take(i as int));
            }
            let j = &self.jurisdictions[i];
            if j.is_active && j.is_effective_at(date) {
                r.push(j);
            }
            i = i + 1;
        }
        proof {
            assert(js.take(js.len() as int) =~= js);
        }
        r
    }

    /// The jurisdictions that count now.
    pub fn get_active_jurisdictions(&self) -> (r: Vec<&TaxJurisdiction>)
        ensures
            exists|date: Timestamp|
                r@.len() == applying_at(self.jurisdictions(), date).len() && forall|i: int|
                    0 <= i < r@.len() ==> *r@[i] == applying_at(self.jurisdictions(), date)[i],
    {
        let date = now();
        self.get_active_jurisdictions_at(date)
    }

    /// The active exemptions.
    pub fn get_active_exemptions(&self) -> (r: Vec<&TaxExemption>)
        ensures
            r@.len() == self.exemptions().filter(|e: TaxExemption| e.is_active).len(),
            forall|i: int| 0 <= i < r@.len() ==> *r@[i] == self.exemptions().filter(|e: TaxExemption| e.is_active)[i],
    {
        let ghost es = self.exemptions@;
        let mut r: Vec<&TaxExemption> = Vec::new();
        let mut i: usize = 0;
        proof {
            assert(es.take(0) =~= Seq::<TaxExemption>::empty());
            reveal(Seq::filter);
            assert(es.take(0).filter(|e: TaxExemption| e.is_active) =~= Seq::<TaxExemption>::empty());
        }
        while i < self.exemptions.len()
            invariant
                i <= es.len(),
                es == self.exemptions@,
                r@.len() == es.take(i as int).filter(|e: TaxExemption| e.is_active).len(),
                forall|k: int| 0 <= k < r@.len() ==> *r@[k] == es.take(i as int).filter(|e: TaxExemption| e.is_active)[k],
            decreases self.exemptions.len() - i,
        {
            proof {
                assert(es.take(i + 1).drop_last() =~= es.take(i as int));
                reveal(Seq::filter);
            }
            let e = &self.exemptions[i];
            if e.is_active {
                r.push(e);
            }
            i = i + 1;
        }
        proof {
            assert(es.take(es.len() as int) =~= es);
        }
        r
    }

    /// The sum of the rates of the jurisdictions that count at `date`, or
    /// `None` where an addition fails.
    pub fn checked_get_effective_tax_rate(&self, date: Timestamp) -> (r: Option<Decimal>)
        ensures
            r is Some <==> rate_total(applying_at(self.jurisdictions(), date)) is Some,
            r matches Some(d) ==> dparts(d) == rate_total(applying_at(self.jurisdictions(), date)).unwrap(),
    {
        let active = self.get_active_jurisdictions_at(date);
        let ghost js = applying_at(self.jurisdictions(), date);
        let mut acc = Decimal::zero();
        let mut i: usize = 0;
        proof {
            assert(js.take(0) =~= Seq::<TaxJurisdiction>::empty());
        }
        while i < active.len()
            invariant
                i <= js.len(),
                js == applying_at(self.jurisdictions(), date),
                active@.len() == js.len(),
                forall|k: int| 0 <= k < active@.len() ==> *active@[k] == js[k],
                rate_total(js.take(i as int)) == Some(dparts(acc)),
            decreases active.len() - i,
        {
            proof {
                assert(js.take(i + 1).drop_last() =~= js.take(i as int));
                assert(js.take(i + 1).last() == js[i as int]);
            }
            match checked_sum(&acc, &active[i].tax_rate) {
                Some(next) => {
                    acc = next;
                },
                None => {
                    proof {
                        lemma_rate_total_prefix(js, i + 1);
                    }
                    return None;
                },
            }
            i = i + 1;
        }
        proof {
            assert(js.take(js.len() as int) =~= js);
        }
        Some(acc)
    }

    /// The sum of the rates of the jurisdictions that count at `date`.
    pub fn get_effective_tax_rate(&self, date: Timestamp) -> (d: Decimal)
        requires
            self.effective_rate_computable(date),
        ensures
            dparts(d) == rate_total(applying_at(self.jurisdictions(), date)).unwrap(),
    {
        match self.checked_get_effective_tax_rate(date) {
            Some(d) => d,
            None => {
                proof {
                    assert(false);
                }
                Decimal::zero()
            },
        }
    }

    /// The rates of the jurisdictions that count at `date` can be added up.
    pub open spec fn effective_rate_computable(self, date: Timestamp) -> bool {
        rate_total(applying_at(self.jurisdictions(), date)) is Some
    }
}

proof fn lemma_rate_total_prefix(js: Seq<TaxJurisdiction>, i: int)
    requires
        0 <= i <= js.len(),
        rate_total(js.take(i)) is None,
    ensures
        rate_total(js) is None,
    decreases js.len() - i,
{
    if i < js.len() {
        assert(js.take(i + 1).drop_last() =~= js.take(i));
        lemma_rate_total_prefix(js, i + 1);
    } else {
        assert(js.take(i) =~= js);
    }
}


/// What can go wrong in an order's tax calculation.
pub enum TaxFailure {
    /// An order item refers to no known menu item.
    UnknownMenuItem,
    /// A menu item's rate is not a percentage, or its tax cannot be computed.
    InvalidRate(Decimal),
    /// An addition cannot be represented.
    Overflow,
    /// An item is priced in this currency rather than in dollars.
    CurrencyMismatch(Seq<char>),
}

/// The error reports the failure.
pub open spec fn fails_with(e: TaxError, f: TaxFailure) -> bool {
    match f {
        TaxFailure::UnknownMenuItem => e matches TaxError::ExemptionNotFound(m) && m@ == "Menu item not found"@,
        TaxFailure::InvalidRate(rate) => e == TaxError::InvalidTaxRate(rate),
        TaxFailure::Overflow => e matches TaxError::MoneyError(MoneyError::ArithmeticError(_)),
        TaxFailure::CurrencyMismatch(c) => e matches TaxError::MoneyError(
            MoneyError::CurrencyMismatch { expected, actual },
        ) && expected@ == currencies::USD@ && actual@ == c,
    }
}

/// The menu item is exempt under the exemption, where there is one.
pub open spec fn exempt_under(m: MenuItem, ex: Option<TaxExemption>) -> bool {
    ex matches Some(e) && item_exempt(m.name@, e.exemption_type)
}

/// The tax of an item with this pre-tax amount: nothing where exempt,
/// otherwise the rate's percentage of the amount; `None` where the rate is
/// not a percentage or the computation fails.
pub open spec fn item_tax_parts(pre: (i128, u32), rate: Decimal, exempt: bool) -> Option<(i128, u32)> {
    if exempt {
        Some((0i128, 0u32))
    } else if !rate_in_range(rate) {
        None
    } else {
        percentage_of(pre, rate)
    }
}

/// What the calculation of one order item gives.
pub enum ItemOutcome {
    /// The computation cannot go on (the subtotal cannot be formed).
    Panics,
    Fails(TaxFailure),
    /// Pre-tax amount and tax, as decimal parts.
    Calculated((i128, u32), (i128, u32)),
}

/// The calculation of one order item that is not voided.
pub open spec fn item_outcome(oi: OrderItem, ms: Seq<MenuItem>, ex: Option<TaxExemption>) -> ItemOutcome {
    match menu_item_for(ms, oi.menu_item_id) {
        None => ItemOutcome::Fails(TaxFailure::UnknownMenuItem),
        Some(m) => if !oi.has_subtotal() {
            ItemOutcome::Panics
        } else {
            let pre = oi.subtotal_parts().unwrap();
            match item_tax_parts(pre, m.tax_rate, exempt_under(m, ex)) {
                None => ItemOutcome::Fails(TaxFailure::InvalidRate(m.tax_rate)),
                Some(t) => if sum_of(pre, t) is None {
                    ItemOutcome::Fails(TaxFailure::Overflow)
                } else {
                    ItemOutcome::Calculated(pre, t)
                },
            }
        },
    }
}

/// The running subtotal and tax of the items so far, or how the pass stopped.
pub enum ItemPass {
    Panics,
    Fails(TaxFailure),
    Totals((i128, u32), (i128, u32)),
}

/// One step of the pass over the order items: voided items are passed
/// over; the others add their pre-tax amount to the subtotal and their tax to
/// the total tax, both kept in dollars.
pub open spec fn item_step(acc: ItemPass, oi: OrderItem, ms: Seq<MenuItem>, ex: Option<TaxExemption>) -> ItemPass {
    match acc {
        ItemPass::Totals(sub, tax) => if oi.status == OrderItemStatus::Voided {
            acc
        } else {
            match item_outcome(oi, ms, ex) {
                ItemOutcome::Panics => ItemPass::Panics,
                ItemOutcome::Fails(f) => ItemPass::Fails(f),
                ItemOutcome::Calculated(pre, t) => if oi.unit_price.cur() != currencies::USD@ {
                    ItemPass::Fails(TaxFailure::CurrencyMismatch(oi.unit_price.cur()))
                } else {
                    match (sum_of(sub, pre), sum_of(tax, t)) {
                        (Some(s2), Some(t2)) => ItemPass::Totals(s2, t2),
                        _ => ItemPass::Fails(TaxFailure::Overflow),
                    }
                },
            }
        },
        _ => acc,
    }
}

/// The pass over the order items, from zero dollars.
pub open spec fn item_pass(ois: Seq<OrderItem>, ms: Seq<MenuItem>, ex: Option<TaxExemption>) -> ItemPass
    decreases ois.len(),
{
    if ois.len() == 0 {
        ItemPass::Totals((0i128, 0u32), (0i128, 0u32))
    } else {
        item_step(item_pass(ois.drop_last(), ms, ex), ois.last(), ms, ex)
    }
}

/// The order items that are not voided, in order.
pub open spec fn counted(ois: Seq<OrderItem>) -> Seq<OrderItem>
    decreases ois.len(),
{
    if ois.len() == 0 {
        Seq::empty()
    } else if ois.last().status == OrderItemStatus::Voided {
        counted(ois.drop_last())
    } else {
        counted(ois.drop_last()).push(ois.last())
    }
}

/// `c` is the calculation of the order item `oi` for its menu item `m`.
pub open spec fn item_calculated(c: ItemTaxCalculation, oi: OrderItem, m: MenuItem, ex: Option<TaxExemption>) -> bool {
    let exempt = exempt_under(m, ex);
    let pre = oi.subtotal_parts().unwrap();
    let t = item_tax_parts(pre, m.tax_rate, exempt).unwrap();
    &&& c.item_id == oi.id
    &&& c.item_name@ == m.name@
    &&& parts_of(c.pre_tax_amount) == pre
    &&& parts_of(c.tax_amount) == t
    &&& parts_of(c.total_amount) == sum_of(pre, t).unwrap()
    &&& c.pre_tax_amount.cur() == oi.unit_price.cur()
    &&& c.tax_amount.cur() == oi.unit_price.cur()
    &&& c.total_amount.cur() == oi.unit_price.cur()
    &&& c.tax_rate == m.tax_rate
    &&& c.is_exempt == exempt
    &&& match ex {
        Some(e) => c.exemption_reason matches Some(r) && r@ == e.name@,
        None => c.exemption_reason is None,
    }
}

/// The calculations are those of the counted order items, one for one.
pub open spec fn items_calculated(
    cs: Seq<ItemTaxCalculation>,
    ois: Seq<OrderItem>,
    ms: Seq<MenuItem>,
    ex: Option<TaxExemption>,
) -> bool {
    &&& cs.len() == counted(ois).len()
    &&& forall|k: int|
        0 <= k < cs.len() ==> item_calculated(
            #[trigger] cs[k],
            counted(ois)[k],
            menu_item_for(ms, counted(ois)[k].menu_item_id).unwrap(),
            ex,
        )
}

proof fn lemma_item_pass_stops(ois: Seq<OrderItem>, ms: Seq<MenuItem>, ex: Option<TaxExemption>, i: int)
    requires
        0 <= i <= ois.len(),
        !(item_pass(ois.take(i), ms, ex) is Totals),
    ensures
        item_pass(ois, ms, ex) == item_pass(ois.take(i), ms, ex),
    decreases ois.len() - i,
{
    if i < ois.len() {
        assert(ois.take(i + 1).drop_last() =~= ois.take(i));
        lemma_item_pass_stops(ois, ms, ex, i + 1);
    } else {
        assert(ois.take(i) =~= ois);
    }
}

/// The menu item with this identifier, searching from the front.
fn find_menu_item(menu_items: &[MenuItem], id: Id) -> (r: Option<&MenuItem>)
    ensures
        r is None <==> menu_item_for(menu_items@, id) is None,
        r matches Some(m) ==> menu_item_for(menu_items@, id) == Some(*m),
        r matches Some(m) ==> exists|i: int| 0 <= i < menu_items@.len() && menu_items@[i] == *m,
{
    let ghost ms = menu_items@;
    let mut i: usize = 0;
    proof {
        assert(ms.skip(0) =~= ms);
    }
    while i < menu_items.len()
        invariant
            i <= ms.len(),
            ms == menu_items@,
            menu_item_for(ms, id) == menu_item_for(ms.skip(i as int), id),
        decreases menu_items.len() - i,
    {
        proof {
            assert(ms.skip(i as int)[0] == ms[i as int]);
            assert(ms.skip(i as int).drop_first() =~= ms.skip(i + 1));
        }
        if menu_items[i].id == id {
            return Some(&menu_items[i]);
        }
        i = i + 1;
    }
    proof {
        assert(ms.skip(i as int) =~= Seq::<MenuItem>::empty());
    }
    None
}

impl TaxEngine {
    /// The exemption an order is calculated under: the one with the given
    /// identifier, where the engine knows it.
    pub open spec fn chosen_exemption(self, exemption_id: Option<Id>) -> Option<TaxExemption> {
        match exemption_id {
            Some(id) => exemption_for(self.exemptions(), id),
            None => None,
        }
    }

    /// The calculation of one order item that is not voided; `None` where
    /// its subtotal cannot be formed.
    fn item_calculation(
        &self,
        order_item: &OrderItem,
        menu_items: &[MenuItem],
        exemption: Option<&TaxExemption>,
    ) -> (r: Option<TaxResult<ItemTaxCalculation>>)
        ensures
            ({
                let ex = match exemption {
                    Some(e) => Some(*e),
                    None => None,
                };
                match item_outcome(*order_item, menu_items@, ex) {
                    ItemOutcome::Panics => r is None,
                    ItemOutcome::Fails(f) => r matches Some(Err(e)) && fails_with(e, f),
                    ItemOutcome::Calculated(pre, t) => r matches Some(Ok(c)) && item_calculated(
                        c,
                        *order_item,
                        menu_item_for(menu_items@, order_item.menu_item_id).unwrap(),
                        ex,
                    ),
                }
            }),
            ({
                let ex = match exemption {
                    Some(e) => Some(*e),
                    None => None,
                };
                item_outcome(*order_item, menu_items@, ex) matches ItemOutcome::Fails(TaxFailure::InvalidRate(rate))
                    ==> !rate_in_range(rate) && exists|i: int| 0 <= i < menu_items@.len() && menu_items@[i].tax_rate == rate
            }),
    {
        let menu_item = match find_menu_item(menu_items, order_item.menu_item_id) {
            Some(m) => m,
            None => {
                return Some(Err(TaxError::ExemptionNotFound(String::from_str("Menu item not found"))));
            },
        };
        let pre_tax_amount = match order_item.checked_subtotal() {
            Some(m) => m,
            None => {
                return None;
            },
        };
        let is_exempt = match exemption {
            Some(e) => self.is_item_exempt(menu_item, e),
            None => false,
        };
        let tax_amount = if is_exempt {
            Money::zero(String::from_str(pre_tax_amount.currency()))
        } else {
            match self.calculate_item_tax(&pre_tax_amount, menu_item.tax_rate) {
                Ok(t) => t,
                Err(e) => {
                    return Some(Err(e));
                },
            }
        };
        let total_amount = match pre_tax_amount.add(&tax_amount) {
            Ok(t) => t,
            Err(e) => {
                return Some(Err(TaxError::MoneyError(e)));
            },
        };
        let exemption_reason = match exemption {
            Some(e) => Some(e.name.clone()),
            None => None,
        };
        Some(
            Ok(
                ItemTaxCalculation {
                    item_id: order_item.id,
                    item_name: menu_item.name.clone(),
                    pre_tax_amount,
                    tax_amount,
                    total_amount,
                    tax_rate: menu_item.tax_rate,
                    is_exempt,
                    exemption_reason,
                },
            ),
        )
    }
}


/// The pre-tax amounts of the counted order items that are not exempt, in
/// order.
pub open spec fn nonexempt_pre(ois: Seq<OrderItem>, ms: Seq<MenuItem>, ex: Option<TaxExemption>) -> Seq<(i128, u32)>
    decreases ois.len(),
{
    if ois.len() == 0 {
        Seq::empty()
    } else {
        let rest = nonexempt_pre(ois.drop_last(), ms, ex);
        let oi = ois.last();
        if oi.status == OrderItemStatus::Voided {
            rest
        } else {
            match menu_item_for(ms, oi.menu_item_id) {
                Some(m) => if exempt_under(m, ex) {
                    rest
                } else {
                    rest.push(oi.subtotal_parts().unwrap())
                },
                None => rest,
            }
        }
    }
}

/// The pre-tax amounts of the calculations that are not exempt, in order.
pub open spec fn nonexempt_amounts(cs: Seq<ItemTaxCalculation>) -> Seq<(i128, u32)>
    decreases cs.len(),
{
    if cs.len() == 0 {
        Seq::empty()
    } else if cs.last().is_exempt {
        nonexempt_amounts(cs.drop_last())
    } else {
        nonexempt_amounts(cs.drop_last()).push(parts_of(cs.last().pre_tax_amount))
    }
}

/// One jurisdiction's share of the total tax: the total times its rate,
/// divided by the sum of the rates; `None` where that fails or is negative.
pub open spec fn share_of(total: (i128, u32), rate: Decimal, rates: (i128, u32)) -> Option<(i128, u32)> {
    match product_of(total, dparts(rate)) {
        Some(p) => match crate::decimal::decimal_quotient(p.0, p.1, rates.0, rates.1) {
            Some(q) => if value_of(q) >= 0 {
                Some(q)
            } else {
                None
            },
            None => None,
        },
        None => None,
    }
}

/// The shares of these jurisdictions, computed by `share_of`.
pub open spec fn leading_shares(total: (i128, u32), js: Seq<TaxJurisdiction>, rates: (i128, u32)) -> Option<Seq<(i128, u32)>>
    decreases js.len(),
{
    if js.len() == 0 {
        Some(Seq::empty())
    } else {
        match (leading_shares(total, js.drop_last(), rates), share_of(total, js.last().tax_rate, rates)) {
            (Some(s), Some(x)) => Some(s.push(x)),
            _ => None,
        }
    }
}

/// The division of the total tax among the jurisdictions in proportion to
/// their rates: each but the last gets its share, and the last gets what is
/// left, so that the shares add up to the total. `None` where a computation
/// fails or the shares before the last exceed the total.
pub open spec fn allocation(total: (i128, u32), js: Seq<TaxJurisdiction>, rates: (i128, u32)) -> Option<Seq<(i128, u32)>> {
    if js.len() == 0 {
        Some(Seq::empty())
    } else {
        match leading_shares(total, js.drop_last(), rates) {
            None => None,
            Some(s) => match fold_sum(s) {
                None => None,
                Some(a) => if value_of(a) > value_of(total) {
                    None
                } else {
                    match difference_of(total, a) {
                        Some(l) => Some(s.push(l)),
                        None => None,
                    }
                },
            },
        }
    }
}

/// The jurisdictions paired with their shares, leaving out zero shares.
pub open spec fn nonzero_shares(js: Seq<TaxJurisdiction>, shares: Seq<(i128, u32)>) -> Seq<(TaxJurisdiction, (i128, u32))>
    decreases js.len(),
{
    if js.len() == 0 || shares.len() == 0 {
        Seq::empty()
    } else if value_of(shares.last()) != 0 {
        nonzero_shares(js.drop_last(), shares.drop_last()).push((js.last(), shares.last()))
    } else {
        nonzero_shares(js.drop_last(), shares.drop_last())
    }
}

/// How the breakdown by jurisdiction comes out.
pub enum BreakdownOutcome {
    /// The taxable amount cannot be added up.
    Panics,
    Fails,
    /// The jurisdictions with their nonzero shares, and the taxable amount.
    Lines(Seq<(TaxJurisdiction, (i128, u32))>, (i128, u32)),
}

/// The breakdown of the total tax among the jurisdictions that count: none
/// where there are none; otherwise each with the taxable amount (the
/// subtotal, or under an exemption the non-exempt pre-tax amounts) and its
/// share of the total tax, where the total tax and the sum of the rates are
/// not zero.
pub open spec fn breakdown_outcome(
    total: (i128, u32),
    subtotal: (i128, u32),
    nonexempt: Seq<(i128, u32)>,
    exempting: bool,
    js: Seq<TaxJurisdiction>,
) -> BreakdownOutcome {
    if js.len() == 0 {
        BreakdownOutcome::Lines(Seq::empty(), (0i128, 0u32))
    } else {
        let taxable = if exempting {
            fold_sum(nonexempt)
        } else {
            Some(subtotal)
        };
        match taxable {
            None => BreakdownOutcome::Panics,
            Some(tx) => match rate_total(js) {
                None => BreakdownOutcome::Fails,
                Some(rates) => if value_of(total) == 0 || value_of(rates) == 0 {
                    BreakdownOutcome::Lines(Seq::empty(), tx)
                } else {
                    match allocation(total, js, rates) {
                        None => BreakdownOutcome::Fails,
                        Some(shares) => BreakdownOutcome::Lines(nonzero_shares(js, shares), tx),
                    }
                },
            },
        }
    }
}

/// The breakdown lines are the jurisdictions with their shares, each with
/// the taxable amount, all in dollars.
pub open spec fn breakdown_lines(
    lines: Seq<TaxBreakdown>,
    picks: Seq<(TaxJurisdiction, (i128, u32))>,
    taxable: (i128, u32),
) -> bool {
    &&& lines.len() == picks.len()
    &&& forall|i: int|
        0 <= i < lines.len() ==> {
            &&& (#[trigger] lines[i]).jurisdiction_name@ == picks[i].0.name@
            &&& lines[i].tax_rate == picks[i].0.tax_rate
            &&& parts_of(lines[i].tax_amount) == picks[i].1
            &&& lines[i].tax_amount.cur() == currencies::USD@
            &&& parts_of(lines[i].taxable_amount) == taxable
            &&& lines[i].taxable_amount.cur() == currencies::USD@
        }
}

impl TaxEngine {
    /// What calculating the tax of the order at `date` gives: `None` where
    /// the computation cannot go on (an item's subtotal cannot be formed, or
    /// the taxable amount cannot be added up).
    pub open spec fn order_tax_result(
        self,
        ois: Seq<OrderItem>,
        ms: Seq<MenuItem>,
        exemption_id: Option<Id>,
        date: Timestamp,
        r: Option<TaxResult<OrderTaxCalculation>>,
    ) -> bool {
        let ex = self.chosen_exemption(exemption_id);
        match item_pass(ois, ms, ex) {
            ItemPass::Panics => r is None,
            ItemPass::Fails(f) => r matches Some(Err(e)) && fails_with(e, f),
            ItemPass::Totals(sub, t) => match breakdown_outcome(
                t,
                sub,
                nonexempt_pre(ois, ms, ex),
                ex is Some,
                applying_at(self.jurisdictions(), date),
            ) {
                BreakdownOutcome::Panics => r is None,
                BreakdownOutcome::Fails => r matches Some(Err(e)) && fails_with(e, TaxFailure::Overflow),
                BreakdownOutcome::Lines(picks, taxable) => match sum_of(sub, t) {
                    None => r matches Some(Err(e)) && fails_with(e, TaxFailure::Overflow),
                    Some(g) => r matches Some(Ok(calc)) && {
                        &&& items_calculated(calc.items@, ois, ms, ex)
                        &&& parts_of(calc.subtotal) == sub
                        &&& parts_of(calc.total_tax) == t
                        &&& parts_of(calc.grand_total) == g
                        &&& calc.subtotal.cur() == currencies::USD@
                        &&& calc.total_tax.cur() == currencies::USD@
                        &&& calc.grand_total.cur() == currencies::USD@
                        &&& breakdown_lines(calc.tax_breakdown@, picks, taxable)
                    },
                },
            },
        }
    }
}


/// The decimal parts of the amounts.
pub open spec fn amounts_parts(ms: Seq<Money>) -> Seq<(i128, u32)> {
    ms.map_values(|m: Money| parts_of(m))
}

/// The shares before the last can be added up, and taken from the total,
/// without rounding.
pub open spec fn allocation_exact(total: (i128, u32), js: Seq<TaxJurisdiction>, rates: (i128, u32)) -> bool {
    match leading_shares(total, js.drop_last(), rates) {
        Some(s) => fold_sum_is_exact(s) && (fold_sum(s) matches Some(a) ==> parts_difference_is_exact(total, a)),
        None => true,
    }
}

proof fn lemma_fold_exact_prefix(ps: Seq<(i128, u32)>, i: int)
    requires
        0 <= i <= ps.len(),
        fold_sum_is_exact(ps),
    ensures
        fold_sum_is_exact(ps.take(i)),
    decreases ps.len() - i,
{
    if i < ps.len() {
        lemma_fold_exact_prefix(ps, i + 1);
        assert(ps.take(i + 1).drop_last() =~= ps.take(i));
    } else {
        assert(ps.take(i) =~= ps);
    }
}

proof fn lemma_fold_sum_prefix(ps: Seq<(i128, u32)>, i: int)
    requires
        0 <= i <= ps.len(),
        fold_sum(ps.take(i)) is None,
    ensures
        fold_sum(ps) is None,
    decreases ps.len() - i,
{
    if i < ps.len() {
        assert(ps.take(i + 1).drop_last() =~= ps.take(i));
        lemma_fold_sum_prefix(ps, i + 1);
    } else {
        assert(ps.take(i) =~= ps);
    }
}

proof fn lemma_leading_shares_prefix(total: (i128, u32), js: Seq<TaxJurisdiction>, rates: (i128, u32), i: int)
    requires
        0 <= i <= js.len(),
        leading_shares(total, js.take(i), rates) is None,
    ensures
        leading_shares(total, js, rates) is None,
    decreases js.len() - i,
{
    if i < js.len() {
        assert(js.take(i + 1).drop_last() =~= js.take(i));
        lemma_leading_shares_prefix(total, js, rates, i + 1);
    } else {
        assert(js.take(i) =~= js);
    }
}

/// One jurisdiction's share of the total tax, in dollars.
fn share(total: &Money, rate: Decimal, rates: Decimal) -> (r: Option<Money>)
    requires
        total.cur() == currencies::USD@,
    ensures
        r is Some <==> share_of(parts_of(*total), rate, dparts(rates)) is Some,
        r matches Some(m) ==> parts_of(m) == share_of(parts_of(*total), rate, dparts(rates)).unwrap()
            && m.cur() == currencies::USD@,
{
    let amount = total.amount();
    let p = match checked_product(&amount, &rate) {
        Some(p) => p,
        None => {
            return None;
        },
    };
    let q = match checked_quotient(&p, &rates) {
        Some(q) => q,
        None => {
            return None;
        },
    };
    match Money::new(q, currencies::usd()) {
        Ok(m) => Some(m),
        Err(_) => None,
    }
}

/// The division of the total tax among the jurisdictions, in proportion to
/// their rates (see `allocation`).
fn allocate(total: &Money, js: &Vec<&TaxJurisdiction>, rates: Decimal) -> (r: Option<Vec<Money>>)
    requires
        total.cur() == currencies::USD@,
        js@.len() > 0,
    ensures
        ({
            let jur = js@.map_values(|j: &TaxJurisdiction| *j);
            &&& r is Some <==> allocation(parts_of(*total), jur, dparts(rates)) is Some
            &&& r matches Some(v) ==> amounts_parts(v@) == allocation(parts_of(*total), jur, dparts(rates)).unwrap()
                && forall|k: int| 0 <= k < v@.len() ==> (#[trigger] v@[k]).cur() == currencies::USD@
            &&& r matches Some(v) ==> (allocation_exact(parts_of(*total), jur, dparts(rates)) ==> values_sum(
                amounts_parts(v@),
            ) == total.value())
        }),
{
    let ghost jur = js@.map_values(|j: &TaxJurisdiction| *j);
    let ghost t = parts_of(*total);
    let ghost rp = dparts(rates);
    let n = js.len();
    let ghost lead = jur.take(n - 1);
    let mut shares: Vec<Money> = Vec::new();
    let mut allocated = Money::zero(currencies::usd());
    let mut k: usize = 0;
    proof {
        assert(jur.take(0) =~= Seq::<TaxJurisdiction>::empty());
        assert(amounts_parts(shares@) =~= Seq::<(i128, u32)>::empty());
        assert(jur.drop_last() =~= lead);
    }
    while k + 1 < n
        invariant
            n == js@.len(),
            n > 0,
            k + 1 <= n,
            jur == js@.map_values(|j: &TaxJurisdiction| *j),
            lead == jur.take(n - 1),
            t == parts_of(*total),
            rp == dparts(rates),
            total.cur() == currencies::USD@,
            leading_shares(t, jur.take(k as int), rp) == Some(amounts_parts(shares@)),
            fold_sum(amounts_parts(shares@)) == Some(parts_of(allocated)),
            fold_sum_is_exact(amounts_parts(shares@)) ==> allocated.value() == values_sum(amounts_parts(shares@)),
            allocation_exact(t, jur, rp) && leading_shares(t, lead, rp) is Some ==> fold_sum_is_exact(
                amounts_parts(shares@),
            ),
            allocated.cur() == currencies::USD@,
            forall|i: int| 0 <= i < shares@.len() ==> (#[trigger] shares@[i]).cur() == currencies::USD@,
        decreases n - k,
    {
        proof {
            assert(jur.take(k + 1).drop_last() =~= jur.take(k as int));
            assert(jur.take(k + 1).last() == *js@[k as int]);
        }
        let x = match share(total, js[k].tax_rate, rates) {
            Some(x) => x,
            None => {
                proof {
                    lemma_leading_shares_prefix(t, lead, rp, k + 1);
                    assert(lead.take(k + 1) =~= jur.take(k + 1));
                }
                return None;
            },
        };
        let ghost before = shares@;
        let next = match allocated.add(&x) {
            Ok(a) => a,
            Err(_) => {
                proof {
                    let pre = amounts_parts(before.push(x));
                    assert(pre =~= amounts_parts(before).push(parts_of(x)));
                    assert(pre.drop_last() =~= amounts_parts(before));
                    assert(fold_sum(pre) is None);
                    assert(leading_shares(t, jur.take(k + 1), rp) == Some(pre));
                    assert(lead.take(k + 1) =~= jur.take(k + 1));
                    if leading_shares(t, lead, rp) is Some {
                        lemma_leading_shares_take(t, lead, rp, k + 1);
                        lemma_fold_sum_prefix(leading_shares(t, lead, rp).unwrap(), k + 1);
                    }
                }
                return None;
            },
        };
        shares.push(x);
        allocated = next;
        proof {
            assert(amounts_parts(shares@) =~= amounts_parts(before).push(parts_of(x)));
            assert(amounts_parts(shares@).drop_last() =~= amounts_parts(before));
            assert(leading_shares(t, jur.take(k + 1), rp) == Some(amounts_parts(shares@)));
            if allocation_exact(t, jur, rp) && leading_shares(t, lead, rp) is Some {
                assert(lead.take(k + 1) =~= jur.take(k + 1));
                assert(jur.drop_last() =~= lead);
                lemma_leading_shares_take(t, lead, rp, k + 1);
                lemma_fold_exact_prefix(leading_shares(t, lead, rp).unwrap(), k + 1);
            }
        }
        k = k + 1;
    }
    proof {
        assert(jur.take(k as int) =~= lead);
    }
    let last = match total.subtract(&allocated) {
        Ok(l) => l,
        Err(_) => {
            return None;
        },
    };
    let ghost before = shares@;
    shares.push(last);
    proof {
        assert(amounts_parts(shares@) =~= amounts_parts(before).push(parts_of(last)));
        assert(amounts_parts(shares@).drop_last() =~= amounts_parts(before));
        assert(jur.drop_last() =~= lead);
    }
    Some(shares)
}

proof fn lemma_leading_shares_take(total: (i128, u32), js: Seq<TaxJurisdiction>, rates: (i128, u32), i: int)
    requires
        0 <= i <= js.len(),
        leading_shares(total, js, rates) is Some,
    ensures
        leading_shares(total, js, rates).unwrap().len() == js.len(),
        leading_shares(total, js.take(i), rates) == Some(leading_shares(total, js, rates).unwrap().take(i)),
    decreases js.len(),
{
    let s = leading_shares(total, js, rates).unwrap();
    if js.len() == 0 {
        assert(js.take(i) =~= js);
        assert(s.take(i) =~= s);
    } else {
        let init = js.drop_last();
        let s0 = leading_shares(total, init, rates).unwrap();
        if i == js.len() {
            lemma_leading_shares_take(total, init, rates, 0);
            assert(js.take(i) =~= js);
            assert(s.take(i) =~= s);
        } else {
            lemma_leading_shares_take(total, init, rates, i);
            assert(init.take(i) =~= js.take(i));
            assert(s0.take(i) =~= s.take(i));
        }
    }
}


/// The sum of the pre-tax amounts of the calculations that are not exempt,
/// from zero dollars; `None` where an addition fails.
fn nonexempt_total(items: &Vec<ItemTaxCalculation>) -> (r: Option<Money>)
    requires
        forall|k: int| 0 <= k < items@.len() ==> (#[trigger] items@[k]).pre_tax_amount.cur() == currencies::USD@,
    ensures
        r is Some <==> fold_sum(nonexempt_amounts(items@)) is Some,
        r matches Some(m) ==> parts_of(m) == fold_sum(nonexempt_amounts(items@)).unwrap() && m.cur()
            == currencies::USD@,
{
    let ghost cs = items@;
    let mut acc = Money::zero(currencies::usd());
    let mut i: usize = 0;
    proof {
        assert(cs.take(0) =~= Seq::<ItemTaxCalculation>::empty());
    }
    while i < items.len()
        invariant
            i <= cs.len(),
            cs == items@,
            forall|k: int| 0 <= k < cs.len() ==> (#[trigger] cs[k]).pre_tax_amount.cur() == currencies::USD@,
            fold_sum(nonexempt_amounts(cs.take(i as int))) == Some(parts_of(acc)),
            acc.cur() == currencies::USD@,
        decreases items.len() - i,
    {
        proof {
            assert(cs.take(i + 1).drop_last() =~= cs.take(i as int));
            assert(cs.take(i + 1).last() == cs[i as int]);
        }
        if !items[i].is_exempt {
            match acc.add(&items[i].pre_tax_amount) {
                Ok(next) => {
                    proof {
                        let pre = nonexempt_amounts(cs.take(i + 1));
                        assert(pre.drop_last() =~= nonexempt_amounts(cs.take(i as int)));
                    }
                    acc = next;
                },
                Err(_) => {
                    proof {
                        let pre = nonexempt_amounts(cs.take(i + 1));
                        assert(pre.drop_last() =~= nonexempt_amounts(cs.take(i as int)));
                        assert(fold_sum(pre) is None);
                        lemma_nonexempt_prefix_none(cs, i + 1);
                    }
                    return None;
                },
            }
        }
        i = i + 1;
    }
    proof {
        assert(cs.take(cs.len() as int) =~= cs);
    }
    Some(acc)
}

proof fn lemma_nonexempt_take(cs: Seq<ItemTaxCalculation>, i: int)
    requires
        0 <= i <= cs.len(),
    ensures
        nonexempt_amounts(cs.take(i)).len() <= nonexempt_amounts(cs).len(),
        nonexempt_amounts(cs.take(i)) == nonexempt_amounts(cs).take(nonexempt_amounts(cs.take(i)).len() as int),
    decreases cs.len(),
{
    if i == cs.len() {
        assert(cs.take(i) =~= cs);
        assert(nonexempt_amounts(cs).take(nonexempt_amounts(cs).len() as int) =~= nonexempt_amounts(cs));
    } else {
        let init = cs.drop_last();
        lemma_nonexempt_take(init, i);
        assert(init.take(i) =~= cs.take(i));
        let a = nonexempt_amounts(cs.take(i));
        if cs.last().is_exempt {
        } else {
            assert(nonexempt_amounts(init).take(a.len() as int) =~= nonexempt_amounts(cs).take(a.len() as int));
        }
    }
}

proof fn lemma_nonexempt_prefix_none(cs: Seq<ItemTaxCalculation>, i: int)
    requires
        0 <= i <= cs.len(),
        fold_sum(nonexempt_amounts(cs.take(i))) is None,
    ensures
        fold_sum(nonexempt_amounts(cs)) is None,
{
    lemma_nonexempt_take(cs, i);
    lemma_fold_sum_prefix(nonexempt_amounts(cs), nonexempt_amounts(cs.take(i)).len() as int);
}

/// The sum of the tax amounts of the breakdown lines.
pub open spec fn breakdown_total(lines: Seq<TaxBreakdown>) -> int
    decreases lines.len(),
{
    if lines.len() == 0 {
        0
    } else {
        breakdown_total(lines.drop_last()) + lines.last().tax_amount.value()
    }
}

/// The pre-tax amounts of the calculations, as decimal parts.
pub open spec fn pre_tax_parts(cs: Seq<ItemTaxCalculation>) -> Seq<(i128, u32)> {
    cs.map_values(|c: ItemTaxCalculation| parts_of(c.pre_tax_amount))
}

/// The tax amounts of the calculations, as decimal parts.
pub open spec fn tax_parts(cs: Seq<ItemTaxCalculation>) -> Seq<(i128, u32)> {
    cs.map_values(|c: ItemTaxCalculation| parts_of(c.tax_amount))
}

/// The total tax is divided among the jurisdictions (there are some, the
/// tax and the sum of their rates are not zero) without rounding.
pub open spec fn tax_divided_exactly(total: Money, js: Seq<TaxJurisdiction>) -> bool {
    &&& js.len() > 0
    &&& total.value() != 0
    &&& rate_total(js) matches Some(rt) && value_of(rt) != 0 && allocation_exact(parts_of(total), js, rt)
}

/// The totals of an order's tax calculation add up, wherever no rounding
/// is needed: the subtotal is the sum of the items' pre-tax amounts, the
/// total tax the sum of their taxes, the grand total the subtotal plus the
/// total tax, and the breakdown among the jurisdictions `js` sums to the
/// total tax.
pub open spec fn totals_add_up(calc: OrderTaxCalculation, js: Seq<TaxJurisdiction>) -> bool {
    &&& fold_sum_is_exact(pre_tax_parts(calc.items@)) ==> calc.subtotal.value() == values_sum(
        pre_tax_parts(calc.items@),
    )
    &&& fold_sum_is_exact(tax_parts(calc.items@)) ==> calc.total_tax.value() == values_sum(
        tax_parts(calc.items@),
    )
    &&& sum_is_exact(calc.subtotal.amt(), calc.total_tax.amt()) ==> calc.grand_total.value()
        == calc.subtotal.value() + calc.total_tax.value()
    &&& tax_divided_exactly(calc.total_tax, js) ==> breakdown_total(calc.tax_breakdown@)
        == calc.total_tax.value()
}

/// The breakdown lines for the jurisdictions with nonzero shares.
fn breakdown_of(js: &Vec<&TaxJurisdiction>, shares: &Vec<Money>, taxable: &Money) -> (r: Vec<TaxBreakdown>)
    requires
        js@.len() == shares@.len(),
        taxable.cur() == currencies::USD@,
        forall|k: int| 0 <= k < shares@.len() ==> (#[trigger] shares@[k]).cur() == currencies::USD@,
    ensures
        breakdown_lines(
            r@,
            nonzero_shares(js@.map_values(|j: &TaxJurisdiction| *j), amounts_parts(shares@)),
            parts_of(*taxable),
        ),
        breakdown_total(r@) == values_sum(amounts_parts(shares@)),
{
    let ghost jur = js@.map_values(|j: &TaxJurisdiction| *j);
    let ghost ps = amounts_parts(shares@);
    let mut lines: Vec<TaxBreakdown> = Vec::new();
    let mut k: usize = 0;
    proof {
        assert(jur.take(0) =~= Seq::<TaxJurisdiction>::empty());
    }
    while k < js.len()
        invariant
            k <= js@.len(),
            js@.len() == shares@.len(),
            jur == js@.map_values(|j: &TaxJurisdiction| *j),
            ps == amounts_parts(shares@),
            taxable.cur() == currencies::USD@,
            forall|i: int| 0 <= i < shares@.len() ==> (#[trigger] shares@[i]).cur() == currencies::USD@,
            breakdown_lines(lines@, nonzero_shares(jur.take(k as int), ps.take(k as int)), parts_of(*taxable)),
            breakdown_total(lines@) == values_sum(ps.take(k as int)),
        decreases js.len() - k,
    {
        proof {
            assert(jur.take(k + 1).drop_last() =~= jur.take(k as int));
            assert(ps.take(k + 1).drop_last() =~= ps.take(k as int));
            assert(jur.take(k + 1).last() == *js@[k as int]);
            assert(ps.take(k + 1).last() == parts_of(shares@[k as int]));
        }
        let ghost before = lines@;
        if !shares[k].is_zero() {
            lines.push(
                TaxBreakdown {
                    jurisdiction_name: js[k].name.clone(),
                    tax_rate: js[k].tax_rate,
                    taxable_amount: taxable.clone(),
                    tax_amount: shares[k].clone(),
                },
            );
            proof {
                assert(lines@.drop_last() =~= before);
            }
        }
        k = k + 1;
    }
    proof {
        assert(jur.take(k as int) =~= jur);
        assert(ps.take(k as int) =~= ps);
    }
    lines
}


impl TaxEngine {
    /// The tax of the order can be calculated at `date` without the
    /// computation getting stuck.
    pub open spec fn order_tax_computable(self, ois: Seq<OrderItem>, ms: Seq<MenuItem>, exemption_id: Option<Id>, date: Timestamp) -> bool {
        let ex = self.chosen_exemption(exemption_id);
        match item_pass(ois, ms, ex) {
            ItemPass::Panics => false,
            ItemPass::Fails(_) => true,
            ItemPass::Totals(sub, t) => !(breakdown_outcome(
                t,
                sub,
                nonexempt_pre(ois, ms, ex),
                ex is Some,
                applying_at(self.jurisdictions(), date),
            ) is Panics),
        }
    }

    /// The tax of the order at `date`: each item that is not voided is taxed
    /// at its menu item's rate (nothing where the exemption covers it), the
    /// subtotal and total tax are their sums, the grand total is their sum,
    /// and the total tax is divided among the jurisdictions that count at
    /// `date` in proportion to their rates. `None` where the computation
    /// gets stuck.
    pub fn checked_calculate_order_tax_at(
        &self,
        order_items: &[OrderItem],
        menu_items: &[MenuItem],
        exemption_id: Option<Id>,
        date: Timestamp,
    ) -> (r: Option<TaxResult<OrderTaxCalculation>>)
        ensures
            self.order_tax_result(order_items@, menu_items@, exemption_id, date, r),
            r matches Some(Ok(calc)) ==> totals_add_up(calc, applying_at(self.jurisdictions(), date)),
            item_pass(order_items@, menu_items@, self.chosen_exemption(exemption_id)) matches ItemPass::Fails(
                TaxFailure::InvalidRate(rate),
            ) ==> !rate_in_range(rate) && exists|i: int| 0 <= i < menu_items@.len() && menu_items@[i].tax_rate == rate,
    {
        let ghost ois = order_items@;
        let ghost ms = menu_items@;
        let ghost ex = self.chosen_exemption(exemption_id);
        let exemption: Option<&TaxExemption> = match exemption_id {
            Some(id) => self.find_exemption(id),
            None => None,
        };
        proof {
            assert(ex == match exemption {
                Some(e) => Some(*e),
                None => None::<TaxExemption>,
            });
        }
        let mut items: Vec<ItemTaxCalculation> = Vec::new();
        let mut subtotal = Money::zero(currencies::usd());
        let mut total_tax = Money::zero(currencies::usd());
        let mut i: usize = 0;
        proof {
            assert(ois.take(0) =~= Seq::<OrderItem>::empty());
        }
        while i < order_items.len()
            invariant
                i <= ois.len(),
                ois == order_items@,
                ms == menu_items@,
                ex == self.chosen_exemption(exemption_id),
                ex == match exemption {
                    Some(e) => Some(*e),
                    None => None::<TaxExemption>,
                },
                item_pass(ois.take(i as int), ms, ex) == ItemPass::Totals(parts_of(subtotal), parts_of(total_tax)),
                subtotal.cur() == currencies::USD@,
                total_tax.cur() == currencies::USD@,
                items_calculated(items@, ois.take(i as int), ms, ex),
                nonexempt_amounts(items@) == nonexempt_pre(ois.take(i as int), ms, ex),
                forall|k: int| 0 <= k < items@.len() ==> (#[trigger] items@[k]).pre_tax_amount.cur() == currencies::USD@,
                fold_sum(pre_tax_parts(items@)) == Some(parts_of(subtotal)),
                fold_sum(tax_parts(items@)) == Some(parts_of(total_tax)),
                fold_sum_is_exact(pre_tax_parts(items@)) ==> subtotal.value() == values_sum(pre_tax_parts(items@)),
                fold_sum_is_exact(tax_parts(items@)) ==> total_tax.value() == values_sum(tax_parts(items@)),
            decreases order_items.len() - i,
        {
            let ghost prefix = ois.take(i as int);
            let ghost next_prefix = ois.take(i + 1);
            proof {
                assert(next_prefix.drop_last() =~= prefix);
                assert(next_prefix.last() == ois[i as int]);
            }
            let order_item = &order_items[i];
            if order_item.status != OrderItemStatus::Voided {
                match self.item_calculation(order_item, menu_items, exemption) {
                    None => {
                        proof {
                            lemma_item_pass_stops(ois, ms, ex, i + 1);
                        }
                        return None;
                    },
                    Some(Err(e)) => {
                        proof {
                            lemma_item_pass_stops(ois, ms, ex, i + 1);
                        }
                        return Some(Err(e));
                    },
                    Some(Ok(calc)) => {
                        let next_subtotal = match subtotal.add(&calc.pre_tax_amount) {
                            Ok(m) => m,
                            Err(e) => {
                                proof {
                                    lemma_item_pass_stops(ois, ms, ex, i + 1);
                                }
                                return Some(Err(TaxError::MoneyError(e)));
                            },
                        };
                        let next_tax = match total_tax.add(&calc.tax_amount) {
                            Ok(m) => m,
                            Err(e) => {
                                proof {
                                    lemma_item_pass_stops(ois, ms, ex, i + 1);
                                }
                                return Some(Err(TaxError::MoneyError(e)));
                            },
                        };
                        let ghost before = items@;
                        items.push(calc);
                        subtotal = next_subtotal;
                        total_tax = next_tax;
                        proof {
                            assert(pre_tax_parts(items@) =~= pre_tax_parts(before).push(parts_of(items@.last().pre_tax_amount)));
                            assert(tax_parts(items@) =~= tax_parts(before).push(parts_of(items@.last().tax_amount)));
                            assert(pre_tax_parts(items@).drop_last() =~= pre_tax_parts(before));
                            assert(tax_parts(items@).drop_last() =~= tax_parts(before));
                            assert(counted(next_prefix) =~= counted(prefix).push(ois[i as int]));
                            assert(items@.drop_last() =~= before);
                            assert forall|k: int| 0 <= k < items@.len() implies item_calculated(
                                #[trigger] items@[k],
                                counted(next_prefix)[k],
                                menu_item_for(ms, counted(next_prefix)[k].menu_item_id).unwrap(),
                                ex,
                            ) by {
                                if k < before.len() {
                                    assert(items@[k] == before[k]);
                                    assert(counted(next_prefix)[k] == counted(prefix)[k]);
                                }
                            }
                        }
                    },
                }
            } else {
                proof {
                    assert(counted(next_prefix) =~= counted(prefix));
                }
            }
            i = i + 1;
        }
        proof {
            assert(ois.take(ois.len() as int) =~= ois);
        }
        let active = self.get_active_jurisdictions_at(date);
        let ghost jur = applying_at(self.jurisdictions(), date);
        proof {
            assert(active@.map_values(|j: &TaxJurisdiction| *j) =~= jur);
        }
        let mut tax_breakdown: Vec<TaxBreakdown> = Vec::new();
        if active.len() > 0 {
            let taxable = match exemption {
                Some(_) => match nonexempt_total(&items) {
                    Some(t) => t,
                    None => {
                        return None;
                    },
                },
                None => subtotal.clone(),
            };
            let rates = match self.checked_get_effective_tax_rate(date) {
                Some(d) => d,
                None => {
                    return Some(Err(TaxError::MoneyError(MoneyError::ArithmeticError(String::from_str("Addition overflowed")))));
                },
            };
            if !total_tax.is_zero() && compare(&rates, &Decimal::zero()) != 0 {
                let shares = match allocate(&total_tax, &active, rates) {
                    Some(v) => v,
                    None => {
                        return Some(Err(TaxError::MoneyError(MoneyError::ArithmeticError(String::from_str("Tax allocation failed")))));
                    },
                };
                proof {
                    assert(shares@.len() == active@.len()) by {
                        assert(amounts_parts(shares@).len() == shares@.len());
                        lemma_leading_shares_take(parts_of(total_tax), jur.drop_last(), dparts(rates), 0);
                    }
                }
                tax_breakdown = breakdown_of(&active, &shares, &taxable);
            }
        }
        let grand_total = match subtotal.add(&total_tax) {
            Ok(g) => g,
            Err(e) => {
                return Some(Err(TaxError::MoneyError(e)));
            },
        };
        Some(Ok(OrderTaxCalculation { items, subtotal, total_tax, grand_total, tax_breakdown }))
    }
}


impl TaxEngine {
    /// The tax of the order at `date`, where the computation does not get
    /// stuck (see `checked_calculate_order_tax_at`).
    pub fn calculate_order_tax_at(
        &self,
        order_items: &[OrderItem],
        menu_items: &[MenuItem],
        exemption_id: Option<Id>,
        date: Timestamp,
    ) -> (r: TaxResult<OrderTaxCalculation>)
        requires
            self.order_tax_computable(order_items@, menu_items@, exemption_id, date),
        ensures
            self.order_tax_result(order_items@, menu_items@, exemption_id, date, Some(r)),
            r matches Ok(calc) ==> totals_add_up(calc, applying_at(self.jurisdictions(), date)),
            item_pass(order_items@, menu_items@, self.chosen_exemption(exemption_id)) matches ItemPass::Fails(
                TaxFailure::InvalidRate(rate),
            ) ==> !rate_in_range(rate) && exists|i: int| 0 <= i < menu_items@.len() && menu_items@[i].tax_rate == rate,
    {
        match self.checked_calculate_order_tax_at(order_items, menu_items, exemption_id, date) {
            Some(r) => r,
            None => {
                proof {
                    assert(false);
                }
                Err(TaxError::JurisdictionNotFound(String::new()))
            },
        }
    }

    /// The tax of the order now; `None` where the computation gets stuck.
    pub fn checked_calculate_order_tax(
        &self,
        order_items: &[OrderItem],
        menu_items: &[MenuItem],
        exemption_id: Option<Id>,
    ) -> (r: Option<TaxResult<OrderTaxCalculation>>)
        ensures
            exists|date: Timestamp|
                self.order_tax_result(order_items@, menu_items@, exemption_id, date, r) && (r matches Some(
                    Ok(calc),
                ) ==> totals_add_up(calc, applying_at(self.jurisdictions(), date))),
            item_pass(order_items@, menu_items@, self.chosen_exemption(exemption_id)) matches ItemPass::Fails(
                TaxFailure::InvalidRate(rate),
            ) ==> !rate_in_range(rate) && exists|i: int| 0 <= i < menu_items@.len() && menu_items@[i].tax_rate == rate,
    {
        let date = now();
        self.checked_calculate_order_tax_at(order_items, menu_items, exemption_id, date)
    }

    /// The tax of the order now, with the breakdown among the jurisdictions
    /// in force now.
    pub fn calculate_order_tax(
        &self,
        order_items: &[OrderItem],
        menu_items: &[MenuItem],
        exemption_id: Option<Id>,
    ) -> (r: TaxResult<OrderTaxCalculation>)
        requires
            forall|date: Timestamp| self.order_tax_computable(order_items@, menu_items@, exemption_id, date),
        ensures
            exists|date: Timestamp|
                self.order_tax_result(order_items@, menu_items@, exemption_id, date, Some(r)) && (r matches Ok(
                    calc,
                ) ==> totals_add_up(calc, applying_at(self.jurisdictions(), date))),
            item_pass(order_items@, menu_items@, self.chosen_exemption(exemption_id)) matches ItemPass::Fails(
                TaxFailure::InvalidRate(rate),
            ) ==> !rate_in_range(rate) && exists|i: int| 0 <= i < menu_items@.len() && menu_items@[i].tax_rate == rate,
    {
        let date = now();
        assert(self.order_tax_computable(order_items@, menu_items@, exemption_id, date));
        self.calculate_order_tax_at(order_items, menu_items, exemption_id, date)
    }

    /// An engine with the usual jurisdictions (state 6.5%, city 2.0% and a
    /// special district 0.5%) and two exemptions (a resale certificate and a
    /// non-profit exemption).
    pub fn initialize_default() -> (e: TaxEngine)
        ensures
            e.jurisdictions().len() == 3,
            e.jurisdictions()[0].name@ == "State Tax"@ && e.jurisdictions()[0].code@ == "STATE"@
                && e.jurisdictions()[0].tax_rate.mant() == 65 && e.jurisdictions()[0].tax_rate.sc() == 1,
            e.jurisdictions()[1].name@ == "City Tax"@ && e.jurisdictions()[1].code@ == "CITY"@
                && e.jurisdictions()[1].tax_rate.mant() == 20 && e.jurisdictions()[1].tax_rate.sc() == 1,
            e.jurisdictions()[2].name@ == "Special District"@ && e.jurisdictions()[2].code@ == "SPECIAL"@
                && e.jurisdictions()[2].tax_rate.mant() == 5 && e.jurisdictions()[2].tax_rate.sc() == 1,
            forall|i: int|
                0 <= i < 3 ==> (#[trigger] e.jurisdictions()[i]).is_active && e.jurisdictions()[i].expiry_date is None
                    && e.jurisdictions()[i].effective_date == e.jurisdictions()[i].created_at
                    && e.jurisdictions()[i].updated_at == e.jurisdictions()[i].created_at,
            forall|i: int| 0 <= i < 2 ==> (#[trigger] e.exemptions()[i]).created_at == e.exemptions()[i].updated_at,
            e.exemptions().len() == 2,
            e.exemptions()[0].name@ == "Resale Certificate"@ && e.exemptions()[0].exemption_type
                == TaxExemptionType::Resale,
            e.exemptions()[0].certificate_number is Some && e.exemptions()[0].certificate_number.unwrap()@
                == "RES-12345"@,
            e.exemptions()[1].name@ == "Non-Profit Exemption"@ && e.exemptions()[1].exemption_type
                == TaxExemptionType::NonProfit,
            e.exemptions()[1].certificate_number is Some && e.exemptions()[1].certificate_number.unwrap()@
                == "NP-67890"@,
            forall|i: int| 0 <= i < 2 ==> (#[trigger] e.exemptions()[i]).is_active,
    {
        let mut engine = TaxEngine::new();
        proof {
            crate::decimal::lemma_pow10_positive(27);
            assert(crate::decimal::pow10(28) == 10 * crate::decimal::pow10(27));
        }
        let state = TaxJurisdiction::new(String::from_str("State Tax"), String::from_str("STATE"), Decimal::new(65, 1));
        let city = TaxJurisdiction::new(String::from_str("City Tax"), String::from_str("CITY"), Decimal::new(20, 1));
        let special = TaxJurisdiction::new(
            String::from_str("Special District"),
            String::from_str("SPECIAL"),
            Decimal::new(5, 1),
        );
        match (state, city, special) {
            (Ok(a), Ok(b), Ok(c)) => {
                engine.add_jurisdiction(a);
                engine.add_jurisdiction(b);
                engine.add_jurisdiction(c);
            },
            _ => {
                proof {
                    assert(false);
                }
            },
        }
        engine.add_exemption(
            TaxExemption::new(
                String::from_str("Resale Certificate"),
                TaxExemptionType::Resale,
                Some(String::from_str("RES-12345")),
            ),
        );
        engine.add_exemption(
            TaxExemption::new(
                String::from_str("Non-Profit Exemption"),
                TaxExemptionType::NonProfit,
                Some(String::from_str("NP-67890")),
            ),
        );
        engine
    }
}

/// An exemption identifier the engine does not know acts as no exemption:
/// the calculation is the one without an exemption, and no item is exempt or
/// carries an exemption reason.
pub proof fn lemma_unknown_exemption_is_none(
    engine: TaxEngine,
    ois: Seq<OrderItem>,
    ms: Seq<MenuItem>,
    id: Id,
    date: Timestamp,
    r: Option<TaxResult<OrderTaxCalculation>>,
)
    requires
        exemption_for(engine.exemptions(), id) is None,
    ensures
        engine.order_tax_result(ois, ms, Some(id), date, r) == engine.order_tax_result(ois, ms, None, date, r),
        engine.order_tax_result(ois, ms, Some(id), date, r) ==> (r matches Some(Ok(calc)) ==> forall|k: int|
            0 <= k < calc.items@.len() ==> !(#[trigger] calc.items@[k]).is_exempt && calc.items@[k].exemption_reason is None),
{
    assert(engine.chosen_exemption(Some(id)) == engine.chosen_exemption(None));
    if engine.order_tax_result(ois, ms, Some(id), date, r) {
        if let Some(Ok(calc)) = r {
            assert forall|k: int| 0 <= k < calc.items@.len() implies !(#[trigger] calc.items@[k]).is_exempt
                && calc.items@[k].exemption_reason is None by {
                assert(item_calculated(
                    calc.items@[k],
                    counted(ois)[k],
                    menu_item_for(ms, counted(ois)[k].menu_item_id).unwrap(),
                    None,
                ));
            }
        }
    }
}

/// Adding a jurisdiction adds its rate to the effective rate at every date
/// at which it counts, and leaves the effective rate as it was at the others.
pub proof fn lemma_effective_rate_after_adding(before: TaxEngine, after: TaxEngine, j: TaxJurisdiction, date: Timestamp)
    requires
        after.jurisdictions() == before.jurisdictions().push(j),
    ensures
        rate_total(applying_at(after.jurisdictions(), date)) == if j.applies_at(date) {
            match rate_total(applying_at(before.jurisdictions(), date)) {
                Some(t) => sum_of(t, dparts(j.tax_rate)),
                None => None,
            }
        } else {
            rate_total(applying_at(before.jurisdictions(), date))
        },
{
    let js = after.jurisdictions();
    assert(js.drop_last() =~= before.jurisdictions());
    if j.applies_at(date) {
        let a = applying_at(js, date);
        assert(a.drop_last() =~= applying_at(before.jurisdictions(), date));
    }
}

/// An exemption for resale, a non-profit or the government covers the whole
/// order: whatever their names, every item of the calculation is marked
/// exempt, carries no tax and gives the exemption's name as the reason.
pub proof fn lemma_blanket_exemption(
    engine: TaxEngine,
    ois: Seq<OrderItem>,
    ms: Seq<MenuItem>,
    id: Id,
    date: Timestamp,
    r: Option<TaxResult<OrderTaxCalculation>>,
)
    requires
        engine.order_tax_result(ois, ms, Some(id), date, r),
        exemption_for(engine.exemptions(), id) matches Some(e) && (e.exemption_type == TaxExemptionType::Resale
            || e.exemption_type == TaxExemptionType::NonProfit || e.exemption_type
            == TaxExemptionType::Government),
    ensures
        r matches Some(Ok(calc)) ==> forall|k: int|
            0 <= k < calc.items@.len() ==> (#[trigger] calc.items@[k]).is_exempt && parts_of(
                calc.items@[k].tax_amount,
            ) == (0i128, 0u32) && calc.items@[k].tax_amount.value() == 0 && (calc.items@[k].exemption_reason
                matches Some(n) && n@ == exemption_for(engine.exemptions(), id).unwrap().name@),
{
    let ex = engine.chosen_exemption(Some(id));
    if let Some(Ok(calc)) = r {
        assert forall|k: int| 0 <= k < calc.items@.len() implies (#[trigger] calc.items@[k]).is_exempt
            && parts_of(calc.items@[k].tax_amount) == (0i128, 0u32) && calc.items@[k].tax_amount.value() == 0
            && (calc.items@[k].exemption_reason matches Some(n) && n@ == exemption_for(
            engine.exemptions(),
            id,
        ).unwrap().name@) by {
            assert(item_calculated(
                calc.items@[k],
                counted(ois)[k],
                menu_item_for(ms, counted(ois)[k].menu_item_id).unwrap(),
                ex,
            ));
        }
    }
}

/// Which items an exemption covers, by its kind, read from each item's name
/// in lower case: under an agricultural exemption exactly the items whose
/// names mention seed or feed, under a manufacturing exemption exactly those
/// whose names mention raw goods or ingredients, under any other kind none.
/// An item that is covered carries no tax.
pub proof fn lemma_exemption_by_kind(
    engine: TaxEngine,
    ois: Seq<OrderItem>,
    ms: Seq<MenuItem>,
    id: Id,
    date: Timestamp,
    r: Option<TaxResult<OrderTaxCalculation>>,
)
    requires
        engine.order_tax_result(ois, ms, Some(id), date, r),
        exemption_for(engine.exemptions(), id) is Some,
    ensures
        r matches Some(Ok(calc)) ==> forall|k: int|
            0 <= k < calc.items@.len() ==> {
                let c = #[trigger] calc.items@[k];
                let name = lowercase_text(c.item_name@);
                let kind = exemption_for(engine.exemptions(), id).unwrap().exemption_type;
                &&& kind == TaxExemptionType::Agricultural ==> (c.is_exempt <==> (contains_text(name, "seed"@)
                    || contains_text(name, "feed"@)))
                &&& kind == TaxExemptionType::Manufacturing ==> (c.is_exempt <==> (contains_text(name, "raw"@)
                    || contains_text(name, "ingredient"@)))
                &&& kind == TaxExemptionType::Other ==> !c.is_exempt
                &&& c.is_exempt ==> parts_of(c.tax_amount) == (0i128, 0u32)
            },
{
    let ex = engine.chosen_exemption(Some(id));
    if let Some(Ok(calc)) = r {
        assert forall|k: int| 0 <= k < calc.items@.len() implies {
            let c = #[trigger] calc.items@[k];
            let name = lowercase_text(c.item_name@);
            let kind = exemption_for(engine.exemptions(), id).unwrap().exemption_type;
            &&& kind == TaxExemptionType::Agricultural ==> (c.is_exempt <==> (contains_text(name, "seed"@)
                || contains_text(name, "feed"@)))
            &&& kind == TaxExemptionType::Manufacturing ==> (c.is_exempt <==> (contains_text(name, "raw"@)
                || contains_text(name, "ingredient"@)))
            &&& kind == TaxExemptionType::Other ==> !c.is_exempt
            &&& c.is_exempt ==> parts_of(c.tax_amount) == (0i128, 0u32)
        } by {
            assert(item_calculated(
                calc.items@[k],
                counted(ois)[k],
                menu_item_for(ms, counted(ois)[k].menu_item_id).unwrap(),
                ex,
            ));
        }
    }
}

/// Without an exemption no item is exempt or carries an exemption reason.
pub proof fn lemma_no_exemption_taxes_all(
    engine: TaxEngine,
    ois: Seq<OrderItem>,
    ms: Seq<MenuItem>,
    date: Timestamp,
    r: Option<TaxResult<OrderTaxCalculation>>,
)
    requires
        engine.order_tax_result(ois, ms, None, date, r),
    ensures
        r matches Some(Ok(calc)) ==> forall|k: int|
            0 <= k < calc.items@.len() ==> !(#[trigger] calc.items@[k]).is_exempt
                && calc.items@[k].exemption_reason is None,
{
    if let Some(Ok(calc)) = r {
        assert forall|k: int| 0 <= k < calc.items@.len() implies !(#[trigger] calc.items@[k]).is_exempt
            && calc.items@[k].exemption_reason is None by {
            assert(item_calculated(
                calc.items@[k],
                counted(ois)[k],
                menu_item_for(ms, counted(ois)[k].menu_item_id).unwrap(),
                None,
            ));
        }
    }
}

} // verus!
