//! Domain models of the restaurant: tables, menu items, orders and their
//! items, staff and payments, with the state machines that govern them.
use vstd::prelude::*;
use vstd::string::*;
use crate::currencies;
use crate::decimal::{
    lemma_fits_smaller_factor, lemma_rescaled_mantissa, parts_sum_is_exact, sum_is_exact, fits, lemma_pow10_positive, pow10, product_is_exact, unit, Decimal, MAX_SCALE,
};
use crate::ids::{new_id, Id};
use crate::money::{
    parts_of, percentage_is_exact, percentage_of, product_of, sum_of, Money,
};
use crate::time::{now, Timestamp};

verus! {

/// Status of a table.
#[derive(Debug, Clone, Copy, PartialEq, Eq, Structural, Hash)]
pub enum TableStatus {
    Empty,
    Occupied,
    Dirty,
    Reserved,
}

impl TableStatus {
    /// The variant's name, as `Debug` prints it.
    pub open spec fn name(self) -> Seq<char> {
        match self {
            TableStatus::Empty => "Empty"@,
            TableStatus::Occupied => "Occupied"@,
            TableStatus::Dirty => "Dirty"@,
            TableStatus::Reserved => "Reserved"@,
        }
    }

    fn text(&self) -> (s: String)
        ensures
            s@ == self.name(),
    {
        match self {
            TableStatus::Empty => String::from_str("Empty"),
            TableStatus::Occupied => String::from_str("Occupied"),
            TableStatus::Dirty => String::from_str("Dirty"),
            TableStatus::Reserved => String::from_str("Reserved"),
        }
    }
}

impl Default for TableStatus {
    fn default() -> (s: TableStatus)
        ensures
            s == TableStatus::Empty,
    {
        TableStatus::Empty
    }
}

/// The message `"<prefix><status name>"`.
fn status_message(prefix: &str, name: String) -> (s: String)
    ensures
        s@ == prefix@ + name@,
{
    let mut s = String::from_str(prefix);
    s.append(name.as_str());
    s
}

/// A restaurant table.
#[derive(Debug, Clone)]
pub struct Table {
    pub id: Id,
    pub number: i32,
    pub capacity: i32,
    pub status: TableStatus,
    pub location: Option<String>,
    pub created_at: Timestamp,
    pub updated_at: Timestamp,
}

/// `after` is `before` with another status and update time only.
pub open spec fn table_moved(before: Table, after: Table, status: TableStatus) -> bool {
    &&& after.status == status
    &&& after.id == before.id
    &&& after.number == before.number
    &&& after.capacity == before.capacity
    &&& after.location == before.location
    &&& after.created_at == before.created_at
}

impl Table {
    /// A new, empty table.
    pub fn new(number: i32, capacity: i32, location: Option<String>) -> (t: Table)
        ensures
            t.number == number,
            t.capacity == capacity,
            t.status == TableStatus::Empty,
            t.location == location,
            t.created_at == t.updated_at,
    {
        let now = now();
        Table {
            id: new_id(),
            number,
            capacity,
            status: TableStatus::Empty,
            location,
            created_at: now,
            updated_at: now,
        }
    }

    /// Seat guests at an empty or dirty table.
    pub fn occupy(&mut self) -> (r: Result<(), String>)
        ensures
            match old(self).status {
                TableStatus::Empty | TableStatus::Dirty => r is Ok && table_moved(
                    *old(self),
                    *final(self),
                    TableStatus::Occupied,
                ),
                _ => r matches Err(msg) && msg@ == "Cannot occupy table in status: "@
                    + old(self).status.name() && *final(self) == *old(self),
            },
    {
        match self.status {
            TableStatus::Empty | TableStatus::Dirty => {
                self.status = TableStatus::Occupied;
                self.updated_at = now();
                Ok(())
            },
            _ => Err(status_message("Cannot occupy table in status: ", self.status.text())),
        }
    }

    /// The guests have left: an occupied table becomes dirty.
    pub fn clear(&mut self) -> (r: Result<(), String>)
        ensures
            match old(self).status {
                TableStatus::Occupied => r is Ok && table_moved(
                    *old(self),
                    *final(self),
                    TableStatus::Dirty,
                ),
                _ => r matches Err(msg) && msg@ == "Cannot clear table in status: "@
                    + old(self).status.name() && *final(self) == *old(self),
            },
    {
        match self.status {
            TableStatus::Occupied => {
                self.status = TableStatus::Dirty;
                self.updated_at = now();
                Ok(())
            },
            _ => Err(status_message("Cannot clear table in status: ", self.status.text())),
        }
    }

    /// A dirty table has been cleaned and is empty again.
    pub fn clean(&mut self) -> (r: Result<(), String>)
        ensures
            match old(self).status {
                TableStatus::Dirty => r is Ok && table_moved(
                    *old(self),
                    *final(self),
                    TableStatus::Empty,
                ),
                _ => r matches Err(msg) && msg@ == "Cannot clean table in status: "@
                    + old(self).status.name() && *final(self) == *old(self),
            },
    {
        match self.status {
            TableStatus::Dirty => {
                self.status = TableStatus::Empty;
                self.updated_at = now();
                Ok(())
            },
            _ => Err(status_message("Cannot clean table in status: ", self.status.text())),
        }
    }
}


/// Status of an order item.
#[derive(Debug, Clone, Copy, PartialEq, Eq, Structural, Hash)]
pub enum OrderItemStatus {
    Pending,
    Fired,
    Ready,
    Delivered,
    Voided,
}

impl OrderItemStatus {
    /// The variant's name, as `Debug` prints it.
    pub open spec fn name(self) -> Seq<char> {
        match self {
            OrderItemStatus::Pending => "Pending"@,
            OrderItemStatus::Fired => "Fired"@,
            OrderItemStatus::Ready => "Ready"@,
            OrderItemStatus::Delivered => "Delivered"@,
            OrderItemStatus::Voided => "Voided"@,
        }
    }

    fn text(&self) -> (s: String)
        ensures
            s@ == self.name(),
    {
        match self {
            OrderItemStatus::Pending => String::from_str("Pending"),
            OrderItemStatus::Fired => String::from_str("Fired"),
            OrderItemStatus::Ready => String::from_str("Ready"),
            OrderItemStatus::Delivered => String::from_str("Delivered"),
            OrderItemStatus::Voided => String::from_str("Voided"),
        }
    }
}

/// A line of an order: some quantity of one menu item.
#[derive(Debug, Clone)]
pub struct OrderItem {
    pub id: Id,
    pub order_id: Id,
    pub menu_item_id: Id,
    pub quantity: i32,
    pub unit_price: Money,
    pub status: OrderItemStatus,
    pub notes: Option<String>,
    pub void_reason: Option<String>,
    pub void_by: Option<Id>,
    pub created_at: Timestamp,
    pub updated_at: Timestamp,
}

/// `after` is `before` with another status and update time only.
pub open spec fn item_moved(before: OrderItem, after: OrderItem, status: OrderItemStatus) -> bool {
    &&& after.status == status
    &&& after.id == before.id
    &&& after.order_id == before.order_id
    &&& after.menu_item_id == before.menu_item_id
    &&& after.quantity == before.quantity
    &&& after.unit_price == before.unit_price
    &&& after.notes == before.notes
    &&& after.created_at == before.created_at
}

/// The decimal of an integer quantity (scale 0).
pub open spec fn quantity_parts(q: i32) -> (i128, u32) {
    (q as i128, 0u32)
}

impl OrderItem {
    /// What the subtotal computation gives: unit price times quantity.
    pub open spec fn subtotal_parts(self) -> Option<(i128, u32)> {
        product_of(parts_of(self.unit_price), quantity_parts(self.quantity))
    }

    /// The subtotal can be computed: the quantity is not negative and the
    /// product can be represented.
    pub open spec fn has_subtotal(self) -> bool {
        self.quantity >= 0 && self.subtotal_parts() is Some
    }

    /// Unit price times quantity needs no rounding.
    pub open spec fn subtotal_is_exact(self) -> bool {
        fits(self.unit_price.amt().mant() * self.quantity)
    }

    /// A new pending item.
    pub fn new(order_id: Id, menu_item_id: Id, quantity: i32, unit_price: Money) -> (i: OrderItem)
        ensures
            i.order_id == order_id,
            i.menu_item_id == menu_item_id,
            i.quantity == quantity,
            i.unit_price == unit_price,
            i.status == OrderItemStatus::Pending,
            i.notes is None,
            i.void_reason is None,
            i.void_by is None,
            i.created_at == i.updated_at,
    {
        let now = now();
        OrderItem {
            id: new_id(),
            order_id,
            menu_item_id,
            quantity,
            unit_price,
            status: OrderItemStatus::Pending,
            notes: None,
            void_reason: None,
            void_by: None,
            created_at: now,
            updated_at: now,
        }
    }

    /// Unit price times quantity, or `None` where that computation fails.
    pub fn checked_subtotal(&self) -> (r: Option<Money>)
        ensures
            r is Some <==> self.has_subtotal(),
            r matches Some(m) ==> parts_of(m) == self.subtotal_parts().unwrap() && m.cur()
                == self.unit_price.cur(),
            r matches Some(m) ==> (self.subtotal_is_exact() ==> m.value() == self.unit_price.value()
                * self.quantity),
    {
        let q = Decimal::from_i32(self.quantity);
        let price = self.unit_price.amount();
        proof {
            use_type_invariant(&price);
            lemma_pow10_positive(28);
            assert((self.quantity < 0) == (self.quantity * unit() < 0)) by (nonlinear_arith)
                requires
                    unit() > 0,
            ;
        }
        match self.unit_price.multiply(q) {
            Ok(m) => {
                proof {
                    if product_is_exact(self.unit_price.amt(), q) {
                        let pm = self.unit_price.amt().mant() as int;
                        let e = pow10((28 - self.unit_price.amt().sc()) as nat);
                        assert(pm * (self.quantity as int) * e == (pm * e) * (self.quantity as int))
                            by (nonlinear_arith);
                    }
                }
                Some(m)
            },
            Err(_) => None,
        }
    }

    /// Unit price times quantity.
    pub fn subtotal(&self) -> (m: Money)
        requires
            self.has_subtotal(),
        ensures
            parts_of(m) == self.subtotal_parts().unwrap(),
            m.cur() == self.unit_price.cur(),
            self.subtotal_is_exact() ==> m.value() == self.unit_price.value() * self.quantity,
    {
        match self.checked_subtotal() {
            Some(m) => m,
            None => {
                proof {
                    assert(false);
                }
                Money::zero(String::new())
            },
        }
    }

    /// Send a pending item to the kitchen.
    pub fn fire(&mut self) -> (r: Result<(), String>)
        ensures
            match old(self).status {
                OrderItemStatus::Pending => r is Ok && item_moved(
                    *old(self),
                    *final(self),
                    OrderItemStatus::Fired,
                ) && final(self).void_reason == old(self).void_reason && final(self).void_by
                    == old(self).void_by,
                _ => r matches Err(msg) && msg@ == "Cannot fire item in status: "@
                    + old(self).status.name() && *final(self) == *old(self),
            },
    {
        match self.status {
            OrderItemStatus::Pending => {
                self.status = OrderItemStatus::Fired;
                self.updated_at = now();
                Ok(())
            },
            _ => Err(status_message("Cannot fire item in status: ", self.status.text())),
        }
    }

    /// Void a pending or fired item, recording why and by whom.
    pub fn void(&mut self, reason: String, voided_by: Id) -> (r: Result<(), String>)
        ensures
            match old(self).status {
                OrderItemStatus::Pending | OrderItemStatus::Fired => r is Ok && item_moved(
                    *old(self),
                    *final(self),
                    OrderItemStatus::Voided,
                ) && final(self).void_reason == Some(reason) && final(self).void_by == Some(
                    voided_by,
                ),
                _ => r matches Err(msg) && msg@ == "Cannot void item in status: "@
                    + old(self).status.name() && *final(self) == *old(self),
            },
    {
        match self.status {
            OrderItemStatus::Pending | OrderItemStatus::Fired => {
                self.status = OrderItemStatus::Voided;
                self.void_reason = Some(reason);
                self.void_by = Some(voided_by);
                self.updated_at = now();
                Ok(())
            },
            _ => Err(status_message("Cannot void item in status: ", self.status.text())),
        }
    }
}

/// Status of an order.
#[derive(Debug, Clone, Copy, PartialEq, Eq, Structural, Hash)]
pub enum OrderStatus {
    Open,
    Closed,
    Cancelled,
}

impl OrderStatus {
    /// The variant's name, as `Debug` prints it.
    pub open spec fn name(self) -> Seq<char> {
        match self {
            OrderStatus::Open => "Open"@,
            OrderStatus::Closed => "Closed"@,
            OrderStatus::Cancelled => "Cancelled"@,
        }
    }

    fn text(&self) -> (s: String)
        ensures
            s@ == self.name(),
    {
        match self {
            OrderStatus::Open => String::from_str("Open"),
            OrderStatus::Closed => String::from_str("Closed"),
            OrderStatus::Cancelled => String::from_str("Cancelled"),
        }
    }
}

/// An order at a table.
#[derive(Debug, Clone)]
pub struct Order {
    pub id: Id,
    pub table_id: Id,
    pub staff_id: Id,
    pub status: OrderStatus,
    pub subtotal: Money,
    pub tax_amount: Money,
    pub total_amount: Money,
    pub created_at: Timestamp,
    pub updated_at: Timestamp,
}

/// The running subtotal of the items that are not voided, starting from zero
/// dollars, as `Order::calculate_totals` computes it; `None` where an item's
/// subtotal cannot be computed, is not in dollars, or an addition fails.
pub open spec fn order_subtotal(items: Seq<OrderItem>) -> Option<(i128, u32)>
    decreases items.len(),
{
    if items.len() == 0 {
        Some((0i128, 0u32))
    } else {
        match order_subtotal(items.drop_last()) {
            None => None,
            Some(acc) => {
                let item = items.last();
                if item.status == OrderItemStatus::Voided {
                    Some(acc)
                } else if !item.has_subtotal() || item.unit_price.cur() != currencies::USD@ {
                    None
                } else {
                    sum_of(acc, item.subtotal_parts().unwrap())
                }
            },
        }
    }
}

/// Every step of `order_subtotal` needs no rounding.
pub open spec fn order_subtotal_is_exact(items: Seq<OrderItem>) -> bool
    decreases items.len(),
{
    if items.len() == 0 {
        true
    } else {
        &&& order_subtotal_is_exact(items.drop_last())
        &&& items.last().status != OrderItemStatus::Voided ==> {
            &&& items.last().subtotal_is_exact()
            &&& parts_sum_is_exact(
                order_subtotal(items.drop_last()).unwrap(),
                items.last().subtotal_parts().unwrap(),
            )
        }
    }
}

/// The sum of unit price times quantity over the items that are not voided.
pub open spec fn items_total(items: Seq<OrderItem>) -> int
    decreases items.len(),
{
    if items.len() == 0 {
        0
    } else if items.last().status == OrderItemStatus::Voided {
        items_total(items.drop_last())
    } else {
        items_total(items.drop_last()) + items.last().unit_price.value() * items.last().quantity
    }
}

proof fn lemma_order_subtotal_prefix(items: Seq<OrderItem>, i: int)
    requires
        0 <= i <= items.len(),
        order_subtotal(items.take(i)) is None,
    ensures
        order_subtotal(items) is None,
    decreases items.len() - i,
{
    if i < items.len() {
        assert(items.take(i + 1).drop_last() =~= items.take(i));
        lemma_order_subtotal_prefix(items, i + 1);
    } else {
        assert(items.take(i) =~= items);
    }
}

/// Totals of an order can be computed from these items and tax.
pub open spec fn totals_computable(tax: Money, items: Seq<OrderItem>) -> bool {
    &&& order_subtotal(items) is Some
    &&& tax.cur() == currencies::USD@
    &&& sum_of(order_subtotal(items).unwrap(), parts_of(tax)) is Some
}

/// `after` holds the totals computed for `items`; nothing else but the
/// update time changed.
pub open spec fn totals_set(before: Order, after: Order, items: Seq<OrderItem>) -> bool {
    &&& parts_of(after.subtotal) == order_subtotal(items).unwrap()
    &&& after.subtotal.cur() == currencies::USD@
    &&& parts_of(after.total_amount) == sum_of(
        order_subtotal(items).unwrap(),
        parts_of(before.tax_amount),
    ).unwrap()
    &&& after.total_amount.cur() == currencies::USD@
    &&& order_subtotal_is_exact(items) ==> after.subtotal.value() == items_total(items)
    &&& order_subtotal_is_exact(items) && parts_sum_is_exact(
        order_subtotal(items).unwrap(),
        parts_of(before.tax_amount),
    ) ==> after.total_amount.value() == items_total(items) + before.tax_amount.value()
    &&& after.tax_amount == before.tax_amount
    &&& after.id == before.id
    &&& after.table_id == before.table_id
    &&& after.staff_id == before.staff_id
    &&& after.status == before.status
    &&& after.created_at == before.created_at
}

/// `after` is `before` with another status and update time only.
pub open spec fn order_moved(before: Order, after: Order, status: OrderStatus) -> bool {
    &&& after.status == status
    &&& after.id == before.id
    &&& after.table_id == before.table_id
    &&& after.staff_id == before.staff_id
    &&& after.subtotal == before.subtotal
    &&& after.tax_amount == before.tax_amount
    &&& after.total_amount == before.total_amount
    &&& after.created_at == before.created_at
}

/// The subtotal of the items that are not voided, in dollars.
fn order_items_subtotal(items: &[OrderItem]) -> (r: Option<Money>)
    ensures
        r is Some <==> order_subtotal(items@) is Some,
        r matches Some(m) ==> parts_of(m) == order_subtotal(items@).unwrap() && m.cur()
            == currencies::USD@,
        r matches Some(m) ==> (order_subtotal_is_exact(items@) ==> m.value() == items_total(
            items@,
        )),
{
    let mut acc = Money::zero(currencies::usd());
    let mut i: usize = 0;
    proof {
        assert(items@.take(0) =~= Seq::<OrderItem>::empty());
    }
    while i < items.len()
        invariant
            i <= items@.len(),
            order_subtotal(items@.take(i as int)) == Some(parts_of(acc)),
            acc.cur() == currencies::USD@,
            order_subtotal_is_exact(items@.take(i as int)) ==> acc.value() == items_total(
                items@.take(i as int),
            ),
        decreases items.len() - i,
    {
        let item = &items[i];
        proof {
            assert(items@.take(i + 1).drop_last() =~= items@.take(i as int));
            assert(items@.take(i + 1).last() == items@[i as int]);
        }
        if item.status != OrderItemStatus::Voided {
            match item.checked_subtotal() {
                None => {
                    proof {
                        lemma_order_subtotal_prefix(items@, i + 1);
                    }
                    return None;
                },
                Some(sub) => {
                    match acc.add(&sub) {
                        Ok(next) => {
                            acc = next;
                        },
                        Err(_) => {
                            proof {
                                lemma_order_subtotal_prefix(items@, i + 1);
                            }
                            return None;
                        },
                    }
                },
            }
        }
        i = i + 1;
    }
    proof {
        assert(items@.take(items@.len() as int) =~= items@);
    }
    Some(acc)
}

impl Order {
    /// A new open order with zero totals in dollars.
    pub fn new(table_id: Id, staff_id: Id) -> (o: Order)
        ensures
            o.table_id == table_id,
            o.staff_id == staff_id,
            o.status == OrderStatus::Open,
            o.subtotal.value() == 0 && o.subtotal.cur() == currencies::USD@,
            o.tax_amount.value() == 0 && o.tax_amount.cur() == currencies::USD@,
            o.total_amount.value() == 0 && o.total_amount.cur() == currencies::USD@,
            o.created_at == o.updated_at,
    {
        let now = now();
        Order {
            id: new_id(),
            table_id,
            staff_id,
            status: OrderStatus::Open,
            subtotal: Money::zero(currencies::usd()),
            tax_amount: Money::zero(currencies::usd()),
            total_amount: Money::zero(currencies::usd()),
            created_at: now,
            updated_at: now,
        }
    }

    /// Set the subtotal from the items and the total from subtotal and tax,
    /// where they can be computed; answers whether they could, and leaves the
    /// order unchanged where not.
    pub fn try_calculate_totals(&mut self, items: &[OrderItem]) -> (ok: bool)
        ensures
            ok == totals_computable(old(self).tax_amount, items@),
            ok ==> totals_set(*old(self), *final(self), items@),
            !ok ==> *final(self) == *old(self),
    {
        match order_items_subtotal(items) {
            None => false,
            Some(subtotal) => {
                match subtotal.add(&self.tax_amount) {
                    Ok(total) => {
                        self.subtotal = subtotal;
                        self.total_amount = total;
                        self.updated_at = now();
                        true
                    },
                    Err(_) => false,
                }
            },
        }
    }

    /// Set the subtotal from the items that are not voided and the total
    /// from subtotal and tax.
    pub fn calculate_totals(&mut self, items: &[OrderItem])
        requires
            totals_computable(old(self).tax_amount, items@),
        ensures
            totals_set(*old(self), *final(self), items@),
    {
        let ok = self.try_calculate_totals(items);
        assert(ok);
    }

    /// Close an open order.
    pub fn close(&mut self) -> (r: Result<(), String>)
        ensures
            match old(self).status {
                OrderStatus::Open => r is Ok && order_moved(*old(self), *final(self), OrderStatus::Closed),
                _ => r matches Err(msg) && msg@ == "Cannot close order in status: "@
                    + old(self).status.name() && *final(self) == *old(self),
            },
    {
        match self.status {
            OrderStatus::Open => {
                self.status = OrderStatus::Closed;
                self.updated_at = now();
                Ok(())
            },
            _ => Err(status_message("Cannot close order in status: ", self.status.text())),
        }
    }

    /// Cancel an open order.
    pub fn cancel(&mut self) -> (r: Result<(), String>)
        ensures
            match old(self).status {
                OrderStatus::Open => r is Ok && order_moved(
                    *old(self),
                    *final(self),
                    OrderStatus::Cancelled,
                ),
                _ => r matches Err(msg) && msg@ == "Cannot cancel order in status: "@
                    + old(self).status.name() && *final(self) == *old(self),
            },
    {
        match self.status {
            OrderStatus::Open => {
                self.status = OrderStatus::Cancelled;
                self.updated_at = now();
                Ok(())
            },
            _ => Err(status_message("Cannot cancel order in status: ", self.status.text())),
        }
    }
}

/// A category of the menu.
#[derive(Debug, Clone)]
pub struct MenuItemCategory {
    pub id: Id,
    pub name: String,
    pub description: Option<String>,
    pub display_order: i32,
    pub created_at: Timestamp,
    pub updated_at: Timestamp,
}

/// An item of the menu.
#[derive(Debug, Clone)]
pub struct MenuItem {
    pub id: Id,
    pub category_id: Id,
    pub name: String,
    pub description: Option<String>,
    pub price: Money,
    /// Tax rate as a percentage (8.5 for 8.5%).
    pub tax_rate: Decimal,
    pub is_available: bool,
    pub preparation_time_minutes: Option<i32>,
    pub display_order: i32,
    pub created_at: Timestamp,
    pub updated_at: Timestamp,
}

impl MenuItem {
    /// What `calculate_tax` computes: the tax rate's percentage of price
    /// times quantity.
    pub open spec fn tax_parts(self, quantity: i32) -> Option<(i128, u32)> {
        match product_of(parts_of(self.price), quantity_parts(quantity)) {
            Some(p) => percentage_of(p, self.tax_rate),
            None => None,
        }
    }

    /// The tax can be computed: the quantity is not negative, the tax rate is
    /// a percentage between 0 and 100 and the arithmetic succeeds.
    pub open spec fn has_tax(self, quantity: i32) -> bool {
        &&& quantity >= 0
        &&& 0 <= self.tax_rate@ <= 100 * unit()
        &&& self.tax_parts(quantity) is Some
    }

    /// The tax needs no rounding: price, quantity and rate multiply within
    /// 96 bits and the scales leave room for the division by 100.
    pub open spec fn tax_is_exact(self, quantity: i32) -> bool {
        &&& self.price.amt().sc() + self.tax_rate.sc() + 2 <= MAX_SCALE
        &&& fits(self.price.amt().mant() * quantity)
        &&& fits(self.price.amt().mant() * quantity * self.tax_rate.mant())
    }

    /// A new available menu item.
    pub fn new(category_id: Id, name: String, price: Money, tax_rate: Decimal) -> (m: MenuItem)
        ensures
            m.category_id == category_id,
            m.name == name,
            m.price == price,
            m.tax_rate == tax_rate,
            m.description is None,
            m.is_available,
            m.preparation_time_minutes is None,
            m.display_order == 0,
            m.created_at == m.updated_at,
    {
        let now = now();
        MenuItem {
            id: new_id(),
            category_id,
            name,
            description: None,
            price,
            tax_rate,
            is_available: true,
            preparation_time_minutes: None,
            display_order: 0,
            created_at: now,
            updated_at: now,
        }
    }

    /// The tax on `quantity` of this item, or `None` where it cannot be computed.
    pub fn checked_calculate_tax(&self, quantity: i32) -> (r: Option<Money>)
        ensures
            r is Some <==> self.has_tax(quantity),
            r matches Some(m) ==> parts_of(m) == self.tax_parts(quantity).unwrap() && m.cur()
                == self.price.cur(),
            r matches Some(m) ==> (self.tax_is_exact(quantity) ==> m.value() * 100 * unit()
                == self.price.value() * quantity * self.tax_rate@),
    {
        let q = Decimal::from_i32(quantity);
        let price = self.price.amount();
        proof {
            use_type_invariant(&price);
            lemma_pow10_positive(28);
            assert((quantity < 0) == (quantity * unit() < 0)) by (nonlinear_arith)
                requires
                    unit() > 0,
            ;
        }
        match self.price.multiply(q) {
            Err(_) => None,
            Ok(subtotal) => {
                let ghost pm = price.mant() as int;
                let ghost ps = price.sc() as nat;
                let sub = subtotal.amount();
                proof {
                    use_type_invariant(&sub);
                    if self.tax_is_exact(quantity) {
                        // The product is exact: its value is price * quantity,
                        // at a scale no larger than the price's.
                        assert(product_is_exact(price, q));
                        assert(pm * (quantity as int) * pow10((28 - ps) as nat) == (pm * pow10(
                            (28 - ps) as nat,
                        )) * (quantity as int)) by (nonlinear_arith);
                        lemma_rescaled_mantissa(
                            sub.mant() as int,
                            sub.sc() as nat,
                            pm * quantity,
                            ps,
                        );
                        lemma_pow10_positive((ps - sub.sc()) as nat);
                        lemma_fits_smaller_factor(
                            self.tax_rate.mant() as int,
                            sub.mant() as int,
                            pm * quantity,
                            pow10((ps - sub.sc()) as nat),
                        );
                        assert(self.tax_rate.mant() * (pm * quantity) == pm * quantity
                            * self.tax_rate.mant()) by (nonlinear_arith);
                        assert(self.tax_rate.mant() * sub.mant() == sub.mant()
                            * self.tax_rate.mant()) by (nonlinear_arith);
                        assert(percentage_is_exact(sub, self.tax_rate));
                    }
                }
                match subtotal.percentage(self.tax_rate) {
                    Ok(tax) => Some(tax),
                    Err(_) => None,
                }
            },
        }
    }

    /// The tax on `quantity` of this item.
    pub fn calculate_tax(&self, quantity: i32) -> (m: Money)
        requires
            self.has_tax(quantity),
        ensures
            parts_of(m) == self.tax_parts(quantity).unwrap(),
            m.cur() == self.price.cur(),
            self.tax_is_exact(quantity) ==> m.value() * 100 * unit() == self.price.value()
                * quantity * self.tax_rate@,
    {
        match self.checked_calculate_tax(quantity) {
            Some(m) => m,
            None => {
                proof {
                    assert(false);
                }
                Money::zero(String::new())
            },
        }
    }
}

/// A member of staff.
#[derive(Debug, Clone)]
pub struct Staff {
    pub id: Id,
    pub name: String,
    pub email: String,
    pub role: StaffRole,
    pub is_active: bool,
    pub created_at: Timestamp,
    pub updated_at: Timestamp,
}

/// Role of a member of staff.
#[derive(Debug, Clone, Copy, PartialEq, Eq, Structural, Hash)]
pub enum StaffRole {
    Server,
    Manager,
    Kitchen,
    Host,
    Admin,
}

/// How a payment is made.
#[derive(Debug, Clone, Copy, PartialEq, Eq, Structural, Hash)]
pub enum PaymentMethod {
    Cash,
    Card,
    Mobile,
    GiftCard,
}

impl PaymentMethod {
    /// The variant's name, as `Debug` prints it.
    pub open spec fn name(self) -> Seq<char> {
        match self {
            PaymentMethod::Cash => "Cash"@,
            PaymentMethod::Card => "Card"@,
            PaymentMethod::Mobile => "Mobile"@,
            PaymentMethod::GiftCard => "GiftCard"@,
        }
    }

    pub(crate) fn text(&self) -> (s: String)
        ensures
            s@ == self.name(),
    {
        match self {
            PaymentMethod::Cash => String::from_str("Cash"),
            PaymentMethod::Card => String::from_str("Card"),
            PaymentMethod::Mobile => String::from_str("Mobile"),
            PaymentMethod::GiftCard => String::from_str("GiftCard"),
        }
    }
}

/// A payment towards an order.
#[derive(Debug, Clone)]
pub struct Payment {
    pub id: Id,
    pub order_id: Id,
    pub amount: Money,
    pub method: PaymentMethod,
    pub tip_amount: Money,
    pub processed_at: Timestamp,
    pub staff_id: Id,
}

impl Payment {
    /// The total can be computed: amount and tip are in one currency and
    /// their sum can be represented.
    pub open spec fn has_total(self) -> bool {
        &&& self.amount.cur() == self.tip_amount.cur()
        &&& sum_of(parts_of(self.amount), parts_of(self.tip_amount)) is Some
    }

    /// A new payment without a tip.
    pub fn new(order_id: Id, amount: Money, method: PaymentMethod, staff_id: Id) -> (p: Payment)
        ensures
            p.order_id == order_id,
            p.amount == amount,
            p.method == method,
            p.staff_id == staff_id,
            p.tip_amount.value() == 0,
            p.tip_amount.amt().mant() == 0 && p.tip_amount.amt().sc() == 0,
            p.tip_amount.cur() == amount.cur(),
    {
        let currency = String::from_str(amount.currency());
        Payment {
            id: new_id(),
            order_id,
            amount,
            method,
            tip_amount: Money::zero(currency),
            processed_at: now(),
            staff_id,
        }
    }

    /// Amount plus tip, or `None` where it cannot be computed.
    pub fn checked_total_amount(&self) -> (r: Option<Money>)
        ensures
            r is Some <==> self.has_total(),
            r matches Some(m) ==> parts_of(m) == sum_of(
                parts_of(self.amount),
                parts_of(self.tip_amount),
            ).unwrap() && m.cur() == self.amount.cur(),
            r matches Some(m) ==> (sum_is_exact(self.amount.amt(), self.tip_amount.amt())
                ==> m.value() == self.amount.value() + self.tip_amount.value()),
    {
        match self.amount.add(&self.tip_amount) {
            Ok(m) => Some(m),
            Err(_) => None,
        }
    }

    /// Amount plus tip.
    pub fn total_amount(&self) -> (m: Money)
        requires
            self.has_total(),
        ensures
            parts_of(m) == sum_of(parts_of(self.amount), parts_of(self.tip_amount)).unwrap(),
            m.cur() == self.amount.cur(),
            sum_is_exact(self.amount.amt(), self.tip_amount.amt()) ==> m.value()
                == self.amount.value() + self.tip_amount.value(),
    {
        match self.checked_total_amount() {
            Some(m) => m,
            None => {
                proof {
                    assert(false);
                }
                Money::zero(String::new())
            },
        }
    }
}

} // verus!
