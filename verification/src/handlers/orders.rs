//! Requests of the order endpoints.
use vstd::prelude::*;
use vstd::string::*;
use crate::decimal::Decimal;
use crate::models::OrderStatus;
use crate::text::str_equal;

verus! {

/// A change of an order's status.
#[derive(Debug, Clone)]
pub struct UpdateOrderRequest {
    pub status: Option<String>,
}

/// Changes to an item of an order; absent fields stay as they are.
#[derive(Debug, Clone)]
pub struct UpdateOrderItemRequest {
    pub quantity: Option<i32>,
    pub status: Option<String>,
    pub notes: Option<String>,
}

/// The kind of an order, as requested; dine-in where none is given.
pub fn order_type_or_default(order_type: Option<String>) -> (s: String)
    ensures
        order_type matches Some(t) ==> s == t,
        order_type is None ==> s@ == "DineIn"@,
{
    match order_type {
        Some(t) => t,
        None => String::from_str("DineIn"),
    }
}

/// The delivery fee of an order of this kind: 100 for deliveries, nothing
/// otherwise.
pub fn delivery_fee(order_type: &str) -> (fee: Decimal)
    ensures
        order_type@ == "Delivery"@ ==> fee.mant() == 100 && fee.sc() == 0,
        order_type@ != "Delivery"@ ==> fee.mant() == 0 && fee.sc() == 0,
{
    if str_equal(order_type, "Delivery") {
        Decimal::new(100, 0)
    } else {
        Decimal::zero()
    }
}

/// The order status stored as this text; open for any text that names no
/// status.
pub fn parse_order_status(text: &str) -> (s: OrderStatus)
    ensures
        text@ == "Closed"@ ==> s == OrderStatus::Closed,
        text@ == "Cancelled"@ ==> s == OrderStatus::Cancelled,
        text@ != "Closed"@ && text@ != "Cancelled"@ ==> s == OrderStatus::Open,
{
    proof {
        reveal_strlit("Closed");
        reveal_strlit("Cancelled");
        assert("Closed"@.len() != "Cancelled"@.len());
    }
    if str_equal(text, "Closed") {
        OrderStatus::Closed
    } else if str_equal(text, "Cancelled") {
        OrderStatus::Cancelled
    } else {
        OrderStatus::Open
    }
}

} // verus!
