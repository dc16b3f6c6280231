//! Requests of the order-item endpoints.
use vstd::prelude::*;

verus! {

/// Changes to an order item; absent fields stay as they are.
#[derive(Debug, Clone)]
pub struct UpdateOrderItemRequest {
    pub quantity: Option<i32>,
    pub notes: Option<String>,
    pub preparation_status: Option<String>,
}

} // verus!
