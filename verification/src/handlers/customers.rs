//! Requests of the customer endpoints.
use vstd::prelude::*;

verus! {

/// A new customer.
#[derive(Debug, Clone)]
pub struct CreateCustomerRequest {
    pub name: String,
    pub phone: Option<String>,
    pub email: Option<String>,
}

/// Changes to a customer; absent fields stay as they are.
#[derive(Debug, Clone)]
pub struct UpdateCustomerRequest {
    pub name: Option<String>,
    pub phone: Option<String>,
    pub email: Option<String>,
    pub loyalty_points: Option<i32>,
}

} // verus!
