//! Requests of the menu endpoints.
use vstd::prelude::*;

verus! {

/// A new menu category.
#[derive(Debug, Clone)]
pub struct CreateCategoryRequest {
    pub name: String,
    pub description: Option<String>,
    pub display_order: Option<i32>,
}

} // verus!
