//! Requests of the staff endpoints.
use vstd::prelude::*;

verus! {

/// A new member of staff.
#[derive(Debug, Clone)]
pub struct CreateStaffRequest {
    pub name: String,
    pub email: String,
    pub role: String,
}

/// Changes to a member of staff; absent fields stay as they are.
#[derive(Debug, Clone)]
pub struct UpdateStaffRequest {
    pub name: Option<String>,
    pub email: Option<String>,
    pub role: Option<String>,
    pub is_active: Option<bool>,
}

} // verus!
