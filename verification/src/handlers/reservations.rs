//! Requests of the reservation endpoints.
use vstd::prelude::*;

verus! {

/// Changes to a reservation; absent fields stay as they are.
#[derive(Debug, Clone)]
pub struct UpdateReservationRequest {
    pub status: Option<String>,
    pub party_size: Option<i32>,
    pub notes: Option<String>,
}

} // verus!
