//! Requests of the table endpoints.
use vstd::prelude::*;
use vstd::string::*;
use crate::models::TableStatus;
use crate::text::str_equal;

verus! {

/// A new table.
#[derive(Debug, Clone)]
pub struct CreateTableRequest {
    pub number: i32,
    pub capacity: i32,
    pub location: Option<String>,
}

/// Changes to a table; absent fields stay as they are.
#[derive(Debug, Clone)]
pub struct UpdateTableRequest {
    pub number: Option<i32>,
    pub capacity: Option<i32>,
    pub status: Option<String>,
    pub location: Option<String>,
}

/// The table status stored as this text; empty for any text that names no
/// status.
pub fn parse_table_status(text: &str) -> (s: TableStatus)
    ensures
        text@ == "Occupied"@ ==> s == TableStatus::Occupied,
        text@ == "Dirty"@ ==> s == TableStatus::Dirty,
        text@ == "Reserved"@ ==> s == TableStatus::Reserved,
        text@ != "Occupied"@ && text@ != "Dirty"@ && text@ != "Reserved"@ ==> s == TableStatus::Empty,
{
    proof {
        reveal_strlit("Occupied");
        reveal_strlit("Dirty");
        reveal_strlit("Reserved");
        assert("Occupied"@.len() == 8 && "Dirty"@.len() == 5 && "Reserved"@.len() == 8);
        assert("Occupied"@[0] != "Reserved"@[0]);
    }
    if str_equal(text, "Occupied") {
        TableStatus::Occupied
    } else if str_equal(text, "Dirty") {
        TableStatus::Dirty
    } else if str_equal(text, "Reserved") {
        TableStatus::Reserved
    } else {
        TableStatus::Empty
    }
}

} // verus!
