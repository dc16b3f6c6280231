//! What the user interface's forms make of the text the user entered: a
//! reservation and a new menu item.
use vstd::prelude::*;
use vstd::string::*;
use crate::decimal::{dparts, parse, decimal_parse, Decimal};
use crate::ids::Id;
use crate::time::Timestamp;

verus! {

/// What `uuid::Uuid::parse_str` reads from a text, as the 128 bits of the
/// identifier.
pub uninterp spec fn uuid_parsed(text: Seq<char>) -> Option<u128>;

/// The point in time `chrono::DateTime::parse_from_rfc3339` reads from a
/// text, in UTC, as seconds since the epoch and nanoseconds.
pub uninterp spec fn rfc3339_strict(text: Seq<char>) -> Option<(i64, u32)>;

/// Calls `uuid::Uuid::parse_str`; the identifier, where the text is one, is
/// named by `uuid_parsed`.
#[verifier::external_body]
fn parse_id(text: &str) -> (r: Option<Id>)
    ensures
        r == uuid_parsed(text@),
{
    match uuid::Uuid::parse_str(text) {
        Ok(u) => Some(u.as_u128()),
        Err(_) => None,
    }
}

/// Calls `chrono::DateTime::parse_from_rfc3339` and takes the point in time
/// it reads (its seconds since the epoch and nanoseconds, which do not depend
/// on the offset); the point is named by `rfc3339_strict`.
#[verifier::external_body]
fn parse_rfc3339(text: &str) -> (r: Option<Timestamp>)
    ensures
        match r {
            Some(t) => rfc3339_strict(text@) == Some((t.secs, t.nanos)),
            None => rfc3339_strict(text@) is None,
        },
{
    match chrono::DateTime::parse_from_rfc3339(text) {
        Ok(t) => Some(Timestamp { secs: t.timestamp(), nanos: t.timestamp_subsec_nanos() }),
        Err(_) => None,
    }
}

/// A reservation as the reservation form submits it.
#[derive(Debug, Clone)]
pub struct ReservationRequest {
    pub table_id: Id,
    pub customer_id: Option<Id>,
    pub reservation_time: Timestamp,
    pub party_size: i32,
    pub notes: Option<String>,
}

/// The reservation the form makes of the entered text: the table must be
/// an identifier and the time (a `datetime-local` value, completed with
/// seconds and a UTC zone) a point in time; a customer that is not an
/// identifier counts as none, a party is at least one person, and empty
/// notes count as none.
pub fn reservation_from_form(
    table_text: &str,
    customer_text: Option<&str>,
    time_text: &str,
    party_size: i32,
    notes: &str,
) -> (r: Option<ReservationRequest>)
    ensures
        r is Some <==> uuid_parsed(table_text@) is Some && rfc3339_strict(time_text@ + ":00Z"@) is Some,
        r matches Some(q) ==> {
            &&& Some(q.table_id) == uuid_parsed(table_text@)
            &&& q.customer_id == match customer_text {
                Some(c) => uuid_parsed(c@),
                None => None,
            }
            &&& Some((q.reservation_time.secs, q.reservation_time.nanos)) == rfc3339_strict(time_text@ + ":00Z"@)
            &&& q.party_size == if party_size < 1 { 1 } else { party_size }
            &&& notes@.len() == 0 ==> q.notes is None
            &&& notes@.len() > 0 ==> (q.notes matches Some(n) && n@ == notes@)
        },
{
    let table_id = match parse_id(table_text) {
        Some(id) => id,
        None => {
            return None;
        },
    };
    let mut time = String::from_str(time_text);
    time.append(":00Z");
    let reservation_time = match parse_rfc3339(time.as_str()) {
        Some(t) => t,
        None => {
            return None;
        },
    };
    let customer_id = match customer_text {
        Some(c) => parse_id(c),
        None => None,
    };
    let notes = if notes.unicode_len() == 0 {
        None
    } else {
        Some(String::from_str(notes))
    };
    Some(
        ReservationRequest {
            table_id,
            customer_id,
            reservation_time,
            party_size: if party_size < 1 {
                1
            } else {
                party_size
            },
            notes,
        },
    )
}

/// A new menu item as the menu form submits it.
#[derive(Debug, Clone)]
pub struct CreateMenuItemData {
    pub category_id: Id,
    pub name: String,
    pub description: String,
    pub price: Decimal,
    pub tax_rate: Decimal,
    pub image_url: String,
    pub stock_quantity: i32,
    pub low_stock_threshold: i32,
}

/// The decimal a form field holds: the text read as a decimal, or the
/// field's starting value where the text is not one.
pub open spec fn field_decimal(text: Seq<char>, start: (i128, u32)) -> (i128, u32) {
    match decimal_parse(text) {
        Some(p) => p,
        None => start,
    }
}

/// The menu item the form makes of the entered values: the category must be
/// an identifier; a price or tax rate that does not read as a decimal keeps
/// the field's starting value (a price of 0, a rate of 16 percent).
pub fn menu_item_from_form(
    category_text: &str,
    name: String,
    description: String,
    price_text: &str,
    rate_text: &str,
    image_url: String,
    stock_quantity: i32,
    low_stock_threshold: i32,
) -> (r: Option<CreateMenuItemData>)
    ensures
        r is Some <==> uuid_parsed(category_text@) is Some,
        r matches Some(d) ==> {
            &&& Some(d.category_id) == uuid_parsed(category_text@)
            &&& d.name == name
            &&& d.description == description
            &&& dparts(d.price) == field_decimal(price_text@, (0i128, 0u32))
            &&& dparts(d.tax_rate) == field_decimal(rate_text@, (16i128, 0u32))
            &&& d.image_url == image_url
            &&& d.stock_quantity == stock_quantity
            &&& d.low_stock_threshold == low_stock_threshold
        },
{
    let category_id = match parse_id(category_text) {
        Some(id) => id,
        None => {
            return None;
        },
    };
    let price = match parse(price_text) {
        Some(p) => p,
        None => Decimal::zero(),
    };
    let tax_rate = match parse(rate_text) {
        Some(t) => t,
        None => Decimal::new(16, 0),
    };
    Some(
        CreateMenuItemData {
            category_id,
            name,
            description,
            price,
            tax_rate,
            image_url,
            stock_quantity,
            low_stock_threshold,
        },
    )
}

} // verus!
