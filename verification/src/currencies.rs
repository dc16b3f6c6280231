//! Common currency codes.
use vstd::prelude::*;
use vstd::string::*;

verus! {

pub const USD: &'static str = "USD";

pub const EUR: &'static str = "EUR";

pub const GBP: &'static str = "GBP";

pub const JPY: &'static str = "JPY";

pub const CAD: &'static str = "CAD";

pub const AUD: &'static str = "AUD";

pub fn usd() -> (s: String)
    ensures
        s@ == USD@,
{
    String::from_str(USD)
}

pub fn eur() -> (s: String)
    ensures
        s@ == EUR@,
{
    String::from_str(EUR)
}

pub fn gbp() -> (s: String)
    ensures
        s@ == GBP@,
{
    String::from_str(GBP)
}

pub fn jpy() -> (s: String)
    ensures
        s@ == JPY@,
{
    String::from_str(JPY)
}

pub fn cad() -> (s: String)
    ensures
        s@ == CAD@,
{
    String::from_str(CAD)
}

pub fn aud() -> (s: String)
    ensures
        s@ == AUD@,
{
    String::from_str(AUD)
}

} // verus!
