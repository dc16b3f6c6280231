//! What the payment endpoints decide before they write the books.
use vstd::prelude::*;
use vstd::string::*;
use crate::decimal::{compare, Decimal};
use crate::models::PaymentMethod;
use crate::text::str_equal;

verus! {

/// The payment method stored as this text: mobile money and M-Pesa count
/// as mobile payments, and any other text as cash.
pub fn parse_payment_method(text: &str) -> (m: PaymentMethod)
    ensures
        text@ == "Card"@ ==> m == PaymentMethod::Card,
        text@ == "MobileMoney"@ || text@ == "Mpesa"@ ==> m == PaymentMethod::Mobile,
        text@ != "Card"@ && text@ != "MobileMoney"@ && text@ != "Mpesa"@ ==> m == PaymentMethod::Cash,
{
    proof {
        reveal_strlit("Card");
        reveal_strlit("MobileMoney");
        reveal_strlit("Mpesa");
        assert("Card"@.len() == 4 && "MobileMoney"@.len() == 11 && "Mpesa"@.len() == 5);
    }
    if str_equal(text, "Card") {
        PaymentMethod::Card
    } else if str_equal(text, "MobileMoney") || str_equal(text, "Mpesa") {
        PaymentMethod::Mobile
    } else {
        PaymentMethod::Cash
    }
}

/// The account a payment by this method is received into: cash, card
/// receivables, or mobile money receivables; unknown methods count as cash.
pub open spec fn receiving_account(method: Seq<char>) -> Seq<char> {
    if method == "Card"@ {
        "Card Receivable"@
    } else if method == "MobileMoney"@ || method == "Mpesa"@ {
        "Mobile Money Receivable"@
    } else {
        "Cash"@
    }
}

/// The accounts a payment by this method is posted to: the account it is
/// received into (debited) and food revenue (credited).
pub fn payment_accounts(method: &str) -> (r: (&'static str, &'static str))
    ensures
        r.0@ == receiving_account(method@),
        r.1@ == "Food Revenue"@,
{
    if str_equal(method, "Card") {
        ("Card Receivable", "Food Revenue")
    } else if str_equal(method, "MobileMoney") || str_equal(method, "Mpesa") {
        ("Mobile Money Receivable", "Food Revenue")
    } else {
        ("Cash", "Food Revenue")
    }
}

/// Tips are booked only where there is a positive amount.
pub fn tips_to_book(tip_amount: Decimal) -> (b: bool)
    ensures
        b == (tip_amount@ > 0),
{
    compare(&tip_amount, &Decimal::zero()) == 1
}

} // verus!
