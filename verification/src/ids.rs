//! Identifiers of records: 128-bit values, as a UUID holds them.
use vstd::prelude::*;

verus! {

/// An identifier: the 128 bits of a UUID.
pub type Id = u128;

/// The nil identifier.
pub const NIL_ID: Id = 0u128;

/// Calls `uuid::Uuid::new_v4` and returns its 128 bits; a random value of
/// which nothing is claimed.
#[verifier::external_body]
pub(crate) fn new_id() -> (id: Id) {
    uuid::Uuid::new_v4().as_u128()
}

/// `16^n`.
pub open spec fn pow16(n: nat) -> int
    decreases n,
{
    if n == 0 {
        1
    } else {
        16 * pow16((n - 1) as nat)
    }
}

/// The hexadecimal digit `d` (0 to 15), in lower case.
pub open spec fn hex_digit(d: int) -> char {
    if d < 10 {
        (48 + d) as char
    } else {
        (87 + d) as char
    }
}

/// The `k`th of the 32 hexadecimal digits of the identifier, most
/// significant first.
pub open spec fn id_nibble(id: u128, k: int) -> int {
    (id as int / pow16((31 - k) as nat)) % 16
}

/// How `uuid::Uuid` prints the identifier: its 32 hexadecimal digits, most
/// significant first and in lower case, in groups of 8, 4, 4, 4 and 12 with
/// a hyphen between groups.
pub open spec fn uuid_text(id: u128) -> Seq<char> {
    Seq::new(
        36,
        |i: int|
            if i == 8 || i == 13 || i == 18 || i == 23 {
                '-'
            } else {
                let hyphens_before = if i < 8 {
                    0int
                } else if i < 13 {
                    1int
                } else if i < 18 {
                    2int
                } else if i < 23 {
                    3int
                } else {
                    4int
                };
                hex_digit(id_nibble(id, i - hyphens_before))
            },
    )
}

/// Calls `Display` of `uuid::Uuid` on `Uuid::from_u128(id)` (whose bytes are
/// the identifier's, most significant first); the text is `uuid_text`.
#[verifier::external_body]
pub(crate) fn id_text(id: Id) -> (s: String)
    ensures
        s@ == uuid_text(id),
{
    uuid::Uuid::from_u128(id).to_string()
}

} // verus!
