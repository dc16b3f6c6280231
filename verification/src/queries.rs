//! SQL text builders: pagination and counting around a base query.
use vstd::prelude::*;
use vstd::string::*;

verus! {

/// The decimal digit `d` (0 to 9) as a character.
pub open spec fn digit_char(d: nat) -> char {
    if d == 0 {
        '0'
    } else if d == 1 {
        '1'
    } else if d == 2 {
        '2'
    } else if d == 3 {
        '3'
    } else if d == 4 {
        '4'
    } else if d == 5 {
        '5'
    } else if d == 6 {
        '6'
    } else if d == 7 {
        '7'
    } else if d == 8 {
        '8'
    } else {
        '9'
    }
}

/// The decimal text of `n`, without leading zeros.
pub open spec fn decimal_digits(n: nat) -> Seq<char>
    decreases n,
{
    if n < 10 {
        seq![digit_char(n)]
    } else {
        decimal_digits(n / 10).push(digit_char(n % 10))
    }
}

fn digit_text(d: u32) -> (s: &'static str)
    requires
        d < 10,
    ensures
        s@ == seq![digit_char(d as nat)],
{
    proof {
        reveal_strlit("0");
        reveal_strlit("1");
        reveal_strlit("2");
        reveal_strlit("3");
        reveal_strlit("4");
        reveal_strlit("5");
        reveal_strlit("6");
        reveal_strlit("7");
        reveal_strlit("8");
        reveal_strlit("9");
    }
    match d {
        0 => "0",
        1 => "1",
        2 => "2",
        3 => "3",
        4 => "4",
        5 => "5",
        6 => "6",
        7 => "7",
        8 => "8",
        _ => "9",
    }
}

/// The decimal text of `n`, as `format!` prints an integer.
pub fn number_text(n: u32) -> (s: String)
    ensures
        s@ == decimal_digits(n as nat),
    decreases n,
{
    if n < 10 {
        String::from_str(digit_text(n))
    } else {
        let mut s = number_text(n / 10);
        s.append(digit_text(n % 10));
        s
    }
}

/// The decimal text of the integer `n`, with a minus sign where negative.
pub open spec fn integer_digits(n: int) -> Seq<char> {
    if n < 0 {
        "-"@ + decimal_digits((-n) as nat)
    } else {
        decimal_digits(n as nat)
    }
}

/// The decimal text of `n`, as `format!` prints an integer.
pub fn integer_text(n: i32) -> (s: String)
    ensures
        s@ == integer_digits(n as int),
{
    if n < 0 {
        let magnitude: u32 = if n == i32::MIN {
            2147483648u32
        } else {
            (-n) as u32
        };
        let mut s = String::from_str("-");
        let digits = number_text(magnitude);
        s.append(digits.as_str());
        s
    } else {
        number_text(n as u32)
    }
}

/// The base query restricted to page `page` (counted from 1) of `limit` rows.
pub fn paginate(base_query: &str, page: u32, limit: u32) -> (s: String)
    requires
        page >= 1,
        (page - 1) * limit <= u32::MAX,
    ensures
        s@ == base_query@ + " LIMIT "@ + decimal_digits(limit as nat) + " OFFSET "@ + decimal_digits(
            ((page - 1) * limit) as nat,
        ),
{
    let offset = (page - 1) * limit;
    let mut s = String::from_str(base_query);
    s.append(" LIMIT ");
    let limit_text = number_text(limit);
    s.append(limit_text.as_str());
    s.append(" OFFSET ");
    let offset_text = number_text(offset);
    s.append(offset_text.as_str());
    s
}

/// A query counting the rows of the base query.
pub fn count_query(base_query: &str) -> (s: String)
    ensures
        s@ == "SELECT COUNT(*) as total FROM ("@ + base_query@ + ") as subquery"@,
{
    let mut s = String::from_str("SELECT COUNT(*) as total FROM (");
    s.append(base_query);
    s.append(") as subquery");
    s
}

} // verus!
