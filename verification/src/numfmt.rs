//! Decimal formatting of integers, verified against a character-sequence
//! specification: needed wherever a numeric id or timestamp is embedded in
//! a string (JWT subject claims, signature key times).

use vstd::prelude::*;
use vstd::string::*;

verus! {

pub open spec fn spec_digit_char(d: nat) -> char {
    if d == 0 {
        '0'
    } else if d == 1 {
        '1'
    } else if d == 2 {
        '2'
    } else if d == 3 {
        '3'
    } else if d == 4 {
        '4'
    } else if d == 5 {
        '5'
    } else if d == 6 {
        '6'
    } else if d == 7 {
        '7'
    } else if d == 8 {
        '8'
    } else {
        '9'
    }
}

/// The decimal form of a natural number, most significant digit first.
pub open spec fn spec_u64_decimal(n: nat) -> Seq<char>
    decreases n,
{
    if n < 10 {
        seq![spec_digit_char(n)]
    } else {
        spec_u64_decimal(n / 10).push(spec_digit_char(n % 10))
    }
}

/// The decimal form of a signed number: a minus sign before the magnitude.
pub open spec fn spec_i64_decimal(n: int) -> Seq<char> {
    if n >= 0 {
        spec_u64_decimal(n as nat)
    } else {
        seq!['-'] + spec_u64_decimal((-n) as nat)
    }
}

fn digit_str(d: u64) -> (r: &'static str)
    requires
        d < 10,
    ensures
        r@ =~= seq![spec_digit_char(d as nat)],
{
    proof {
        reveal_strlit("0");
        reveal_strlit("1");
        reveal_strlit("2");
        reveal_strlit("3");
        reveal_strlit("4");
        reveal_strlit("5");
        reveal_strlit("6");
        reveal_strlit("7");
        reveal_strlit("8");
        reveal_strlit("9");
    }
    if d == 0 {
        "0"
    } else if d == 1 {
        "1"
    } else if d == 2 {
        "2"
    } else if d == 3 {
        "3"
    } else if d == 4 {
        "4"
    } else if d == 5 {
        "5"
    } else if d == 6 {
        "6"
    } else if d == 7 {
        "7"
    } else if d == 8 {
        "8"
    } else {
        "9"
    }
}

/// Formats an unsigned number in decimal.
pub fn u64_to_string(n: u64) -> (r: String)
    ensures
        r@ == spec_u64_decimal(n as nat),
    decreases n,
{
    if n < 10 {
        digit_str(n).to_owned()
    } else {
        let high = u64_to_string(n / 10);
        high.concat(digit_str(n % 10))
    }
}

/// Formats a signed number in decimal.
pub fn i64_to_string(n: i64) -> (r: String)
    ensures
        r@ == spec_i64_decimal(n as int),
{
    if n >= 0 {
        u64_to_string(n as u64)
    } else {
        let m: u64 = (0u64).wrapping_sub(n as u64);
        proof {
            assert(m == -(n as int)) by (bit_vector)
                requires
                    n < 0,
                    m == (0u64).wrapping_sub(n as u64),
            ;
            reveal_strlit("-");
        }
        let s = String::from_str("-");
        proof {
            assert(s@ =~= seq!['-']);
        }
        s.concat(u64_to_string(m).as_str())
    }
}

/// Formats a 32-bit id in decimal.
pub fn i32_to_string(n: i32) -> (r: String)
    ensures
        r@ == spec_i64_decimal(n as int),
{
    i64_to_string(n as i64)
}

} // verus!
