//! Decimal rendering of integers, used when a status has to be shown in an
//! error message.

use vstd::prelude::*;

verus! {

/// The decimal digit character for `d`, meaningful for `0 <= d < 10`.
pub open spec fn spec_digit(d: int) -> char {
    if d == 0 {
        '0'
    } else if d == 1 {
        '1'
    } else if d == 2 {
        '2'
    } else if d == 3 {
        '3'
    } else if d == 4 {
        '4'
    } else if d == 5 {
        '5'
    } else if d == 6 {
        '6'
    } else if d == 7 {
        '7'
    } else if d == 8 {
        '8'
    } else {
        '9'
    }
}

/// The decimal rendering of `n`, most significant digit first, with no
/// leading zeros (`0` itself renders as "0").
pub open spec fn spec_unsigned_decimal(n: nat) -> Seq<char>
    decreases n,
{
    if n < 10 {
        seq![spec_digit(n as int)]
    } else {
        spec_unsigned_decimal(n / 10) + seq![spec_digit((n % 10) as int)]
    }
}

/// The decimal rendering of an integer: a leading '-' for negative values,
/// then the digits of the magnitude.
pub open spec fn spec_signed_decimal(n: int) -> Seq<char> {
    if n < 0 {
        seq!['-'] + spec_unsigned_decimal((-n) as nat)
    } else {
        spec_unsigned_decimal(n as nat)
    }
}

/// A decimal rendering always has at least one character.
pub proof fn lemma_unsigned_decimal_nonempty(n: nat)
    ensures
        spec_unsigned_decimal(n).len() >= 1,
    decreases n,
{
    if n >= 10 {
        lemma_unsigned_decimal_nonempty(n / 10);
    }
}

/// A signed rendering is never empty either.
pub proof fn lemma_signed_decimal_nonempty(n: int)
    ensures
        spec_signed_decimal(n).len() >= 1,
{
    if n < 0 {
        lemma_unsigned_decimal_nonempty((-n) as nat);
    } else {
        lemma_unsigned_decimal_nonempty(n as nat);
    }
}

/// Appends the single digit character for `d` to `s`.
fn push_digit(s: &mut String, d: u64)
    requires
        d < 10,
    ensures
        final(s)@ == old(s)@ + seq![spec_digit(d as int)],
{
    let t: &str = if d == 0 {
        "0"
    } else if d == 1 {
        "1"
    } else if d == 2 {
        "2"
    } else if d == 3 {
        "3"
    } else if d == 4 {
        "4"
    } else if d == 5 {
        "5"
    } else if d == 6 {
        "6"
    } else if d == 7 {
        "7"
    } else if d == 8 {
        "8"
    } else {
        "9"
    };
    proof {
        reveal_strlit("0");
        reveal_strlit("1");
        reveal_strlit("2");
        reveal_strlit("3");
        reveal_strlit("4");
        reveal_strlit("5");
        reveal_strlit("6");
        reveal_strlit("7");
        reveal_strlit("8");
        reveal_strlit("9");
    }
    s.append(t);
}

/// Renders `n` in decimal.
pub fn unsigned_decimal(n: u64) -> (s: String)
    ensures
        s@ == spec_unsigned_decimal(n as nat),
    decreases n,
{
    if n < 10 {
        let mut s = String::new();
        push_digit(&mut s, n);
        s
    } else {
        let mut s = unsigned_decimal(n / 10);
        push_digit(&mut s, n % 10);
        s
    }
}

/// Renders `n` in decimal, with a '-' sign when it is negative.
pub fn signed_decimal(n: i64) -> (s: String)
    ensures
        s@ == spec_signed_decimal(n as int),
{
    if n >= 0 {
        unsigned_decimal(n as u64)
    } else {
        // `n` may be `i64::MIN`, so negate in a wider type.
        let wide: i128 = -(n as i128);
        let magnitude: u64 = wide as u64;
        let mut s = String::new();
        proof {
            reveal_strlit("-");
        }
        s.append("-");
        let digits = unsigned_decimal(magnitude);
        s.append(digits.as_str());
        s
    }
}

} // verus!
