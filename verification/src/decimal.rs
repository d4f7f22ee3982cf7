//! Decimal numerals of sixteen-bit numbers: the digits, most significant first.

use vstd::prelude::*;
use vstd::string::StringExecFns;

verus! {

/// The character that stands for the digit `d`.
pub open spec fn digit(d: u16) -> char
    recommends
        d < 10,
{
    if d == 0 {
        '0'
    } else if d == 1 {
        '1'
    } else if d == 2 {
        '2'
    } else if d == 3 {
        '3'
    } else if d == 4 {
        '4'
    } else if d == 5 {
        '5'
    } else if d == 6 {
        '6'
    } else if d == 7 {
        '7'
    } else if d == 8 {
        '8'
    } else {
        '9'
    }
}

/// The decimal numeral of `n`: no sign, no leading zero, and a single `0` for zero. A
/// sixteen-bit number has at most five digits, so the numeral is written out by length.
pub open spec fn decimal_digits(n: u16) -> Seq<char> {
    if n < 10 {
        seq![digit(n)]
    } else if n < 100 {
        seq![digit(n / 10), digit(n % 10)]
    } else if n < 1000 {
        seq![digit(n / 100), digit(n / 10 % 10), digit(n % 10)]
    } else if n < 10000 {
        seq![digit(n / 1000), digit(n / 100 % 10), digit(n / 10 % 10), digit(n % 10)]
    } else {
        seq![
            digit(n / 10000),
            digit(n / 1000 % 10),
            digit(n / 100 % 10),
            digit(n / 10 % 10),
            digit(n % 10),
        ]
    }
}

/// The number that a digit character stands for.
pub open spec fn digit_value(c: char) -> nat {
    if c == '1' {
        1
    } else if c == '2' {
        2
    } else if c == '3' {
        3
    } else if c == '4' {
        4
    } else if c == '5' {
        5
    } else if c == '6' {
        6
    } else if c == '7' {
        7
    } else if c == '8' {
        8
    } else if c == '9' {
        9
    } else {
        0
    }
}

/// The number that a numeral stands for: ten times what stands before the last digit,
/// and the last digit.
pub open spec fn numeral_value(s: Seq<char>) -> nat
    decreases s.len(),
{
    if s.len() == 0 {
        0
    } else {
        10 * numeral_value(s.drop_last()) + digit_value(s.last())
    }
}

/// A numeral of several digits is the numeral of the tens followed by the digit of the
/// units.
pub proof fn lemma_decimal_digits_step(n: u16)
    requires
        n >= 10,
    ensures
        decimal_digits(n) == decimal_digits(n / 10).push(digit(n % 10)),
{
}

/// The numeral of `n` stands for `n`, and it starts with a zero only where `n` is zero.
pub proof fn lemma_decimal_digits_value(n: u16)
    ensures
        numeral_value(decimal_digits(n)) == n,
        1 <= decimal_digits(n).len() <= 5,
        decimal_digits(n)[0] == '0' <==> n == 0,
    decreases n,
{
    let s = decimal_digits(n);
    if n < 10 {
        assert(s.drop_last() =~= Seq::<char>::empty());
        assert(numeral_value(s.drop_last()) == 0);
    } else {
        lemma_decimal_digits_step(n);
        lemma_decimal_digits_value(n / 10);
        assert(s.drop_last() =~= decimal_digits(n / 10));
    }
}

/// The one-character string of the digit `d`.
fn digit_str(d: u16) -> (s: &'static str)
    requires
        d < 10,
    ensures
        s@ == seq![digit(d)],
{
    proof {
        reveal_strlit("0");
        reveal_strlit("1");
        reveal_strlit("2");
        reveal_strlit("3");
        reveal_strlit("4");
        reveal_strlit("5");
        reveal_strlit("6");
        reveal_strlit("7");
        reveal_strlit("8");
        reveal_strlit("9");
    }
    if d == 0 {
        "0"
    } else if d == 1 {
        "1"
    } else if d == 2 {
        "2"
    } else if d == 3 {
        "3"
    } else if d == 4 {
        "4"
    } else if d == 5 {
        "5"
    } else if d == 6 {
        "6"
    } else if d == 7 {
        "7"
    } else if d == 8 {
        "8"
    } else {
        "9"
    }
}

/// Write `n` in decimal.
pub fn decimal_string(n: u16) -> (s: String)
    ensures
        s@ == decimal_digits(n),
    decreases n,
{
    if n < 10 {
        String::from_str(digit_str(n))
    } else {
        let mut s = decimal_string(n / 10);
        s.append(digit_str(n % 10));
        proof {
            lemma_decimal_digits_step(n);
        }
        s
    }
}

} // verus!
