//! Decimal text of an integer: digits without leading zeros, and a minus sign
//! in front of a negative number.

use vstd::prelude::*;

verus! {

/// The character that stands for the digit `d`, for `d` from 0 to 9.
pub open spec fn digit_char(d: nat) -> char {
    if d == 0 {
        '0'
    } else if d == 1 {
        '1'
    } else if d == 2 {
        '2'
    } else if d == 3 {
        '3'
    } else if d == 4 {
        '4'
    } else if d == 5 {
        '5'
    } else if d == 6 {
        '6'
    } else if d == 7 {
        '7'
    } else if d == 8 {
        '8'
    } else {
        '9'
    }
}

/// The digits of `m` in base ten, most significant first. Zero is the single
/// digit `0`; no other number starts with one.
pub open spec fn digits(m: nat) -> Seq<char>
    decreases m,
{
    if m < 10 {
        seq![digit_char(m)]
    } else {
        digits(m / 10).push(digit_char(m % 10))
    }
}

/// The decimal text of `n`: its digits, after a minus sign where `n` is
/// negative.
pub open spec fn decimal_text(n: int) -> Seq<char> {
    if n < 0 {
        seq!['-'] + digits((-n) as nat)
    } else {
        digits(n as nat)
    }
}

/// The digit that `c` stands for; zero for a character that is no digit.
pub open spec fn digit_value(c: char) -> nat {
    if c == '1' {
        1
    } else if c == '2' {
        2
    } else if c == '3' {
        3
    } else if c == '4' {
        4
    } else if c == '5' {
        5
    } else if c == '6' {
        6
    } else if c == '7' {
        7
    } else if c == '8' {
        8
    } else if c == '9' {
        9
    } else {
        0
    }
}

/// The number that a run of digits denotes in base ten.
pub open spec fn digits_value(s: Seq<char>) -> nat
    decreases s.len(),
{
    if s.len() == 0 {
        0
    } else {
        10 * digits_value(s.drop_last()) + digit_value(s.last())
    }
}

/// The digits of `m` denote `m`; there is at least one of them, and the first
/// is a zero only where `m` is zero.
pub proof fn lemma_digits_denote(m: nat)
    ensures
        digits_value(digits(m)) == m,
        digits(m).len() >= 1,
        m > 0 ==> digits(m)[0] != '0',
        m == 0 ==> digits(m) == seq!['0'],
    decreases m,
{
    let s = digits(m);
    if m < 10 {
        assert(s.drop_last() =~= Seq::<char>::empty());
        assert(digits_value(Seq::<char>::empty()) == 0);
    } else {
        lemma_digits_denote(m / 10);
        assert(s.drop_last() =~= digits(m / 10));
        assert(s.last() == digit_char(m % 10));
        assert(s[0] == digits(m / 10)[0]);
    }
}

/// The decimal text of a negative number is a minus sign before the digits of
/// its magnitude; that of any other number is its digits alone, so no text
/// carries a plus sign.
pub proof fn lemma_decimal_text_sign(n: int)
    ensures
        n < 0 ==> decimal_text(n)[0] == '-' && decimal_text(n).subrange(
            1,
            decimal_text(n).len() as int,
        ) == digits((-n) as nat),
        n >= 0 ==> decimal_text(n) == digits(n as nat),
        n >= 0 ==> decimal_text(n)[0] != '-',
{
    if n < 0 {
        let text = decimal_text(n);
        assert(text.subrange(1, text.len() as int) =~= digits((-n) as nat));
    } else {
        lemma_first_digit(n as nat);
    }
}

/// The first character of the digits of `m` is a digit.
proof fn lemma_first_digit(m: nat)
    ensures
        digits(m).len() >= 1,
        digits(m)[0] == digit_char(digit_value(digits(m)[0])),
    decreases m,
{
    if m >= 10 {
        lemma_first_digit(m / 10);
        assert(digits(m)[0] == digits(m / 10)[0]);
    }
}

/// The one-character string of the digit `d`.
fn digit_str(d: u32) -> (s: &'static str)
    requires
        d < 10,
    ensures
        s@ == seq![digit_char(d as nat)],
{
    proof {
        reveal_strlit("0");
        reveal_strlit("1");
        reveal_strlit("2");
        reveal_strlit("3");
        reveal_strlit("4");
        reveal_strlit("5");
        reveal_strlit("6");
        reveal_strlit("7");
        reveal_strlit("8");
        reveal_strlit("9");
    }
    let s = if d == 0 {
        "0"
    } else if d == 1 {
        "1"
    } else if d == 2 {
        "2"
    } else if d == 3 {
        "3"
    } else if d == 4 {
        "4"
    } else if d == 5 {
        "5"
    } else if d == 6 {
        "6"
    } else if d == 7 {
        "7"
    } else if d == 8 {
        "8"
    } else {
        "9"
    };
    assert(s@ =~= seq![digit_char(d as nat)]);
    s
}

/// Appends the digits of `m` to `out`.
fn append_digits(out: &mut String, m: u32)
    ensures
        final(out)@ == old(out)@ + digits(m as nat),
    decreases m,
{
    if m >= 10 {
        append_digits(out, m / 10);
    }
    out.append(digit_str(m % 10));
    assert(final(out)@ =~= old(out)@ + digits(m as nat));
}

/// Appends the decimal text of `n` to `out`. Every `i32` is accepted, the
/// least one included.
pub fn append_decimal(out: &mut String, n: i32)
    ensures
        final(out)@ == old(out)@ + decimal_text(n as int),
{
    if n < 0 {
        proof {
            reveal_strlit("-");
        }
        out.append("-");
        let m: u32 = (-(n as i64)) as u32;
        append_digits(out, m);
        assert(final(out)@ =~= old(out)@ + decimal_text(n as int));
    } else {
        append_digits(out, n as u32);
    }
}

} // verus!
