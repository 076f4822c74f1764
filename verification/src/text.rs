//! Numbers as text.

use vstd::prelude::*;

verus! {

/// The character for the digit `d`.
pub open spec fn digit_char(d: int) -> char {
    if d == 0 {
        '0'
    } else if d == 1 {
        '1'
    } else if d == 2 {
        '2'
    } else if d == 3 {
        '3'
    } else if d == 4 {
        '4'
    } else if d == 5 {
        '5'
    } else if d == 6 {
        '6'
    } else if d == 7 {
        '7'
    } else if d == 8 {
        '8'
    } else {
        '9'
    }
}

/// `n` in two decimal digits, with a leading zero below ten.
pub open spec fn two_digits(n: int) -> Seq<char> {
    seq![digit_char(n / 10), digit_char(n % 10)]
}

/// `n` in decimal digits, as many as it takes.
pub open spec fn decimal(n: int) -> Seq<char>
    decreases n,
{
    if n < 10 {
        seq![digit_char(n)]
    } else {
        decimal(n / 10).push(digit_char(n % 10))
    }
}

/// The text of the digit `d`.
pub fn digit_text(d: u32) -> (text: &'static str)
    requires
        d <= 9,
    ensures
        text@ == seq![digit_char(d as int)],
{
    proof {
        reveal_strlit("0");
        reveal_strlit("1");
        reveal_strlit("2");
        reveal_strlit("3");
        reveal_strlit("4");
        reveal_strlit("5");
        reveal_strlit("6");
        reveal_strlit("7");
        reveal_strlit("8");
        reveal_strlit("9");
    }
    let text: &'static str = match d {
        0 => "0",
        1 => "1",
        2 => "2",
        3 => "3",
        4 => "4",
        5 => "5",
        6 => "6",
        7 => "7",
        8 => "8",
        _ => "9",
    };
    assert(text@ =~= seq![digit_char(d as int)]);
    text
}

/// Writes `n` at the end of `text` in two decimal digits.
pub fn push_two_digits(text: &mut String, n: u32)
    requires
        n <= 99,
    ensures
        final(text)@ == old(text)@ + two_digits(n as int),
{
    text.append(digit_text(n / 10));
    text.append(digit_text(n % 10));
    assert(text@ =~= old(text)@ + two_digits(n as int));
}

/// `n` in decimal digits.
pub fn u8_to_string(n: u8) -> (text: String)
    ensures
        text@ == decimal(n as int),
{
    let mut text: String = String::new();
    let value: u32 = n as u32;
    let ghost v: int = n as int;
    if value >= 100 {
        text.append(digit_text(value / 100));
        assert(decimal(v / 100) =~= seq![digit_char(v / 100)]);
        assert(text@ =~= decimal(v / 100));
    }
    if value >= 10 {
        text.append(digit_text((value / 10) % 10));
        assert(v >= 100 ==> decimal(v / 10) =~= decimal(v / 100).push(digit_char((v / 10) % 10)));
        assert(v < 100 ==> decimal(v / 10) =~= seq![digit_char(v / 10)]);
        assert(text@ =~= decimal(v / 10));
    }
    text.append(digit_text(value % 10));
    assert(text@ =~= decimal(v));
    text
}

} // verus!
