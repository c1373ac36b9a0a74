//! Decimal text of integers and of five-decimal fixed-point values.

use vstd::prelude::*;
use vstd::string::*;

verus! {

/// The ASCII digit for `d`, which is below 10.
pub open spec fn digit_char(d: nat) -> char {
    if d == 0 { '0' }
    else if d == 1 { '1' }
    else if d == 2 { '2' }
    else if d == 3 { '3' }
    else if d == 4 { '4' }
    else if d == 5 { '5' }
    else if d == 6 { '6' }
    else if d == 7 { '7' }
    else if d == 8 { '8' }
    else { '9' }
}

/// Decimal digits of `n`, without leading zeros (`0` is written `"0"`).
pub open spec fn decimal(n: nat) -> Seq<char>
    decreases n,
{
    if n < 10 {
        seq![digit_char(n)]
    } else {
        decimal(n / 10) + seq![digit_char(n % 10)]
    }
}

/// The last `width` decimal digits of `n`, with leading zeros.
pub open spec fn padded(n: nat, width: nat) -> Seq<char>
    decreases width,
{
    if width == 0 {
        seq![]
    } else {
        padded(n / 10, (width - 1) as nat) + seq![digit_char(n % 10)]
    }
}

/// `"-"` for a negative value, nothing otherwise.
pub open spec fn sign(x: int) -> Seq<char> {
    if x < 0 {
        seq!['-']
    } else {
        seq![]
    }
}

/// Absolute value.
pub open spec fn magnitude(x: int) -> nat {
    if x < 0 {
        (-x) as nat
    } else {
        x as nat
    }
}

/// Decimal text of an integer, with a leading `-` when it is negative.
pub open spec fn integer_text(x: int) -> Seq<char> {
    sign(x) + decimal(magnitude(x))
}

/// Text of a count of hundred-thousandths as a decimal number with exactly
/// five fractional digits: `-12241940` is `"-122.41940"`.
pub open spec fn fixed5_text(x: int) -> Seq<char> {
    sign(x) + decimal(magnitude(x) / 100_000) + seq!['.'] + padded(magnitude(x) % 100_000, 5)
}

/// Appends the digit `d`.
fn push_digit(s: &mut String, d: u64)
    requires
        d < 10,
    ensures
        final(s)@ == old(s)@ + seq![digit_char(d as nat)],
{
    let t: &str = if d == 0 {
        "0"
    } else if d == 1 {
        "1"
    } else if d == 2 {
        "2"
    } else if d == 3 {
        "3"
    } else if d == 4 {
        "4"
    } else if d == 5 {
        "5"
    } else if d == 6 {
        "6"
    } else if d == 7 {
        "7"
    } else if d == 8 {
        "8"
    } else {
        "9"
    };
    proof {
        reveal_strlit("0");
        reveal_strlit("1");
        reveal_strlit("2");
        reveal_strlit("3");
        reveal_strlit("4");
        reveal_strlit("5");
        reveal_strlit("6");
        reveal_strlit("7");
        reveal_strlit("8");
        reveal_strlit("9");
        assert(t@ =~= seq![digit_char(d as nat)]);
    }
    s.append(t);
}

/// Appends the decimal digits of `n`.
pub fn push_decimal(s: &mut String, n: u64)
    ensures
        final(s)@ == old(s)@ + decimal(n as nat),
    decreases n,
{
    if n >= 10 {
        push_decimal(s, n / 10);
        push_digit(s, n % 10);
        assert(final(s)@ =~= old(s)@ + decimal(n as nat));
    } else {
        push_digit(s, n);
    }
}

/// Appends the last `width` decimal digits of `n`, with leading zeros.
fn push_padded(s: &mut String, n: u64, width: u64)
    ensures
        final(s)@ == old(s)@ + padded(n as nat, width as nat),
    decreases width,
{
    if width > 0 {
        push_padded(s, n / 10, width - 1);
        push_digit(s, n % 10);
        assert(final(s)@ =~= old(s)@ + padded(n as nat, width as nat));
    } else {
        assert(final(s)@ =~= old(s)@ + padded(n as nat, width as nat));
    }
}

/// Appends a `-` when `x` is negative and returns the magnitude of `x`.
fn push_sign(s: &mut String, x: i64) -> (r: u64)
    ensures
        final(s)@ == old(s)@ + sign(x as int),
        r == magnitude(x as int),
{
    proof {
        reveal_strlit("-");
    }
    if x < 0 {
        s.append("-");
        assert(final(s)@ =~= old(s)@ + sign(x as int));
        (-(x as i128)) as u64
    } else {
        assert(final(s)@ =~= old(s)@ + sign(x as int));
        x as u64
    }
}

/// Appends the decimal text of `x`.
pub fn push_integer(s: &mut String, x: i64)
    ensures
        final(s)@ == old(s)@ + integer_text(x as int),
{
    let m = push_sign(s, x);
    push_decimal(s, m);
    assert(final(s)@ =~= old(s)@ + integer_text(x as int));
}

/// Appends `x` hundred-thousandths as a number with five fractional digits.
pub fn push_fixed5(s: &mut String, x: i64)
    ensures
        final(s)@ == old(s)@ + fixed5_text(x as int),
{
    let m = push_sign(s, x);
    push_decimal(s, m / 100_000);
    proof {
        reveal_strlit(".");
    }
    s.append(".");
    push_padded(s, m % 100_000, 5);
    assert(final(s)@ =~= old(s)@ + fixed5_text(x as int));
}

} // verus!
