//! Verified decimal formatting.
//!
//! Style parameters are carried as plain integers: lengths in thousandths of
//! their unit (a page width of 64.5 mm is stored as `64500`). When such a
//! value is written into generated source text it is rendered here, digit by
//! digit, with an exact specification of the produced character sequence.

use vstd::prelude::*;

verus! {

/// The decimal digit character for `d` (only meaningful for `0 <= d <= 9`).
pub open spec fn spec_digit_char(d: int) -> char {
    if d == 0 {
        '0'
    } else if d == 1 {
        '1'
    } else if d == 2 {
        '2'
    } else if d == 3 {
        '3'
    } else if d == 4 {
        '4'
    } else if d == 5 {
        '5'
    } else if d == 6 {
        '6'
    } else if d == 7 {
        '7'
    } else if d == 8 {
        '8'
    } else {
        '9'
    }
}

/// The usual decimal rendering of `n`, most significant digit first, with no
/// leading zeroes (`0` renders as `"0"`).
pub open spec fn spec_decimal(n: nat) -> Seq<char>
    decreases n,
{
    if n < 10 {
        seq![spec_digit_char(n as int)]
    } else {
        spec_decimal(n / 10).push(spec_digit_char((n % 10) as int))
    }
}

/// The rendering of a length held in thousandths of a unit: the whole part
/// in decimal, then — only if the fractional part is non-zero — a decimal
/// point and the fractional digits with trailing zeroes dropped
/// (`64000 → "64"`, `64500 → "64.5"`, `64005 → "64.005"`).
pub open spec fn spec_thousandths(n: nat) -> Seq<char> {
    let whole = n / 1000;
    let frac = n % 1000;
    if frac == 0 {
        spec_decimal(whole)
    } else if frac % 100 == 0 {
        spec_decimal(whole) + seq!['.', spec_digit_char((frac / 100) as int)]
    } else if frac % 10 == 0 {
        spec_decimal(whole) + seq![
            '.',
            spec_digit_char((frac / 100) as int),
            spec_digit_char(((frac / 10) % 10) as int),
        ]
    } else {
        spec_decimal(whole) + seq![
            '.',
            spec_digit_char((frac / 100) as int),
            spec_digit_char(((frac / 10) % 10) as int),
            spec_digit_char((frac % 10) as int),
        ]
    }
}

/// Appends the single digit character for `d` to `out`.
fn push_digit(out: &mut String, d: u64)
    requires
        d < 10,
    ensures
        final(out)@ == old(out)@.push(spec_digit_char(d as int)),
{
    let digit: &str = match d {
        0 => "0",
        1 => "1",
        2 => "2",
        3 => "3",
        4 => "4",
        5 => "5",
        6 => "6",
        7 => "7",
        8 => "8",
        _ => "9",
    };
    proof {
        reveal_strlit("0");
        reveal_strlit("1");
        reveal_strlit("2");
        reveal_strlit("3");
        reveal_strlit("4");
        reveal_strlit("5");
        reveal_strlit("6");
        reveal_strlit("7");
        reveal_strlit("8");
        reveal_strlit("9");
        assert(digit@ =~= seq![spec_digit_char(d as int)]);
    }
    out.append(digit);
    proof {
        assert(out@ =~= old(out)@.push(spec_digit_char(d as int)));
    }
}

/// Appends the decimal rendering of `n` to `out`.
pub fn push_decimal(out: &mut String, n: u64)
    ensures
        final(out)@ == old(out)@ + spec_decimal(n as nat),
    decreases n,
{
    if n < 10 {
        push_digit(out, n);
        proof {
            assert(out@ =~= old(out)@ + spec_decimal(n as nat));
        }
    } else {
        push_decimal(out, n / 10);
        push_digit(out, n % 10);
        proof {
            assert(out@ =~= old(out)@ + spec_decimal(n as nat));
        }
    }
}

/// Appends the rendering of `n` thousandths of a unit to `out`
/// (see [`spec_thousandths`]).
pub fn push_thousandths(out: &mut String, n: u64)
    ensures
        final(out)@ == old(out)@ + spec_thousandths(n as nat),
{
    push_decimal(out, n / 1000);
    let frac = n % 1000;
    if frac != 0 {
        proof {
            reveal_strlit(".");
        }
        out.append(".");
        push_digit(out, frac / 100);
        if frac % 100 != 0 {
            push_digit(out, (frac / 10) % 10);
            if frac % 10 != 0 {
                push_digit(out, frac % 10);
            }
        }
    }
    proof {
        assert(out@ =~= old(out)@ + spec_thousandths(n as nat));
    }
}

/// The decimal rendering of `n` as a fresh string.
pub fn decimal_string(n: u64) -> (r: String)
    ensures
        r@ == spec_decimal(n as nat),
{
    let mut out = String::new();
    push_decimal(&mut out, n);
    proof {
        assert(out@ =~= spec_decimal(n as nat));
    }
    out
}

} // verus!
