//! Verified decimal rendering, for the human-readable reports.

use vstd::prelude::*;

verus! {

/// The decimal digit character for `d`.
pub open spec fn spec_digit(d: nat) -> char
    recommends
        d < 10,
{
    if d == 0 {
        '0'
    } else if d == 1 {
        '1'
    } else if d == 2 {
        '2'
    } else if d == 3 {
        '3'
    } else if d == 4 {
        '4'
    } else if d == 5 {
        '5'
    } else if d == 6 {
        '6'
    } else if d == 7 {
        '7'
    } else if d == 8 {
        '8'
    } else {
        '9'
    }
}

/// The decimal rendering of `n`, most significant digit first, without
/// leading zeros except for zero itself.
pub open spec fn spec_udecimal(n: nat) -> Seq<char>
    decreases n,
{
    if n < 10 {
        seq![spec_digit(n)]
    } else {
        spec_udecimal(n / 10) + seq![spec_digit(n % 10)]
    }
}

/// The decimal rendering of `n` with a leading minus sign when negative.
pub open spec fn spec_decimal_i32(n: int) -> Seq<char> {
    if n < 0 {
        seq!['-'] + spec_udecimal((-n) as nat)
    } else {
        spec_udecimal(n as nat)
    }
}

/// The one-character string for the decimal digit `d`.
fn digit_str(d: u64) -> (r: &'static str)
    requires
        d < 10,
    ensures
        r@ == seq![spec_digit(d as nat)],
{
    proof {
        reveal_strlit("0");
        reveal_strlit("1");
        reveal_strlit("2");
        reveal_strlit("3");
        reveal_strlit("4");
        reveal_strlit("5");
        reveal_strlit("6");
        reveal_strlit("7");
        reveal_strlit("8");
        reveal_strlit("9");
    }
    let r = match d {
        0 => "0",
        1 => "1",
        2 => "2",
        3 => "3",
        4 => "4",
        5 => "5",
        6 => "6",
        7 => "7",
        8 => "8",
        _ => "9",
    };
    proof {
        assert(r@ =~= seq![spec_digit(d as nat)]);
    }
    r
}

/// Appends the decimal rendering of `n` to `out`.
pub fn push_udecimal(n: u64, out: &mut String)
    ensures
        final(out)@ == old(out)@ + spec_udecimal(n as nat),
    decreases n,
{
    if n >= 10 {
        push_udecimal(n / 10, out);
        out.append(digit_str(n % 10));
        assert(final(out)@ =~= old(out)@ + spec_udecimal(n as nat));
    } else {
        out.append(digit_str(n));
    }
}

/// Appends the decimal rendering of `n`, sign included, to `out`.
pub fn push_decimal_i32(n: i32, out: &mut String)
    ensures
        final(out)@ == old(out)@ + spec_decimal_i32(n as int),
    decreases n,
{
    if n < 0 {
        proof {
            reveal_strlit("-");
        }
        out.append("-");
        let magnitude: u64 = (-(n as i64)) as u64;
        push_udecimal(magnitude, out);
        assert(final(out)@ =~= old(out)@ + spec_decimal_i32(n as int));
    } else {
        push_udecimal(n as u64, out);
    }
}

/// The string `"true"` or `"false"` for `b`.
pub fn bool_str(b: bool) -> (r: &'static str)
    ensures
        b ==> r@ == "true"@,
        !b ==> r@ == "false"@,
{
    if b {
        "true"
    } else {
        "false"
    }
}

} // verus!
