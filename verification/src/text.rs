//! Decimal and hexadecimal digits as text, for status lines and wire text.

use vstd::prelude::*;

verus! {

/// The digit character for one value below sixteen.
pub open spec fn digit_char(d: int) -> char {
    if d == 0 {
        '0'
    } else if d == 1 {
        '1'
    } else if d == 2 {
        '2'
    } else if d == 3 {
        '3'
    } else if d == 4 {
        '4'
    } else if d == 5 {
        '5'
    } else if d == 6 {
        '6'
    } else if d == 7 {
        '7'
    } else if d == 8 {
        '8'
    } else if d == 9 {
        '9'
    } else if d == 10 {
        'a'
    } else if d == 11 {
        'b'
    } else if d == 12 {
        'c'
    } else if d == 13 {
        'd'
    } else if d == 14 {
        'e'
    } else {
        'f'
    }
}

/// The decimal text of a number: most significant digit first, no sign,
/// no leading zero except for the number zero itself.
pub open spec fn dec_digits(n: nat) -> Seq<char>
    decreases n,
{
    if n < 10 {
        seq![digit_char(n as int)]
    } else {
        dec_digits(n / 10).push(digit_char((n % 10) as int))
    }
}

/// The one-character string for a value below sixteen.
pub fn digit_str(d: u64) -> (s: &'static str)
    requires
        d < 16,
    ensures
        s@ == seq![digit_char(d as int)],
{
    let s: &'static str = match d {
        0 => "0",
        1 => "1",
        2 => "2",
        3 => "3",
        4 => "4",
        5 => "5",
        6 => "6",
        7 => "7",
        8 => "8",
        9 => "9",
        10 => "a",
        11 => "b",
        12 => "c",
        13 => "d",
        14 => "e",
        _ => "f",
    };
    proof {
        reveal_strlit("0");
        reveal_strlit("1");
        reveal_strlit("2");
        reveal_strlit("3");
        reveal_strlit("4");
        reveal_strlit("5");
        reveal_strlit("6");
        reveal_strlit("7");
        reveal_strlit("8");
        reveal_strlit("9");
        reveal_strlit("a");
        reveal_strlit("b");
        reveal_strlit("c");
        reveal_strlit("d");
        reveal_strlit("e");
        reveal_strlit("f");
        assert(s@ =~= seq![digit_char(d as int)]);
    }
    s
}

/// Append the decimal text of `n` to `out`.
pub fn push_decimal(out: &mut String, n: u64)
    ensures
        final(out)@ == old(out)@ + dec_digits(n as nat),
    decreases n,
{
    if n >= 10 {
        push_decimal(out, n / 10);
    }
    out.append(digit_str(n % 10));
    proof {
        if n >= 10 {
            assert(dec_digits(n as nat) == dec_digits((n as nat) / 10).push(
                digit_char(((n as nat) % 10) as int),
            ));
            assert((n / 10) as nat == (n as nat) / 10);
            assert((n % 10) as nat == (n as nat) % 10);
            assert(final(out)@ =~= old(out)@ + dec_digits(n as nat));
        } else {
            assert(dec_digits(n as nat) == seq![digit_char(n as int)]);
            assert(final(out)@ =~= old(out)@ + dec_digits(n as nat));
        }
    }
}

/// The decimal text of `n` as a fresh string.
pub fn decimal_string(n: u64) -> (s: String)
    ensures
        s@ == dec_digits(n as nat),
{
    let mut s = String::new();
    push_decimal(&mut s, n);
    proof {
        assert(s@ =~= dec_digits(n as nat));
    }
    s
}

} // verus!
