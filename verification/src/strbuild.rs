//! Verified string building: appending single characters and rendering
//! integers in decimal and hexadecimal.

use vstd::prelude::*;

verus! {

/// Relies on String::push: appends exactly one character at the end.
#[verifier::external_body]
pub(crate) fn push_char(s: &mut String, c: char)
    ensures
        final(s)@ == old(s)@.push(c),
{
    s.push(c);
}

/// The character for one digit value below sixteen, lower case.
pub open spec fn spec_digit_char(d: int) -> char {
    if d == 0 {
        '0'
    } else if d == 1 {
        '1'
    } else if d == 2 {
        '2'
    } else if d == 3 {
        '3'
    } else if d == 4 {
        '4'
    } else if d == 5 {
        '5'
    } else if d == 6 {
        '6'
    } else if d == 7 {
        '7'
    } else if d == 8 {
        '8'
    } else if d == 9 {
        '9'
    } else if d == 10 {
        'a'
    } else if d == 11 {
        'b'
    } else if d == 12 {
        'c'
    } else if d == 13 {
        'd'
    } else if d == 14 {
        'e'
    } else {
        'f'
    }
}

fn digit_char(d: u8) -> (c: char)
    requires
        d < 16,
    ensures
        c == spec_digit_char(d as int),
{
    if d == 0 {
        '0'
    } else if d == 1 {
        '1'
    } else if d == 2 {
        '2'
    } else if d == 3 {
        '3'
    } else if d == 4 {
        '4'
    } else if d == 5 {
        '5'
    } else if d == 6 {
        '6'
    } else if d == 7 {
        '7'
    } else if d == 8 {
        '8'
    } else if d == 9 {
        '9'
    } else if d == 10 {
        'a'
    } else if d == 11 {
        'b'
    } else if d == 12 {
        'c'
    } else if d == 13 {
        'd'
    } else if d == 14 {
        'e'
    } else {
        'f'
    }
}

/// The decimal spelling of a non-negative number, without leading zeros
/// (zero itself is `0`).
pub open spec fn spec_dec_chars(n: int) -> Seq<char>
    decreases n,
{
    if n < 10 {
        seq![spec_digit_char(n)]
    } else {
        spec_dec_chars(n / 10) + seq![spec_digit_char(n % 10)]
    }
}

/// The lower-case hexadecimal spelling of a non-negative number, without
/// leading zeros (zero itself is `0`).
pub open spec fn spec_hex_chars(n: int) -> Seq<char>
    decreases n,
{
    if n < 16 {
        seq![spec_digit_char(n)]
    } else {
        spec_hex_chars(n / 16) + seq![spec_digit_char(n % 16)]
    }
}

/// Appends the decimal spelling of `n`.
pub(crate) fn push_dec(s: &mut String, n: u16)
    ensures
        final(s)@ == old(s)@ + spec_dec_chars(n as int),
    decreases n,
{
    if n >= 10 {
        push_dec(s, n / 10);
        push_char(s, digit_char((n % 10) as u8));
        proof {
            assert(s@ =~= old(s)@ + spec_dec_chars(n as int));
        }
    } else {
        push_char(s, digit_char(n as u8));
        proof {
            assert(s@ =~= old(s)@ + spec_dec_chars(n as int));
        }
    }
}

/// Appends the lower-case hexadecimal spelling of `n`.
pub(crate) fn push_hex(s: &mut String, n: u16)
    ensures
        final(s)@ == old(s)@ + spec_hex_chars(n as int),
    decreases n,
{
    if n >= 16 {
        push_hex(s, n / 16);
        push_char(s, digit_char((n % 16) as u8));
        proof {
            assert(s@ =~= old(s)@ + spec_hex_chars(n as int));
        }
    } else {
        push_char(s, digit_char(n as u8));
        proof {
            assert(s@ =~= old(s)@ + spec_hex_chars(n as int));
        }
    }
}

} // verus!
