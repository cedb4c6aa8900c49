//! Verified construction of the decimal text used in artifact names.

use vstd::prelude::*;

verus! {

/// Relies on `String::push` of std: appends the given char to the end of the string.
pub assume_specification[ String::push ](s: &mut String, ch: char)
    ensures
        final (s)@ == old(s)@.push(ch),
;

/// Relies on `String::push_str` of std: appends the given string slice to the end of the string.
pub assume_specification[ String::push_str ](s: &mut String, other: &str)
    ensures
        final (s)@ == old(s)@ + other@,
;

/// The digit character of a value below ten
pub open spec fn spec_digit(d: int) -> char {
    if d == 0 {
        '0'
    } else if d == 1 {
        '1'
    } else if d == 2 {
        '2'
    } else if d == 3 {
        '3'
    } else if d == 4 {
        '4'
    } else if d == 5 {
        '5'
    } else if d == 6 {
        '6'
    } else if d == 7 {
        '7'
    } else if d == 8 {
        '8'
    } else {
        '9'
    }
}

/// The decimal digit sequence of a non-negative value, most significant first
pub open spec fn spec_udecimal(n: nat) -> Seq<char>
    decreases n,
{
    if n < 10 {
        seq![spec_digit(n as int)]
    } else {
        spec_udecimal(n / 10).push(spec_digit((n % 10) as int))
    }
}

/// The decimal text of a signed value: a minus sign for negatives, then the digits
pub open spec fn spec_decimal(x: int) -> Seq<char> {
    if x < 0 {
        seq!['-'] + spec_udecimal((-x) as nat)
    } else {
        spec_udecimal(x as nat)
    }
}

/// Appends the digit character of a value below ten
fn push_digit(d: u64, out: &mut String)
    requires
        d < 10,
    ensures
        final (out)@ == old(out)@.push(spec_digit(d as int)),
{
    let c: char = match d {
        0 => '0',
        1 => '1',
        2 => '2',
        3 => '3',
        4 => '4',
        5 => '5',
        6 => '6',
        7 => '7',
        8 => '8',
        _ => '9',
    };
    out.push(c);
}

/// Appends the decimal digits of a non-negative value, most significant first
pub fn push_udecimal(n: u64, out: &mut String)
    ensures
        final (out)@ == old(out)@ + spec_udecimal(n as nat),
    decreases n,
{
    if n < 10 {
        push_digit(n, out);
        assert(out@ =~= old(out)@ + spec_udecimal(n as nat));
    } else {
        push_udecimal(n / 10, out);
        push_digit(n % 10, out);
        assert(out@ =~= old(out)@ + spec_udecimal(n as nat));
    }
}

/// Appends the decimal text of a signed coordinate
pub fn push_decimal_i32(x: i32, out: &mut String)
    ensures
        final (out)@ == old(out)@ + spec_decimal(x as int),
{
    if x < 0 {
        out.push('-');
        let magnitude: u64 = (-(x as i64)) as u64;
        push_udecimal(magnitude, out);
        assert(out@ =~= old(out)@ + spec_decimal(x as int));
    } else {
        push_udecimal(x as u64, out);
    }
}

/// Appends the decimal text of a mipmap level or similar small count
pub fn push_decimal_usize(n: usize, out: &mut String)
    ensures
        final (out)@ == old(out)@ + spec_udecimal(n as nat),
{
    push_udecimal(n as u64, out);
}

} // verus!
