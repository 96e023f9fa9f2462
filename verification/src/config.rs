//! Parsing of the port configuration value: an unsigned 16-bit decimal
//! number (an optional leading plus sign accepted), with a fixed
//! default when the value is absent or unparsable.

use vstd::prelude::*;

verus! {

pub const DEFAULT_PORT: u16 = 8080;

/// Whether `c` is a decimal digit.
pub open spec fn is_digit_char(c: char) -> bool {
    c == '0' || c == '1' || c == '2' || c == '3' || c == '4' || c == '5' || c == '6' || c == '7'
        || c == '8' || c == '9'
}

/// The value of one decimal digit character.
pub open spec fn digit_value(c: char) -> nat
    recommends
        is_digit_char(c),
{
    if c == '0' {
        0
    } else if c == '1' {
        1
    } else if c == '2' {
        2
    } else if c == '3' {
        3
    } else if c == '4' {
        4
    } else if c == '5' {
        5
    } else if c == '6' {
        6
    } else if c == '7' {
        7
    } else if c == '8' {
        8
    } else {
        9
    }
}

/// Whether every character of `s` is a decimal digit.
pub open spec fn all_digits(s: Seq<char>) -> bool {
    forall|k: int| 0 <= k < s.len() ==> is_digit_char(#[trigger] s[k])
}

/// The number written by a sequence of decimal digits.
pub open spec fn digits_value(s: Seq<char>) -> nat
    decreases s.len(),
{
    if s.len() == 0 {
        0
    } else {
        digits_value(s.drop_last()) * 10 + digit_value(s.last())
    }
}

/// The digit part of a port value: everything after one optional
/// leading plus sign.
pub open spec fn port_digits(s: Seq<char>) -> Seq<char> {
    if s.len() > 0 && s[0] == '+' {
        s.skip(1)
    } else {
        s
    }
}

/// The port a configuration string selects: its decimal value when it
/// is a non-empty digit string (after an optional plus sign) no larger
/// than 65535, and the default port otherwise.
pub open spec fn spec_port_of(s: Seq<char>) -> nat {
    let d = port_digits(s);
    if d.len() > 0 && all_digits(d) && digits_value(d) <= 65535 {
        digits_value(d)
    } else {
        DEFAULT_PORT as nat
    }
}

/// The port an optional configuration value selects: the default port
/// when the value is absent.
pub open spec fn spec_parse_port(v: Option<Seq<char>>) -> nat {
    match v {
        Option::None => DEFAULT_PORT as nat,
        Option::Some(s) => spec_port_of(s),
    }
}

/// Whether `c` is a decimal digit.
fn is_digit(c: char) -> (r: bool)
    ensures
        r == is_digit_char(c),
{
    c == '0' || c == '1' || c == '2' || c == '3' || c == '4' || c == '5' || c == '6' || c == '7'
        || c == '8' || c == '9'
}

/// The value of one decimal digit character.
fn digit_of(c: char) -> (r: u64)
    requires
        is_digit_char(c),
    ensures
        r as nat == digit_value(c),
{
    if c == '0' {
        0
    } else if c == '1' {
        1
    } else if c == '2' {
        2
    } else if c == '3' {
        3
    } else if c == '4' {
        4
    } else if c == '5' {
        5
    } else if c == '6' {
        6
    } else if c == '7' {
        7
    } else if c == '8' {
        8
    } else {
        9
    }
}

/// Reads the listening port out of an optional configuration value,
/// falling back to the default port when the value is absent or does
/// not parse as an unsigned 16-bit number.
pub fn parse_port(value: Option<&str>) -> (r: u16)
    ensures
        r as nat == spec_parse_port(
            match value {
                Option::Some(s) => Option::Some(s@),
                Option::None => Option::None,
            },
        ),
{
    match value {
        Option::Some(s) => port_of_str(s),
        Option::None => DEFAULT_PORT,
    }
}

/// Reads the listening port out of one configuration string.
pub fn port_of_str(s: &str) -> (r: u16)
    ensures
        r as nat == spec_port_of(s@),
{
    let n = s.unicode_len();
    let start: usize = if n > 0 && s.get_char(0) == '+' {
        1
    } else {
        0
    };
    let ghost d = port_digits(s@);
    proof {
        assert(d =~= s@.skip(start as int));
    }
    if start >= n {
        return DEFAULT_PORT;
    }
    let mut acc: u64 = 0;
    let mut j: usize = start;
    while j < n
        invariant
            start <= j <= n,
            n == s@.len(),
            d == port_digits(s@),
            d == s@.skip(start as int),
            forall|k: int| start <= k < j ==> is_digit_char(#[trigger] s@[k]),
            acc as nat == if digits_value(d.take(j - start)) <= 65536 {
                digits_value(d.take(j - start))
            } else {
                65536
            },
        decreases n - j,
    {
        let c = s.get_char(j);
        if !is_digit(c) {
            proof {
                assert(d[j - start] == c);
                assert(!all_digits(d));
            }
            return DEFAULT_PORT;
        }
        proof {
            assert(d.take(j - start + 1).drop_last() =~= d.take(j - start));
            assert(d.take(j - start + 1).last() == c);
        }
        acc = acc * 10 + digit_of(c);
        if acc > 65536 {
            acc = 65536;
        }
        j = j + 1;
    }
    proof {
        assert(d.take(n - start) =~= d);
    }
    if acc <= 65535 {
        acc as u16
    } else {
        DEFAULT_PORT
    }
}

} // verus!
