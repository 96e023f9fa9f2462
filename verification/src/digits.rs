//! Decimal rendering of unsigned integers and of fixed-point
//! hundredths, the building blocks of every display string and of the
//! JSON encoding.

use vstd::prelude::*;

verus! {

/// The character for one decimal digit value.
pub open spec fn digit_char_of(d: nat) -> char {
    if d == 0 {
        '0'
    } else if d == 1 {
        '1'
    } else if d == 2 {
        '2'
    } else if d == 3 {
        '3'
    } else if d == 4 {
        '4'
    } else if d == 5 {
        '5'
    } else if d == 6 {
        '6'
    } else if d == 7 {
        '7'
    } else if d == 8 {
        '8'
    } else {
        '9'
    }
}

/// Decimal rendering of a natural number, most significant digit first,
/// without a sign and without leading zeros (zero itself is "0").
pub open spec fn dec_of(n: nat) -> Seq<char>
    decreases n,
{
    if n < 10 {
        seq![digit_char_of(n)]
    } else {
        dec_of(n / 10).push(digit_char_of(n % 10))
    }
}

/// Rendering of a quantity counted in hundredths: the whole part in
/// decimal, a dot, then exactly two fraction digits.
pub open spec fn centi_of(c: nat) -> Seq<char> {
    dec_of(c / 100).push('.').push(digit_char_of((c / 10) % 10)).push(digit_char_of(c % 10))
}

/// Relies on `String::push`: appends exactly the one given character.
#[verifier::external_body]
pub(crate) fn push_char(s: &mut String, c: char)
    ensures
        final(s)@ == old(s)@.push(c),
{
    s.push(c);
}

/// The character for one decimal digit value.
pub(crate) fn digit_char(d: u64) -> (c: char)
    requires
        d < 10,
    ensures
        c == digit_char_of(d as nat),
{
    if d == 0 {
        '0'
    } else if d == 1 {
        '1'
    } else if d == 2 {
        '2'
    } else if d == 3 {
        '3'
    } else if d == 4 {
        '4'
    } else if d == 5 {
        '5'
    } else if d == 6 {
        '6'
    } else if d == 7 {
        '7'
    } else if d == 8 {
        '8'
    } else {
        '9'
    }
}

/// Renders `n` in decimal, e.g. 1024 becomes "1024".
pub fn u64_dec(n: u64) -> (r: String)
    ensures
        r@ == dec_of(n as nat),
    decreases n,
{
    if n < 10 {
        let mut s = String::new();
        push_char(&mut s, digit_char(n));
        proof {
            assert(s@ =~= dec_of(n as nat));
        }
        s
    } else {
        let mut s = u64_dec(n / 10);
        push_char(&mut s, digit_char(n % 10));
        s
    }
}

/// Renders a count of hundredths as a fixed-point decimal with two
/// fraction digits, e.g. 150 becomes "1.50".
pub fn centi_string(c: u64) -> (r: String)
    ensures
        r@ == centi_of(c as nat),
{
    let mut s = u64_dec(c / 100);
    push_char(&mut s, '.');
    push_char(&mut s, digit_char((c / 10) % 10));
    push_char(&mut s, digit_char(c % 10));
    s
}

} // verus!
