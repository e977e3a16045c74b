//! Numbers written out in decimal digits, for the entries of a log.

use vstd::prelude::*;

verus! {

/// `String::push` of std: the character is appended to the end of the string.
#[verifier::external_body]
fn push_char(text: &mut String, c: char)
    ensures
        final(text)@ == old(text)@.push(c),
{
    text.push(c)
}

/// The character of a decimal digit.
pub open spec fn digit(value: nat) -> char {
    if value == 0 {
        '0'
    } else if value == 1 {
        '1'
    } else if value == 2 {
        '2'
    } else if value == 3 {
        '3'
    } else if value == 4 {
        '4'
    } else if value == 5 {
        '5'
    } else if value == 6 {
        '6'
    } else if value == 7 {
        '7'
    } else if value == 8 {
        '8'
    } else {
        '9'
    }
}

/// A number in decimal digits, without leading zeros.
pub open spec fn decimal(number: nat) -> Seq<char>
    decreases number,
{
    if number < 10 {
        seq![digit(number)]
    } else {
        decimal(number / 10).push(digit(number % 10))
    }
}

fn digit_char(value: u64) -> (c: char)
    requires
        value < 10,
    ensures
        c == digit(value as nat),
{
    if value == 0 {
        '0'
    } else if value == 1 {
        '1'
    } else if value == 2 {
        '2'
    } else if value == 3 {
        '3'
    } else if value == 4 {
        '4'
    } else if value == 5 {
        '5'
    } else if value == 6 {
        '6'
    } else if value == 7 {
        '7'
    } else if value == 8 {
        '8'
    } else {
        '9'
    }
}

/// Appends a number in decimal digits to a text.
pub fn append_decimal(text: &mut String, number: u64)
    ensures
        final(text)@ == old(text)@ + decimal(number as nat),
    decreases number,
{
    if number >= 10 {
        append_decimal(text, number / 10);
    }
    push_char(text, digit_char(number % 10));
    assert(text@ == old(text)@ + decimal(number as nat));
}

/// A number in decimal digits.
pub fn decimal_string(number: u64) -> (text: String)
    ensures
        text@ == decimal(number as nat),
{
    let mut text = String::new();
    append_decimal(&mut text, number);
    assert(text@ == decimal(number as nat));
    text
}

} // verus!
