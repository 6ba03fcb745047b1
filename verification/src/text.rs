//! Small verified text helpers: decimal and boolean rendering.

use vstd::prelude::*;
use vstd::string::StringExecFns;

verus! {

/// The spelling of one decimal digit.
pub open spec fn spec_digit_str(d: int) -> Seq<char> {
    if d == 0 {
        "0"@
    } else if d == 1 {
        "1"@
    } else if d == 2 {
        "2"@
    } else if d == 3 {
        "3"@
    } else if d == 4 {
        "4"@
    } else if d == 5 {
        "5"@
    } else if d == 6 {
        "6"@
    } else if d == 7 {
        "7"@
    } else if d == 8 {
        "8"@
    } else {
        "9"@
    }
}

/// The decimal spelling of a number, most significant digit first,
/// without a sign and without leading zeros (a lone zero spells "0").
pub open spec fn spec_dec(n: int) -> Seq<char>
    decreases n,
{
    if n < 10 {
        spec_digit_str(n)
    } else {
        spec_dec(n / 10) + spec_digit_str(n % 10)
    }
}

/// The spelling of a boolean.
pub open spec fn spec_bool_str(b: bool) -> Seq<char> {
    if b {
        "true"@
    } else {
        "false"@
    }
}

/// One decimal digit as text.
fn digit_str(d: u16) -> (r: &'static str)
    requires
        d < 10,
    ensures
        r@ == spec_digit_str(d as int),
{
    match d {
        0 => "0",
        1 => "1",
        2 => "2",
        3 => "3",
        4 => "4",
        5 => "5",
        6 => "6",
        7 => "7",
        8 => "8",
        _ => "9",
    }
}

/// Renders a number in decimal.
pub fn dec_u16(n: u16) -> (r: String)
    ensures
        r@ == spec_dec(n as int),
    decreases n,
{
    if n < 10 {
        digit_str(n).to_owned()
    } else {
        let mut s = dec_u16(n / 10);
        s.append(digit_str(n % 10));
        s
    }
}

/// Renders a boolean.
pub fn bool_str(b: bool) -> (r: &'static str)
    ensures
        r@ == spec_bool_str(b),
{
    if b {
        "true"
    } else {
        "false"
    }
}

} // verus!
