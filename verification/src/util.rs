//! Small verified building blocks: decimal rendering of integers (for URLs,
//! device names and error accounts) and little-endian decoding of motor
//! speeds.

use vstd::prelude::*;
use vstd::string::StringExecFns;

verus! {

/// The character for one decimal digit.
pub open spec fn dec_digit(d: int) -> char
    recommends
        0 <= d < 10,
{
    if d == 0 {
        '0'
    } else if d == 1 {
        '1'
    } else if d == 2 {
        '2'
    } else if d == 3 {
        '3'
    } else if d == 4 {
        '4'
    } else if d == 5 {
        '5'
    } else if d == 6 {
        '6'
    } else if d == 7 {
        '7'
    } else if d == 8 {
        '8'
    } else {
        '9'
    }
}

/// The decimal rendering of a non-negative integer, without leading zeros
/// (a single zero renders as "0").
pub open spec fn dec_chars(n: int) -> Seq<char>
    recommends
        n >= 0,
    decreases n,
{
    if n < 10 {
        seq![dec_digit(n)]
    } else {
        dec_chars(n / 10).push(dec_digit(n % 10))
    }
}

/// A one-character string slice for the digit `d`.
fn digit_str(d: u8) -> (r: &'static str)
    requires
        d < 10,
    ensures
        r@ =~= seq![dec_digit(d as int)],
{
    proof {
        reveal_strlit("0");
        reveal_strlit("1");
        reveal_strlit("2");
        reveal_strlit("3");
        reveal_strlit("4");
        reveal_strlit("5");
        reveal_strlit("6");
        reveal_strlit("7");
        reveal_strlit("8");
        reveal_strlit("9");
    }
    match d {
        0 => "0",
        1 => "1",
        2 => "2",
        3 => "3",
        4 => "4",
        5 => "5",
        6 => "6",
        7 => "7",
        8 => "8",
        _ => "9",
    }
}

/// Appends the decimal rendering of `n` to `s`.
pub fn push_dec(s: &mut String, n: u64)
    ensures
        final(s)@ == old(s)@ + dec_chars(n as int),
    decreases n,
{
    if n >= 10 {
        push_dec(s, n / 10);
    }
    let d: u8 = (n % 10) as u8;
    s.append(digit_str(d));
    proof {
        assert(s@ =~= old(s)@ + dec_chars(n as int));
    }
}

/// The decimal rendering of `n` as an owned string.
pub fn dec_string(n: u64) -> (r: String)
    ensures
        r@ == dec_chars(n as int),
{
    let mut s = String::new();
    push_dec(&mut s, n);
    proof {
        assert(s@ =~= dec_chars(n as int));
    }
    s
}

/// An 8-bit counter advanced by one, wrapping at the top.
pub open spec fn wrapping_inc(n: u8) -> u8 {
    if n == 255 {
        0u8
    } else {
        (n + 1) as u8
    }
}

/// The wrapping increment, executably.
pub fn wrapping_inc_u8(n: u8) -> (r: u8)
    ensures
        r == wrapping_inc(n),
{
    if n == 255 {
        0
    } else {
        n + 1
    }
}

/// The value of two bytes read as a little-endian 16-bit integer.
pub open spec fn u16_from_le(lo: u8, hi: u8) -> u16 {
    (lo + hi * 256) as u16
}

/// Reads the little-endian 16-bit integer at `offset`.
pub fn read_u16_le(data: &Vec<u8>, offset: usize) -> (r: u16)
    requires
        offset + 1 < data@.len(),
    ensures
        r == u16_from_le(data@[offset as int], data@[offset as int + 1]),
{
    let n = data.len();
    let lo = data[offset] as u16;
    let hi = data[offset + 1] as u16;
    lo + hi * 256
}

} // verus!
