//! Decimal rendering of integers: the textual form that display strings use
//! for integer columns, with zero-padded fixed-width forms for the parts of
//! temporal values.

use vstd::prelude::*;

verus! {

/// The decimal digit character for one value below ten.
pub open spec fn digit_seq(d: nat) -> Seq<char> {
    if d == 0 {
        "0"@
    } else if d == 1 {
        "1"@
    } else if d == 2 {
        "2"@
    } else if d == 3 {
        "3"@
    } else if d == 4 {
        "4"@
    } else if d == 5 {
        "5"@
    } else if d == 6 {
        "6"@
    } else if d == 7 {
        "7"@
    } else if d == 8 {
        "8"@
    } else {
        "9"@
    }
}

/// Decimal text of a natural number: most significant digit first, no sign,
/// no leading zeros (zero itself is a single digit).
pub open spec fn dec_nat(n: nat) -> Seq<char>
    decreases n,
{
    if n < 10 {
        digit_seq(n)
    } else {
        dec_nat(n / 10) + digit_seq(n % 10)
    }
}

/// Decimal text of an integer: a leading minus sign for negative values.
pub open spec fn dec_int(i: int) -> Seq<char> {
    if i < 0 {
        "-"@ + dec_nat((-i) as nat)
    } else {
        dec_nat(i as nat)
    }
}

/// Decimal text of a natural number, zero-padded on the left to two digits.
pub open spec fn pad2(n: nat) -> Seq<char> {
    if n < 10 {
        "0"@ + dec_nat(n)
    } else {
        dec_nat(n)
    }
}

/// Decimal text of a natural number, zero-padded on the left to four digits.
pub open spec fn pad4(n: nat) -> Seq<char> {
    if n < 10 {
        "000"@ + dec_nat(n)
    } else if n < 100 {
        "00"@ + dec_nat(n)
    } else if n < 1000 {
        "0"@ + dec_nat(n)
    } else {
        dec_nat(n)
    }
}

fn digit_str(d: u64) -> (r: &'static str)
    requires
        d < 10,
    ensures
        r@ == digit_seq(d as nat),
{
    if d == 0 {
        "0"
    } else if d == 1 {
        "1"
    } else if d == 2 {
        "2"
    } else if d == 3 {
        "3"
    } else if d == 4 {
        "4"
    } else if d == 5 {
        "5"
    } else if d == 6 {
        "6"
    } else if d == 7 {
        "7"
    } else if d == 8 {
        "8"
    } else {
        "9"
    }
}

/// Renders an unsigned integer as decimal text.
pub fn u64_to_dec(n: u64) -> (r: String)
    ensures
        r@ == dec_nat(n as nat),
    decreases n,
{
    if n < 10 {
        String::from_str(digit_str(n))
    } else {
        let mut s = u64_to_dec(n / 10);
        s.append(digit_str(n % 10));
        s
    }
}

/// Renders a signed 64-bit integer as decimal text.
pub fn i64_to_dec(n: i64) -> (r: String)
    ensures
        r@ == dec_int(n as int),
{
    if n >= 0 {
        u64_to_dec(n as u64)
    } else {
        let mag: u64 = if n == i64::MIN {
            9223372036854775808u64
        } else {
            (-n) as u64
        };
        assert(mag as int == -(n as int));
        String::from_str("-").concat(u64_to_dec(mag).as_str())
    }
}

/// Renders a signed 32-bit integer as decimal text.
pub fn i32_to_dec(n: i32) -> (r: String)
    ensures
        r@ == dec_int(n as int),
{
    if n >= 0 {
        u64_to_dec(n as u64)
    } else {
        let mag: u64 = if n == i32::MIN {
            2147483648u64
        } else {
            (-n) as u64
        };
        assert(mag as int == -(n as int));
        String::from_str("-").concat(u64_to_dec(mag).as_str())
    }
}

/// Renders a natural number below one hundred as two decimal digits.
pub fn pad2_u8(n: u8) -> (r: String)
    ensures
        r@ == pad2(n as nat),
{
    if n < 10 {
        String::from_str("0").concat(u64_to_dec(n as u64).as_str())
    } else {
        u64_to_dec(n as u64)
    }
}

/// Renders a natural number as at least four decimal digits.
pub fn pad4_u32(n: u32) -> (r: String)
    ensures
        r@ == pad4(n as nat),
{
    if n < 10 {
        String::from_str("000").concat(u64_to_dec(n as u64).as_str())
    } else if n < 100 {
        String::from_str("00").concat(u64_to_dec(n as u64).as_str())
    } else if n < 1000 {
        String::from_str("0").concat(u64_to_dec(n as u64).as_str())
    } else {
        u64_to_dec(n as u64)
    }
}

} // verus!
