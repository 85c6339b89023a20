//! Decimal text of unsigned integers, as the LED driver accepts it.
use vstd::prelude::*;

verus! {

/// ASCII code of the digit `0`.
pub const DIGIT_ZERO: u8 = 48;

/// The ASCII decimal digits of `n`, most significant first, with no sign,
/// no leading zeros (but for `0` itself) and no terminator.
pub open spec fn decimal(n: nat) -> Seq<u8>
    decreases n,
{
    if n < 10 {
        seq![(DIGIT_ZERO + n) as u8]
    } else {
        decimal(n / 10).push((DIGIT_ZERO + n % 10) as u8)
    }
}

/// Whether `b` is the ASCII code of a decimal digit.
pub open spec fn is_digit(b: u8) -> bool {
    DIGIT_ZERO <= b && b <= DIGIT_ZERO + 9
}

/// The decimal text of `n`.
pub fn decimal_bytes(n: u32) -> (r: Vec<u8>)
    ensures
        r@ == decimal(n as nat),
    decreases n,
{
    if n < 10 {
        vec![DIGIT_ZERO + n as u8]
    } else {
        let mut r = decimal_bytes(n / 10);
        r.push(DIGIT_ZERO + (n % 10) as u8);
        r
    }
}

} // verus!
