//! IEEE 754 doubles by their bits.

use vstd::prelude::*;

verus! {

/// The bits without the sign bit.
pub open spec fn magnitude(bits: u64) -> u64 {
    bits % 0x8000_0000_0000_0000
}

/// The bits are those of no number.
pub open spec fn is_nan(bits: u64) -> bool {
    magnitude(bits) > 0x7ff0_0000_0000_0000
}

/// Two doubles are equal: both are numbers, and they are the same number.
/// Positive and negative zero are the same.
pub open spec fn equal(a: u64, b: u64) -> bool {
    &&& !is_nan(a)
    &&& !is_nan(b)
    &&& a == b || (magnitude(a) == 0 && magnitude(b) == 0)
}

/// Tells whether two doubles, given by their bits, are equal.
pub fn eq_doubles(a: u64, b: u64) -> (res: bool)
    ensures
        res == equal(a, b),
{
    let x = a % 0x8000_0000_0000_0000;
    let y = b % 0x8000_0000_0000_0000;
    x <= 0x7ff0_0000_0000_0000 && y <= 0x7ff0_0000_0000_0000 && (a == b || (x == 0 && y == 0))
}

/// Two doubles are equal if neither is NaN, which has an exponent of all ones
/// and a fraction that is not zero, and if they have the same sign, exponent and
/// fraction, or are both zero.
pub proof fn equal_doubles(a: u64, b: u64)
    ensures
        ({
            let (sign1, sign2) = (a / 0x8000_0000_0000_0000, b / 0x8000_0000_0000_0000);
            let (exponent1, exponent2) = (
                a / 0x10_0000_0000_0000 % 2048,
                b / 0x10_0000_0000_0000 % 2048,
            );
            let (fraction1, fraction2) = (a % 0x10_0000_0000_0000, b % 0x10_0000_0000_0000);
            &&& is_nan(a) <==> exponent1 == 2047 && fraction1 != 0
            &&& equal(a, b) <==> {
                &&& !(exponent1 == 2047 && fraction1 != 0)
                &&& !(exponent2 == 2047 && fraction2 != 0)
                &&& exponent1 == exponent2
                &&& fraction1 == fraction2
                &&& sign1 == sign2 || (exponent1 == 0 && fraction1 == 0)
            }
        }),
{
}

} // verus!
