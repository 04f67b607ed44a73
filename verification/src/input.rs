use vstd::prelude::*;

verus! {

/// The sign bit of an IEEE 754 single.
pub const SIGN_BIT: u32 = 0x8000_0000;

/// The bits of positive infinity. A greater magnitude is not a number.
pub const INFINITY_BITS: u32 = 0x7f80_0000;

/// The bits of a single without its sign.
pub open spec fn magnitude(bits: u32) -> int {
    bits as int % SIGN_BIT as int
}

/// The direction of a scroll delta, given as the bits of an IEEE 754
/// single: `1` for a value above zero, `-1` for one below, and `0` for
/// either zero and for what is not a number.
pub open spec fn direction(bits: u32) -> int {
    if magnitude(bits) == 0 || magnitude(bits) > INFINITY_BITS {
        0
    } else if bits >= SIGN_BIT {
        -1
    } else {
        1
    }
}

/// Turns a scroll delta into one step of the brightness. The delta is given
/// by its bits, as `f32::to_bits` returns them.
pub fn sign(bits: u32) -> (step: i32)
    ensures
        step == direction(bits),
        -1 <= step <= 1,
{
    let magnitude: u32 = bits % SIGN_BIT;
    if magnitude == 0 || magnitude > INFINITY_BITS {
        0
    } else if bits >= SIGN_BIT {
        -1
    } else {
        1
    }
}

} // verus!
