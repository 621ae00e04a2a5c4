//! The 8-bit arithmetic that the operations are built from: wrapping sums and
//! differences with their overflow indicators, and the one-bit shift.

use vstd::prelude::*;

verus! {

/// `x + y` reduced to eight bits.
pub open spec fn wrapping_sum(x: u8, y: u8) -> u8 {
    ((x + y) % 256) as u8
}

/// Whether `x + y` carries out of bit 7.
pub open spec fn carries(x: u8, y: u8) -> bool {
    x + y >= 256
}

/// `x - y` reduced to eight bits.
pub open spec fn wrapping_diff(x: u8, y: u8) -> u8 {
    ((x - y) % 256) as u8
}

/// Whether `x - y` borrows from beyond bit 7.
pub open spec fn borrows(x: u8, y: u8) -> bool {
    x < y
}

/// `val` moved one bit to the left or to the right, with the bits of `or_op`
/// set in the outcome.
pub open spec fn shifted(is_left: bool, val: u8, or_op: u8) -> u8 {
    if is_left {
        (val << 1u8) | or_op
    } else {
        (val >> 1u8) | or_op
    }
}

/// The bit that a one-bit shift of `val` pushes out: bit 7 when shifting
/// left, bit 0 when shifting right.
pub open spec fn shifted_out(is_left: bool, val: u8) -> bool {
    if is_left {
        val & 0x80 == 0x80
    } else {
        val & 0x01 == 0x01
    }
}

/// The value of a flag as an operand: 1 when it is set, 0 when it is clear.
pub open spec fn bit(flag: bool) -> u8 {
    if flag {
        1
    } else {
        0
    }
}

/// The low nibble of a byte is at most 15.
pub proof fn lemma_low_nibble(x: u8)
    ensures
        x & 0x0F <= 0x0F,
{
    assert(x & 0x0F <= 0x0F) by (bit_vector);
}

/// Wrapping addition together with its carry out of bit 7.
pub fn overflowing_add(x: u8, y: u8) -> (r: (u8, bool))
    ensures
        r == (wrapping_sum(x, y), carries(x, y)),
{
    (x.wrapping_add(y), y > u8::MAX - x)
}

/// Wrapping subtraction together with its borrow.
pub fn overflowing_sub(x: u8, y: u8) -> (r: (u8, bool))
    ensures
        r == (wrapping_diff(x, y), borrows(x, y)),
{
    (x.wrapping_sub(y), x < y)
}

/// The flag `flag` as the byte 1 or 0.
pub fn flag_bit(flag: bool) -> (b: u8)
    ensures
        b == bit(flag),
{
    if flag {
        1
    } else {
        0
    }
}

} // verus!
