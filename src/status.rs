//! The processor status register `P` and the rules that update its bits.
use vstd::prelude::*;

verus! {

/// Carry: unsigned overflow from an add, "no borrow" from a subtract, the
/// bit shifted out by a shift or rotate.
pub const CARRY: u8 = 0b0000_0001;

/// Zero: the last value that affects it was zero.
pub const ZERO: u8 = 0b0000_0010;

/// Interrupt disable.
pub const INTERRUPT_DISABLE: u8 = 0b0000_0100;

/// Decimal mode (kept as a bit; arithmetic is always binary).
pub const DECIMAL: u8 = 0b0000_1000;

/// Break: set only in the copy of `P` that `PHP` pushes.
pub const BREAK: u8 = 0b0001_0000;

/// Unused bit, conventionally 1 once `P` has been pulled from the stack.
pub const UNUSED: u8 = 0b0010_0000;

/// Signed overflow.
pub const OVERFLOW: u8 = 0b0100_0000;

/// Negative: bit 7 of the last value that affects it.
pub const NEGATIVE: u8 = 0b1000_0000;

/// `mask` names exactly one bit of a byte.
pub open spec fn is_flag_bit(mask: u8) -> bool {
    mask == CARRY || mask == ZERO || mask == INTERRUPT_DISABLE || mask == DECIMAL || mask == BREAK
        || mask == UNUSED || mask == OVERFLOW || mask == NEGATIVE
}

/// The bit `mask` of `p` is set.
pub open spec fn flag(p: u8, mask: u8) -> bool {
    p & mask != 0
}

/// `p` with the bit `mask` set to `on` and every other bit kept.
pub open spec fn with_flag(p: u8, mask: u8, on: bool) -> u8 {
    if on {
        p | mask
    } else {
        p & !mask
    }
}

/// `p` after the Z/N update on the value `v`: Z says whether `v` is zero, N
/// copies bit 7 of `v`.
pub open spec fn update_zn(p: u8, v: u8) -> u8 {
    with_flag(with_flag(p, ZERO, v == 0), NEGATIVE, flag(v, NEGATIVE))
}

/// 1 when the carry bit of `p` is set, else 0.
pub open spec fn carry_in(p: u8) -> int {
    if flag(p, CARRY) {
        1
    } else {
        0
    }
}

/// Sets or clears one bit of a status byte.
pub fn set_flag(p: u8, mask: u8, on: bool) -> (r: u8)
    ensures
        r == with_flag(p, mask, on),
{
    if on {
        p | mask
    } else {
        p & !mask
    }
}

/// Reads one bit of a status byte.
pub fn get_flag(p: u8, mask: u8) -> (r: bool)
    ensures
        r == flag(p, mask),
{
    p & mask != 0
}

/// Setting one bit of `p` gives that bit the new value and keeps every other
/// bit.
pub proof fn lemma_with_flag(p: u8, mask: u8, other: u8, on: bool)
    requires
        is_flag_bit(mask),
        is_flag_bit(other),
        mask != other,
    ensures
        flag(with_flag(p, mask, on), mask) == on,
        flag(with_flag(p, mask, on), other) == flag(p, other),
{
    assert(flag(with_flag(p, mask, on), mask) == on && flag(with_flag(p, mask, on), other) == flag(
        p,
        other,
    )) by (bit_vector)
        requires
            is_flag_bit(mask),
            is_flag_bit(other),
            mask != other,
    ;
}

/// After the Z/N update on a value `v`, Z is set exactly when `v` is zero, N
/// is set exactly when bit 7 of `v` is set (`v >= 0x80`), and every other
/// status bit is as it was.
pub proof fn lemma_zero_negative(p: u8, v: u8)
    ensures
        flag(update_zn(p, v), ZERO) == (v == 0),
        flag(update_zn(p, v), NEGATIVE) == (v >= 0x80),
        forall|m: u8|
            #![trigger flag(update_zn(p, v), m)]
            is_flag_bit(m) && m != ZERO && m != NEGATIVE ==> flag(update_zn(p, v), m) == flag(p, m),
{
    assert(flag(v, NEGATIVE) == (v >= 0x80)) by (bit_vector);
    lemma_with_flag(p, ZERO, NEGATIVE, v == 0);
    lemma_with_flag(with_flag(p, ZERO, v == 0), NEGATIVE, ZERO, flag(v, NEGATIVE));
    assert forall|m: u8| is_flag_bit(m) && m != ZERO && m != NEGATIVE implies flag(
        update_zn(p, v),
        m,
    ) == flag(p, m) by {
        lemma_with_flag(p, ZERO, m, v == 0);
        lemma_with_flag(with_flag(p, ZERO, v == 0), NEGATIVE, m, flag(v, NEGATIVE));
    }
}

} // verus!
