//! Properties of the processor model that hold for every state and every
//! operand: they relate several instructions, or an instruction and the
//! registers' ranges.
use vstd::prelude::*;
use crate::state::{word, is_branch, branch_taken, stack_address, CpuState};
use crate::status::{
    carry_in, flag, lemma_with_flag, lemma_zero_negative, with_flag, CARRY, OVERFLOW,
};

verus! {

/// Splitting a 16-bit value into its high and low bytes and joining them
/// again gives the value back.
pub proof fn lemma_word_split(v: u16)
    ensures
        word((v & 0xff) as u8, (v >> 8) as u8) == v,
{
    assert(((((v >> 8) as u8) as u16) << 8) | (((v & 0xff) as u8) as u16) == v) by (bit_vector);
}

/// A push followed by a pull gives back the byte pushed and returns the
/// stack pointer to its value before the push; the byte stays written in
/// the stack page.
pub proof fn lemma_push_pop(s: CpuState, v: u8)
    requires
        s.wf(),
    ensures
        s.push(v).pop().1 == v,
        s.push(v).pop().0.sp == s.sp,
        s.push(v).pop().0 == s.write8(stack_address(s.sp), v),
{
    let t = s.push(v);
    assert(stack_address(t.sp.wrapping_add(1)) == stack_address(s.sp));
    assert(t.pop().0 =~= s.write8(stack_address(s.sp), v));
}

/// Pushing a 16-bit value and pulling 16 bits gives the value back and
/// returns the stack pointer to its value before the push.
pub proof fn lemma_push_pop_u16(s: CpuState, v: u16)
    requires
        s.wf(),
    ensures
        s.push_u16(v).pop_u16().1 == v,
        s.push_u16(v).pop_u16().0.sp == s.sp,
        s.push_u16(v).pop_u16().0.mem.len() == s.mem.len(),
{
    let hi = (v >> 8) as u8;
    let lo = (v & 0xff) as u8;
    let s1 = s.push(hi);
    let s2 = s1.push(lo);
    lemma_push_pop(s1, lo);
    assert(s2.pop().0.sp == s1.sp);
    assert(s2.pop().0.read8(stack_address(s2.pop().0.sp.wrapping_add(1))) == hi) by {
        assert(stack_address(s1.sp.wrapping_add(1)) == stack_address(s.sp));
        assert(stack_address(s1.sp) != stack_address(s.sp));
    }
    lemma_word_split(v);
}

/// `PHA` followed by `PLA` gives the accumulator back and returns the stack
/// pointer to its value before the `PHA`.
pub proof fn lemma_pha_then_pla(s: CpuState)
    requires
        s.wf(),
        s.read8(s.pc) == 0x48,
        s.step().read8(s.step().pc) == 0x68,
    ensures
        s.step().step().a == s.a,
        s.step().step().sp == s.sp,
{
    let s1 = CpuState { pc: s.pc.wrapping_add(1), ..s };
    lemma_push_pop(s1, s1.a);
    let u = s.step();
    assert(u.sp == s1.push(s1.a).sp && u.mem == s1.push(s1.a).mem);
    assert(u.pop() == (CpuState { pc: u.pc, ..s1.push(s1.a).pop().0 }, s1.a));
}

/// Add-with-carry, which both ADC and SBC use: the accumulator, the operand
/// and the carry in add up to the new accumulator plus 256 times the carry
/// out, a 9-bit sum with no loss.
pub proof fn lemma_add_with_carry(s: CpuState, v: u8)
    ensures
        s.a + v + carry_in(s.p) == 256 * carry_in(s.add_with_carry(v).p) + s.add_with_carry(v).a,
{
    let p = s.p;
    assert((p & CARRY) == (if p & CARRY != 0 { 1u8 } else { 0u8 })) by (bit_vector);
    let sum = (s.a + v + (p & CARRY)) as u16;
    assert(sum as u8 == sum % 256) by (bit_vector);
    let result = sum as u8;
    let overflow = (v ^ result) & (result ^ s.a) & 0x80 != 0;
    let carried = with_flag(p, CARRY, sum > 0xff);
    let flagged = with_flag(carried, OVERFLOW, overflow);
    lemma_with_flag(p, CARRY, OVERFLOW, sum > 0xff);
    lemma_with_flag(carried, OVERFLOW, CARRY, overflow);
    lemma_zero_negative(flagged, result);
    assert(flag(s.add_with_carry(v).p, CARRY) == (sum > 0xff));
}

/// The same 9-bit sum, seen through ADC and SBC: SBC adds the one's
/// complement of its operand.
pub proof fn lemma_adc_sbc_sum(s: CpuState, mode: crate::cpu::AddressingMode)
    ensures
        s.a + s.operand(mode) + carry_in(s.p) == 256 * carry_in(s.adc(mode).p) + s.adc(mode).a,
        s.a + (0xff - s.operand(mode)) + carry_in(s.p) == 256 * carry_in(s.sbc(mode).p) + s.sbc(
            mode,
        ).a,
{
    lemma_add_with_carry(s, s.operand(mode));
    lemma_add_with_carry(s, (0xff - s.operand(mode)) as u8);
}

/// A branch whose condition does not hold moves `pc` past its two bytes,
/// modulo 65536, and changes nothing else.
pub proof fn lemma_branch_not_taken(s: CpuState)
    requires
        s.wf(),
        is_branch(s.read8(s.pc)),
        !branch_taken(s.read8(s.pc), s.p),
    ensures
        s.step() == (CpuState { pc: s.pc.wrapping_add(2), ..s }),
{
}

/// `JSR` followed, at its target, by `RTS` comes back to the instruction
/// right after the three bytes of the `JSR`, with the stack pointer as it
/// was before the `JSR`.
pub proof fn lemma_jsr_then_rts(s: CpuState)
    requires
        s.wf(),
        s.read8(s.pc) == 0x20,
        s.step().read8(s.step().pc) == 0x60,
    ensures
        s.step().step().pc == s.pc.wrapping_add(3),
        s.step().step().sp == s.sp,
{
    let s1 = CpuState { pc: s.pc.wrapping_add(1), ..s };
    let ret = s1.pc.wrapping_add(1);
    lemma_push_pop_u16(s1, ret);
    let u = s.step();
    assert(u.sp == s1.push_u16(ret).sp && u.mem == s1.push_u16(ret).mem);
    assert(u.pop_u16().1 == s1.push_u16(ret).pop_u16().1);
}

/// Every instruction keeps the memory at 64 KiB; the registers stay within
/// their widths (8 bits, 16 bits for `pc`).
pub proof fn lemma_step_keeps_shape(s: CpuState)
    requires
        s.wf(),
    ensures
        s.step().wf(),
        s.step().a <= 0xff && s.step().x <= 0xff && s.step().y <= 0xff,
        s.step().sp <= 0xff && s.step().p <= 0xff && s.step().pc <= 0xffff,
{
}

/// The same for a whole run of any length.
pub proof fn lemma_run_keeps_shape(s: CpuState, fuel: nat)
    requires
        s.wf(),
    ensures
        s.run(fuel).0.wf(),
    decreases fuel,
{
    lemma_step_keeps_shape(s);
    if fuel > 0 {
        lemma_run_keeps_shape(s.step(), (fuel - 1) as nat);
    }
}

} // verus!
