//! What holds of the operations for every register content and every operand,
//! stated over the ghost functions that the executable methods are proved
//! against.

use vstd::prelude::*;
use crate::alu::shifted_out;
use crate::cpu::CPU;
use crate::opcode::{Instruction, Operand, RotOp};
use crate::registers::Reg;

verus! {

/// Adding `y` to an accumulator that holds `x` leaves `(x + y) mod 256` there.
/// Carry is set exactly when `x + y >= 256`, HalfCarry exactly when the low
/// nibbles of `x` and `y` add up to more than 15, Zero exactly when the result
/// is 0, and Subtract is cleared.
pub proof fn add_is_modular(cpu: CPU, y: u8)
    ensures
        cpu.added(y).registers.a == (cpu.registers.a + y) % 256,
        cpu.added(y).flags.carry_flag <==> cpu.registers.a + y >= 256,
        cpu.added(y).flags.hc_flag <==> (cpu.registers.a & 0x0F) + (y & 0x0F) > 0x0F,
        cpu.added(y).flags.zero_flag <==> cpu.added(y).registers.a == 0,
        !cpu.added(y).flags.sub_flag,
{
}

/// Subtracting `y` from an accumulator that holds `x` leaves `(x - y) mod 256`
/// there. Carry is set exactly when `x < y`, HalfCarry exactly when the low
/// nibble of `x` is below that of `y`, Zero exactly when the result is 0, and
/// Subtract is set.
pub proof fn subtract_is_modular(cpu: CPU, y: u8)
    ensures
        cpu.subtracted(y).registers.a == (cpu.registers.a - y) % 256,
        cpu.subtracted(y).flags.carry_flag <==> cpu.registers.a < y,
        cpu.subtracted(y).flags.hc_flag <==> (cpu.registers.a & 0x0F) < (y & 0x0F),
        cpu.subtracted(y).flags.zero_flag <==> cpu.subtracted(y).registers.a == 0,
        cpu.subtracted(y).flags.sub_flag,
{
}

/// Comparing sets the flags exactly as subtracting does, and leaves the
/// accumulator, like every other register, as it was.
pub proof fn compare_is_subtract_without_store(cpu: CPU, y: u8)
    ensures
        cpu.compared(y).flags == cpu.subtracted(y).flags,
        cpu.compared(y).registers == cpu.registers,
        cpu.compared(y).registers.a == cpu.registers.a,
{
}

/// Whatever the accumulator and the operand hold, a bitwise AND clears Carry
/// and Subtract and sets HalfCarry.
pub proof fn and_fixes_three_flags(cpu: CPU, y: u8)
    ensures
        !cpu.anded(y).flags.carry_flag,
        !cpu.anded(y).flags.sub_flag,
        cpu.anded(y).flags.hc_flag,
        cpu.anded(y).registers.a == cpu.registers.a & y,
{
}

/// The left shift `SLA` sets every bit of its result, whatever it shifts.
pub proof fn sla_sets_every_bit(val: u8, carry: bool)
    ensures
        RotOp::SLA.result(val, carry) == 0xFF,
{
    assert((val << 1u8) | 0xFFu8 == 0xFFu8) by (bit_vector);
}

/// A code that the dispatcher reports as unrecognized changes no register and
/// no flag.
pub proof fn unrecognized_changes_nothing(cpu: CPU, code: u8, val: u8)
    requires
        CPU::status(code, val) is Err,
    ensures
        cpu.step(code, val) == cpu,
{
}

/// The operand byte is read only by the codes that take one: the immediate
/// forms and the escape code. Every other code does the same whatever the
/// operand byte is.
pub proof fn operand_byte_is_ignored(cpu: CPU, code: u8, val: u8, other: u8)
    requires
        !(Instruction::of(code) matches Some(Instruction::Alu(_, Operand::Immediate))),
        Instruction::of(code) != Some(Instruction::Prefix),
    ensures
        cpu.step(code, val) == cpu.step(code, other),
        CPU::status(code, val) == CPU::status(code, other),
{
}

/// The state after `count` rotate-lefts (`RLC`) of register `reg`, one after
/// the other.
pub open spec fn rlc_repeated(cpu: CPU, reg: Reg, count: nat) -> CPU
    decreases count,
{
    if count == 0 {
        cpu
    } else {
        rlc_repeated(cpu, reg, (count - 1) as nat).rotated(RotOp::RLC, reg)
    }
}

/// One rotate-left of a byte.
spec fn rotl(val: u8) -> u8 {
    (val << 1u8) | ((val & 0x80) >> 7u8)
}

/// Eight rotate-lefts bring every bit of a byte back to its place, and the
/// last of them pushes out what was bit 0 of the byte.
proof fn lemma_rotl_eight_times(val: u8)
    ensures
        rotl(rotl(rotl(rotl(rotl(rotl(rotl(rotl(val)))))))) == val,
        shifted_out(true, rotl(rotl(rotl(rotl(rotl(rotl(rotl(val)))))))) <==> val & 0x01 == 0x01,
{
    assert(rotl(rotl(rotl(rotl(rotl(rotl(rotl(rotl(val)))))))) == val) by (bit_vector);
    assert((rotl(rotl(rotl(rotl(rotl(rotl(rotl(val))))))) & 0x80 == 0x80) <==> val & 0x01 == 0x01)
        by (bit_vector);
}

/// `count` rotate-lefts of `reg` change no other register, and leave in `reg`
/// the byte rotated `count` times.
proof fn lemma_rlc_repeated(cpu: CPU, reg: Reg, count: nat)
    requires
        count > 0,
    ensures
        rlc_repeated(cpu, reg, count).registers == cpu.registers.with(
            reg,
            rlc_repeated(cpu, reg, count).registers.get(reg),
        ),
        rlc_repeated(cpu, reg, count).registers.get(reg) == rotl(
            rlc_repeated(cpu, reg, (count - 1) as nat).registers.get(reg),
        ),
        rlc_repeated(cpu, reg, count).flags.carry_flag == shifted_out(
            true,
            rlc_repeated(cpu, reg, (count - 1) as nat).registers.get(reg),
        ),
    decreases count,
{
    reveal_with_fuel(rlc_repeated, 2);
    if count > 1 {
        lemma_rlc_repeated(cpu, reg, (count - 1) as nat);
    }
}

/// Rotating a register left eight times returns every register to the value
/// it had. Carry then holds what was bit 0 of the rotated register, the bit
/// that the eighth rotation pushes out.
pub proof fn rlc_eight_times_is_identity(cpu: CPU, reg: Reg)
    ensures
        rlc_repeated(cpu, reg, 8).registers == cpu.registers,
        rlc_repeated(cpu, reg, 8).flags.carry_flag <==> cpu.registers.get(reg) & 0x01 == 0x01,
{
    lemma_rlc_repeated(cpu, reg, 1);
    lemma_rlc_repeated(cpu, reg, 2);
    lemma_rlc_repeated(cpu, reg, 3);
    lemma_rlc_repeated(cpu, reg, 4);
    lemma_rlc_repeated(cpu, reg, 5);
    lemma_rlc_repeated(cpu, reg, 6);
    lemma_rlc_repeated(cpu, reg, 7);
    lemma_rlc_repeated(cpu, reg, 8);
    lemma_rotl_eight_times(cpu.registers.get(reg));
}

/// Where bit 7 and bit 0 of a register are equal, eight rotate-lefts leave
/// Carry equal to the bit 7 that the register had before the first of them.
pub proof fn rlc_eight_times_carry(cpu: CPU, reg: Reg)
    requires
        cpu.registers.get(reg) & 0x80 == 0x80 <==> cpu.registers.get(reg) & 0x01 == 0x01,
    ensures
        rlc_repeated(cpu, reg, 8).flags.carry_flag <==> cpu.registers.get(reg) & 0x80 == 0x80,
{
    rlc_eight_times_is_identity(cpu, reg);
}

} // verus!
