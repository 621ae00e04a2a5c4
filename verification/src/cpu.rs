//! The CPU: register file and flags, the operations on them, and the two
//! dispatchers that run an operation by its code byte.
//!
//! Every operation is described twice. A ghost function gives the state that
//! the operation leaves behind as a value; the executable method of the same
//! purpose is proved to leave exactly that state.

use vstd::prelude::*;
use crate::alu::{
    bit, borrows, carries, flag_bit, lemma_low_nibble, overflowing_add, overflowing_sub, shifted,
    shifted_out, wrapping_diff, wrapping_sum,
};
use crate::flags::{Flags, OpType};
use crate::opcode::{AluOp, Instruction, Operand, RotOp, Rotation, UnrecognizedOpcode};
use crate::registers::{Reg, Registers};

verus! {

/// Register file and flags of one CPU.
#[derive(Clone, Copy, Debug, PartialEq, Eq, Structural)]
pub struct CPU {
    pub registers: Registers,
    pub flags: Flags,
}

impl RotOp {
    /// Whether the operation moves the bits to the left.
    pub open spec fn is_left(self) -> bool {
        self is RLC || self is RL || self is SLA
    }

    /// The bits that the operation sets in the shifted value, given the value
    /// `val` before the shift and the Carry flag before the operation.
    ///
    /// `SLA` sets all eight bits, so that its result is `0xFF` whatever `val`
    /// is.
    pub open spec fn fill(self, val: u8, carry: bool) -> u8 {
        match self {
            RotOp::RLC => (val & 0x80) >> 7u8,
            RotOp::RL => bit(carry),
            RotOp::SLA => 0xFF,
            RotOp::RRC => (val & 0x01) << 7u8,
            RotOp::RR => bit(carry) << 7u8,
            RotOp::SRA => val & 0x80,
            RotOp::SRL => 0,
        }
    }

    /// The value that the operation makes of `val`.
    pub open spec fn result(self, val: u8, carry: bool) -> u8 {
        shifted(self.is_left(), val, self.fill(val, carry))
    }
}

impl CPU {
    /// The right operand of an add or subtract with carry: `val` plus the
    /// Carry flag, reduced to eight bits (so `0xFF` with Carry set gives 0).
    pub open spec fn carry_adjusted(self, val: u8) -> u8 {
        wrapping_sum(val, bit(self.flags.carry_flag))
    }

    /// The state after adding `val` to the accumulator.
    pub open spec fn added(self, val: u8) -> CPU {
        let x = self.registers.a;
        let res = wrapping_sum(x, val);
        CPU {
            registers: self.registers.with(Reg::A, res),
            flags: self.flags.updated(OpType::ADD, x, val, res, carries(x, val)),
        }
    }

    /// The state after subtracting `val` from the accumulator.
    pub open spec fn subtracted(self, val: u8) -> CPU {
        let x = self.registers.a;
        let res = wrapping_diff(x, val);
        CPU {
            registers: self.registers.with(Reg::A, res),
            flags: self.flags.updated(OpType::SUB, x, val, res, borrows(x, val)),
        }
    }

    /// The state after comparing the accumulator with `val`: the flags of the
    /// difference, and no register changed.
    pub open spec fn compared(self, val: u8) -> CPU {
        let x = self.registers.a;
        CPU {
            registers: self.registers,
            flags: self.flags.updated(OpType::CP, x, val, wrapping_diff(x, val), borrows(x, val)),
        }
    }

    /// The state after the bitwise AND of the accumulator with `val`.
    pub open spec fn anded(self, val: u8) -> CPU {
        let x = self.registers.a;
        CPU {
            registers: self.registers.with(Reg::A, x & val),
            flags: self.flags.updated(OpType::AND, x, val, x & val, false),
        }
    }

    /// The state after the bitwise OR of the accumulator with `val`.
    pub open spec fn ored(self, val: u8) -> CPU {
        let x = self.registers.a;
        CPU {
            registers: self.registers.with(Reg::A, x | val),
            flags: self.flags.updated(OpType::OR, x, val, x | val, false),
        }
    }

    /// The state after the bitwise XOR of the accumulator with `val`.
    pub open spec fn xored(self, val: u8) -> CPU {
        let x = self.registers.a;
        CPU {
            registers: self.registers.with(Reg::A, x ^ val),
            flags: self.flags.updated(OpType::XOR, x, val, x ^ val, false),
        }
    }

    /// The state after incrementing register `reg`. Carry keeps its value.
    pub open spec fn incremented(self, reg: Reg) -> CPU {
        let x = self.registers.get(reg);
        let res = wrapping_sum(x, 1);
        CPU {
            registers: self.registers.with(reg, res),
            flags: self.flags.updated(OpType::INC, x, 1, res, carries(x, 1)),
        }
    }

    /// The state after decrementing register `reg`. Carry keeps its value.
    pub open spec fn decremented(self, reg: Reg) -> CPU {
        let x = self.registers.get(reg);
        let res = wrapping_diff(x, 1);
        CPU {
            registers: self.registers.with(reg, res),
            flags: self.flags.updated(OpType::DEC, x, 1, res, borrows(x, 1)),
        }
    }

    /// The state after the rotate or shift `op` of register `reg`: the register
    /// holds the shifted value, and Carry the bit that was pushed out.
    pub open spec fn rotated(self, op: RotOp, reg: Reg) -> CPU {
        let x = self.registers.get(reg);
        let res = op.result(x, self.flags.carry_flag);
        CPU {
            registers: self.registers.with(reg, res),
            flags: self.flags.updated(OpType::SHIFT, x, 1, res, shifted_out(op.is_left(), x)),
        }
    }

    /// The state after the accumulator operation `op` with right operand `val`.
    pub open spec fn alu(self, op: AluOp, val: u8) -> CPU {
        match op {
            AluOp::ADD => self.added(val),
            AluOp::ADC => self.added(self.carry_adjusted(val)),
            AluOp::SUB => self.subtracted(val),
            AluOp::SBC => self.subtracted(self.carry_adjusted(val)),
            AluOp::AND => self.anded(val),
            AluOp::XOR => self.xored(val),
            AluOp::OR => self.ored(val),
            AluOp::CP => self.compared(val),
        }
    }

    /// The value of the operand `src`, where `val` is the operand byte.
    pub open spec fn operand(self, src: Operand, val: u8) -> u8 {
        match src {
            Operand::Register(reg) => self.registers.get(reg),
            Operand::Immediate => val,
        }
    }

    /// The state after the extended code `code`. A code that the extended
    /// table lacks changes nothing.
    pub open spec fn step_cb(self, code: u8) -> CPU {
        match Rotation::of(code) {
            Some(rotation) => self.rotated(rotation.op, rotation.reg),
            None => self,
        }
    }

    /// The state after the primary code `code` with operand byte `val`. A code
    /// that the table lacks changes nothing.
    pub open spec fn step(self, code: u8, val: u8) -> CPU {
        match Instruction::of(code) {
            Some(Instruction::Alu(op, src)) => self.alu(op, self.operand(src, val)),
            Some(Instruction::Inc(reg)) => self.incremented(reg),
            Some(Instruction::Dec(reg)) => self.decremented(reg),
            Some(Instruction::Prefix) => self.step_cb(val),
            None => self,
        }
    }

    /// What the extended dispatcher reports for `code`.
    pub open spec fn status_cb(code: u8) -> Result<(), UnrecognizedOpcode> {
        match Rotation::of(code) {
            Some(_) => Ok(()),
            None => Err(UnrecognizedOpcode { code, extended: true }),
        }
    }

    /// What the primary dispatcher reports for `code` with operand byte `val`.
    pub open spec fn status(code: u8, val: u8) -> Result<(), UnrecognizedOpcode> {
        match Instruction::of(code) {
            Some(Instruction::Prefix) => CPU::status_cb(val),
            Some(_) => Ok(()),
            None => Err(UnrecognizedOpcode { code, extended: false }),
        }
    }

    /// A CPU with every register at zero and every flag clear.
    pub fn init() -> (cpu: CPU)
        ensures
            cpu.registers == (Registers { a: 0, b: 0, c: 0, d: 0, e: 0, h: 0, l: 0 }),
            cpu.flags == (Flags {
                zero_flag: false,
                sub_flag: false,
                hc_flag: false,
                carry_flag: false,
            }),
    {
        CPU { registers: Registers::init(), flags: Flags::init() }
    }

    /// Runs the operation that the primary table has for `code`; `val` is the
    /// operand byte, read only by the operations that take one. After the
    /// escape code, `val` is the extended code.
    ///
    /// A code that is in neither table is reported and changes nothing.
    pub fn execute(&mut self, code: u8, val: u8) -> (r: Result<(), UnrecognizedOpcode>)
        ensures
            *final(self) == old(self).step(code, val),
            r == CPU::status(code, val),
    {
        match Instruction::decode(code) {
            Some(Instruction::Alu(op, src)) => {
                let operand: u8 = match src {
                    Operand::Register(reg) => self.registers.read(reg),
                    Operand::Immediate => val,
                };
                match op {
                    AluOp::ADD => self.adda_r8(operand),
                    AluOp::ADC => self.add_with_carry(operand),
                    AluOp::SUB => self.suba_r8(operand),
                    AluOp::SBC => self.sub_with_carry(operand),
                    AluOp::AND => self.and(operand),
                    AluOp::XOR => self.xor(operand),
                    AluOp::OR => self.or(operand),
                    AluOp::CP => self.compare(operand),
                }
                Ok(())
            },
            Some(Instruction::Inc(reg)) => {
                let value: u8 = self.registers.read(reg);
                let res: u8 = self.inc(value);
                self.registers.write(reg, res);
                Ok(())
            },
            Some(Instruction::Dec(reg)) => {
                let value: u8 = self.registers.read(reg);
                let res: u8 = self.dec(value);
                self.registers.write(reg, res);
                Ok(())
            },
            Some(Instruction::Prefix) => self.execute_cb(val, val),
            None => Err(UnrecognizedOpcode { code, extended: false }),
        }
    }

    /// Runs the rotate or shift that the extended table has for `code`. No
    /// extended operation reads the operand byte `val`.
    ///
    /// A code that the table lacks is reported and changes nothing.
    #[allow(unused_variables)]
    pub fn execute_cb(&mut self, code: u8, val: u8) -> (r: Result<(), UnrecognizedOpcode>)
        ensures
            *final(self) == old(self).step_cb(code),
            r == CPU::status_cb(code),
    {
        match Rotation::decode(code) {
            Some(rotation) => {
                let value: u8 = self.registers.read(rotation.reg);
                let res: u8 = match rotation.op {
                    RotOp::RL => self.rl(value),
                    RotOp::RR => self.rr(value),
                    RotOp::RLC => self.rlc(value),
                    RotOp::RRC => self.rrc(value),
                    RotOp::SLA => self.shift_left(value),
                    RotOp::SRA => self.shift_right(value),
                    RotOp::SRL => self.srl(value),
                };
                self.registers.write(rotation.reg, res);
                Ok(())
            },
            None => Err(UnrecognizedOpcode { code, extended: true }),
        }
    }

    /// Shift right logical: bit 7 of the result is clear.
    pub fn srl(&mut self, val: u8) -> (res: u8)
        ensures
            res == RotOp::SRL.result(val, old(self).flags.carry_flag),
            final(self).registers == old(self).registers,
            final(self).flags == old(self).flags.updated(
                OpType::SHIFT,
                val,
                1,
                res,
                shifted_out(false, val),
            ),
    {
        self.shift_op(false, val, 0)
    }

    /// Shift right arithmetic: bit 7 of the result repeats bit 7 of `val`.
    pub fn shift_right(&mut self, val: u8) -> (res: u8)
        ensures
            res == RotOp::SRA.result(val, old(self).flags.carry_flag),
            final(self).registers == old(self).registers,
            final(self).flags == old(self).flags.updated(
                OpType::SHIFT,
                val,
                1,
                res,
                shifted_out(false, val),
            ),
    {
        self.shift_op(false, val, val & 0x80)
    }

    /// Shift left with every bit of the result set.
    pub fn shift_left(&mut self, val: u8) -> (res: u8)
        ensures
            res == RotOp::SLA.result(val, old(self).flags.carry_flag),
            final(self).registers == old(self).registers,
            final(self).flags == old(self).flags.updated(
                OpType::SHIFT,
                val,
                1,
                res,
                shifted_out(true, val),
            ),
    {
        self.shift_op(true, val, 0xFF)
    }

    /// Rotate right: bit 0 of `val` comes back in as bit 7.
    pub fn rrc(&mut self, val: u8) -> (res: u8)
        ensures
            res == RotOp::RRC.result(val, old(self).flags.carry_flag),
            final(self).registers == old(self).registers,
            final(self).flags == old(self).flags.updated(
                OpType::SHIFT,
                val,
                1,
                res,
                shifted_out(false, val),
            ),
    {
        self.shift_op(false, val, (val & 0x01) << 7u8)
    }

    /// Rotate left: bit 7 of `val` comes back in as bit 0.
    pub fn rlc(&mut self, val: u8) -> (res: u8)
        ensures
            res == RotOp::RLC.result(val, old(self).flags.carry_flag),
            final(self).registers == old(self).registers,
            final(self).flags == old(self).flags.updated(
                OpType::SHIFT,
                val,
                1,
                res,
                shifted_out(true, val),
            ),
    {
        self.shift_op(true, val, (val & 0x80) >> 7u8)
    }

    /// Rotate right through Carry: the Carry flag comes in as bit 7.
    pub fn rr(&mut self, val: u8) -> (res: u8)
        ensures
            res == RotOp::RR.result(val, old(self).flags.carry_flag),
            final(self).registers == old(self).registers,
            final(self).flags == old(self).flags.updated(
                OpType::SHIFT,
                val,
                1,
                res,
                shifted_out(false, val),
            ),
    {
        let cb: u8 = flag_bit(self.flags.carry_flag) << 7u8;
        self.shift_op(false, val, cb)
    }

    /// Rotate left through Carry: the Carry flag comes in as bit 0.
    pub fn rl(&mut self, val: u8) -> (res: u8)
        ensures
            res == RotOp::RL.result(val, old(self).flags.carry_flag),
            final(self).registers == old(self).registers,
            final(self).flags == old(self).flags.updated(
                OpType::SHIFT,
                val,
                1,
                res,
                shifted_out(true, val),
            ),
    {
        let cb: u8 = flag_bit(self.flags.carry_flag);
        self.shift_op(true, val, cb)
    }

    /// Shifts `val` one bit to the left or right, sets the bits of `or_op` in
    /// the outcome and returns it. Carry receives the bit that was pushed out,
    /// Zero tells whether the outcome is 0, the other two flags are cleared.
    pub fn shift_op(&mut self, is_left: bool, val: u8, or_op: u8) -> (res: u8)
        ensures
            res == shifted(is_left, val, or_op),
            final(self).registers == old(self).registers,
            final(self).flags == old(self).flags.updated(
                OpType::SHIFT,
                val,
                1,
                res,
                shifted_out(is_left, val),
            ),
    {
        if is_left {
            let f = |x: u8, y: u8| -> (r: (u8, bool))
                requires
                    y < 8,
                ensures
                    r == ((x << y) | or_op, x & 0x80 == 0x80),
                { ((x << y) | or_op, x & 0x80 == 0x80) };
            self.reg_operation(f, val, 1, OpType::SHIFT)
        } else {
            let f = |x: u8, y: u8| -> (r: (u8, bool))
                requires
                    y < 8,
                ensures
                    r == ((x >> y) | or_op, x & 0x01 == 0x01),
                { ((x >> y) | or_op, x & 0x01 == 0x01) };
            self.reg_operation(f, val, 1, OpType::SHIFT)
        }
    }

    /// Bitwise OR of the accumulator with `val`, into the accumulator.
    pub fn or(&mut self, val: u8)
        ensures
            *final(self) == old(self).ored(val),
    {
        let a: u8 = self.registers.a;
        let op = |x: u8, y: u8| -> (r: u8)
            ensures
                r == x | y,
            { x | y };
        self.logical_op(op, a, val, OpType::OR);
    }

    /// Bitwise AND of the accumulator with `val`, into the accumulator.
    pub fn and(&mut self, val: u8)
        ensures
            *final(self) == old(self).anded(val),
    {
        let a: u8 = self.registers.a;
        let op = |x: u8, y: u8| -> (r: u8)
            ensures
                r == x & y,
            { x & y };
        self.logical_op(op, a, val, OpType::AND);
    }

    /// Bitwise XOR of the accumulator with `val`, into the accumulator.
    pub fn xor(&mut self, val: u8)
        ensures
            *final(self) == old(self).xored(val),
    {
        let a: u8 = self.registers.a;
        let op = |x: u8, y: u8| -> (r: u8)
            ensures
                r == x ^ y,
            { x ^ y };
        self.logical_op(op, a, val, OpType::XOR);
    }

    /// Stores `op(x, y)` in the accumulator and sets the flags by the rule of
    /// `optype`, with nothing reported as overflow.
    pub fn logical_op<F: Fn(u8, u8) -> u8>(&mut self, op: F, x: u8, y: u8, optype: OpType)
        requires
            op.requires((x, y)),
        ensures
            op.ensures((x, y), final(self).registers.a),
            final(self).registers == old(self).registers.with(Reg::A, final(self).registers.a),
            final(self).flags == old(self).flags.updated(
                optype,
                x,
                y,
                final(self).registers.a,
                false,
            ),
    {
        let res: u8 = op(x, y);
        self.set_flags(x, y, res, false, optype);
        self.registers.set_a(res);
    }

    /// Sets the flags as subtracting `val` from the accumulator would, and
    /// leaves every register as it is.
    pub fn compare(&mut self, val: u8)
        ensures
            *final(self) == old(self).compared(val),
    {
        let a: u8 = self.registers.a;
        self.reg_operation(overflowing_sub, a, val, OpType::CP);
    }

    /// Returns `reg_val + 1`, reduced to eight bits, and sets Zero, Subtract
    /// and HalfCarry for it. Carry keeps its value.
    pub fn inc(&mut self, reg_val: u8) -> (res: u8)
        ensures
            res == wrapping_sum(reg_val, 1),
            final(self).registers == old(self).registers,
            final(self).flags == old(self).flags.updated(
                OpType::INC,
                reg_val,
                1,
                res,
                carries(reg_val, 1),
            ),
    {
        let res: u8 = self.reg_operation(overflowing_add, reg_val, 1, OpType::INC);
        res
    }

    /// Returns `reg_val - 1`, reduced to eight bits, and sets Zero, Subtract
    /// and HalfCarry for it. Carry keeps its value.
    pub fn dec(&mut self, reg_val: u8) -> (res: u8)
        ensures
            res == wrapping_diff(reg_val, 1),
            final(self).registers == old(self).registers,
            final(self).flags == old(self).flags.updated(
                OpType::DEC,
                reg_val,
                1,
                res,
                borrows(reg_val, 1),
            ),
    {
        let res: u8 = self.reg_operation(overflowing_sub, reg_val, 1, OpType::DEC);
        res
    }

    /// Adds `val` to the accumulator.
    pub fn adda_r8(&mut self, val: u8)
        ensures
            *final(self) == old(self).added(val),
    {
        let a: u8 = self.registers.a;
        let res: u8 = self.reg_operation(overflowing_add, a, val, OpType::ADD);
        self.registers.set_a(res);
    }

    /// Subtracts `val` from the accumulator.
    pub fn suba_r8(&mut self, val: u8)
        ensures
            *final(self) == old(self).subtracted(val),
    {
        let a: u8 = self.registers.a;
        let res: u8 = self.reg_operation(overflowing_sub, a, val, OpType::SUB);
        self.registers.set_a(res);
    }

    /// Adds `val` plus the Carry flag to the accumulator. The sum of `val` and
    /// the flag is reduced to eight bits before the addition, and the flags
    /// are those of adding that reduced operand.
    pub fn add_with_carry(&mut self, val: u8)
        ensures
            *final(self) == old(self).added(old(self).carry_adjusted(val)),
    {
        let y: u8 = val.wrapping_add(flag_bit(self.flags.carry_flag));
        self.adda_r8(y);
    }

    /// Subtracts `val` plus the Carry flag from the accumulator. The sum of
    /// `val` and the flag is reduced to eight bits before the subtraction, and
    /// the flags are those of subtracting that reduced operand.
    pub fn sub_with_carry(&mut self, val: u8)
        ensures
            *final(self) == old(self).subtracted(old(self).carry_adjusted(val)),
    {
        let y: u8 = val.wrapping_add(flag_bit(self.flags.carry_flag));
        self.suba_r8(y);
    }

    /// Runs `op` on the two operands, sets the flags by the rule of `optype`
    /// from the operands and from what `op` returned, and returns the result
    /// of `op`. No register changes.
    pub fn reg_operation<F>(&mut self, op: F, reg1: u8, reg2: u8, optype: OpType) -> (res: u8) where
        F: Fn(u8, u8) -> (u8, bool),

        requires
            op.requires((reg1, reg2)),
        ensures
            final(self).registers == old(self).registers,
            exists|of: bool|
                op.ensures((reg1, reg2), (res, of))
                    && final(self).flags == old(self).flags.updated(optype, reg1, reg2, res, of),
    {
        let (res, of) = op(reg1, reg2);
        self.set_flags(reg1, reg2, res, of, optype);
        res
    }

    /// Rewrites the flags by the rule of `optype`, for an operation that took
    /// the operands `x` and `y` to `res` and reported `of` as its overflow.
    pub fn set_flags(&mut self, x: u8, y: u8, res: u8, of: bool, optype: OpType)
        ensures
            final(self).registers == old(self).registers,
            final(self).flags == old(self).flags.updated(optype, x, y, res, of),
    {
        proof {
            lemma_low_nibble(x);
            lemma_low_nibble(y);
        }
        self.flags.zero_flag = res == 0;
        match optype {
            OpType::ADD => {
                self.flags.carry_flag = of;
                self.flags.sub_flag = false;
                self.flags.hc_flag = (x & 0x0F) + (y & 0x0F) > 0x0F;
            },
            OpType::SUB | OpType::CP => {
                self.flags.carry_flag = of;
                self.flags.sub_flag = true;
                self.flags.hc_flag = (x & 0x0F) < (y & 0x0F);
            },
            OpType::INC => {
                self.flags.sub_flag = false;
                self.flags.hc_flag = (x & 0x0F) + 1 > 0x0F;
            },
            OpType::DEC => {
                self.flags.sub_flag = false;
                self.flags.hc_flag = (x & 0x0F) < 0x01;
            },
            OpType::AND => {
                self.flags.carry_flag = false;
                self.flags.sub_flag = false;
                self.flags.hc_flag = true;
            },
            OpType::OR | OpType::XOR => {
                self.flags.carry_flag = false;
                self.flags.sub_flag = false;
                self.flags.hc_flag = false;
            },
            OpType::SHIFT => {
                self.flags.carry_flag = of;
                self.flags.sub_flag = false;
                self.flags.hc_flag = false;
            },
        }
    }
}

} // verus!
