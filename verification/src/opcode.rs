//! The two opcode tables: which operation, on which operand, each code byte
//! selects.
//!
//! A primary code byte is read as three fields, `code / 64`, `code / 8 % 8` and
//! `code % 8`. A register is numbered `B`=0, `C`=1, `D`=2, `E`=3, `H`=4, `L`=5,
//! `A`=7; the number 6 names no register.
//!
//! | codes | fields | meaning |
//! |---|---|---|
//! | `0x80..=0xBF` | 2, operation, register | operation on the accumulator and the register |
//! | `0xC6, 0xCE, .., 0xFE` | 3, operation, 6 | operation on the accumulator and the operand byte |
//! | `0x04, 0x0C, .., 0x3C` | 0, register, 4 | increment the register |
//! | `0x05, 0x0D, .., 0x3D` | 0, register, 5 | decrement the register |
//! | `0xCB` | | the operand byte is an extended code |
//!
//! The operations are numbered `ADD`=0, `ADC`=1, `SUB`=2, `SBC`=3, `AND`=4,
//! `XOR`=5, `OR`=6, `CP`=7, with one exception: on the operand byte, number 6
//! (`0xF6`) is wired to `XOR` like number 5 (`0xEE`).
//!
//! An extended code below `0x40` is read as `code / 8`, the shift or rotate, and
//! `code % 8`, the register: `RLC`=0, `RRC`=1, `RL`=2, `RR`=3, `SLA`=4, `SRA`=5,
//! `SRL`=7.

use vstd::prelude::*;
use crate::registers::Reg;

verus! {

/// The escape code: the byte after it is looked up in the extended table.
pub const PREFIX: u8 = 0xCB;

/// Arithmetic or logical operation of the accumulator with one operand.
#[derive(Clone, Copy, Debug, PartialEq, Eq, Structural)]
pub enum AluOp {
    ADD,
    ADC,
    SUB,
    SBC,
    AND,
    XOR,
    OR,
    CP,
}

/// Where the right operand of an accumulator operation comes from.
#[derive(Clone, Copy, Debug, PartialEq, Eq, Structural)]
pub enum Operand {
    Register(Reg),
    Immediate,
}

/// What a primary code byte stands for.
#[derive(Clone, Copy, Debug, PartialEq, Eq, Structural)]
pub enum Instruction {
    Alu(AluOp, Operand),
    Inc(Reg),
    Dec(Reg),
    Prefix,
}

/// The rotate and shift operations of the extended table.
#[derive(Clone, Copy, Debug, PartialEq, Eq, Structural)]
pub enum RotOp {
    RLC,
    RRC,
    RL,
    RR,
    SLA,
    SRA,
    SRL,
}

/// What an extended code byte stands for: `op` applied to register `reg`.
#[derive(Clone, Copy, Debug, PartialEq, Eq, Structural)]
pub struct Rotation {
    pub op: RotOp,
    pub reg: Reg,
}

/// Report of a code byte that is in neither table. `extended` tells in which
/// table `code` was looked up.
#[derive(Clone, Copy, Debug, PartialEq, Eq, Structural)]
pub struct UnrecognizedOpcode {
    pub code: u8,
    pub extended: bool,
}

/// The register that a three-bit register field names.
pub open spec fn register_field(field: u8) -> Option<Reg> {
    if field == 0 {
        Some(Reg::B)
    } else if field == 1 {
        Some(Reg::C)
    } else if field == 2 {
        Some(Reg::D)
    } else if field == 3 {
        Some(Reg::E)
    } else if field == 4 {
        Some(Reg::H)
    } else if field == 5 {
        Some(Reg::L)
    } else if field == 7 {
        Some(Reg::A)
    } else {
        None
    }
}

/// The accumulator operation that a three-bit operation field names.
pub open spec fn alu_field(field: u8) -> AluOp {
    if field == 0 {
        AluOp::ADD
    } else if field == 1 {
        AluOp::ADC
    } else if field == 2 {
        AluOp::SUB
    } else if field == 3 {
        AluOp::SBC
    } else if field == 4 {
        AluOp::AND
    } else if field == 5 {
        AluOp::XOR
    } else if field == 6 {
        AluOp::OR
    } else {
        AluOp::CP
    }
}

/// The rotate or shift that an extended operation field names.
pub open spec fn rotation_field(field: u8) -> Option<RotOp> {
    if field == 0 {
        Some(RotOp::RLC)
    } else if field == 1 {
        Some(RotOp::RRC)
    } else if field == 2 {
        Some(RotOp::RL)
    } else if field == 3 {
        Some(RotOp::RR)
    } else if field == 4 {
        Some(RotOp::SLA)
    } else if field == 5 {
        Some(RotOp::SRA)
    } else if field == 7 {
        Some(RotOp::SRL)
    } else {
        None
    }
}

impl Instruction {
    /// The entry of the primary table for `code`, read off the fields of the
    /// byte; `None` where the table has no entry.
    pub open spec fn of(code: u8) -> Option<Instruction> {
        let block = code / 64;
        let middle = (code / 8) % 8;
        let low = code % 8;
        if code == PREFIX {
            Some(Instruction::Prefix)
        } else if block == 2 {
            match register_field(low) {
                Some(reg) => Some(Instruction::Alu(alu_field(middle), Operand::Register(reg))),
                None => None,
            }
        } else if block == 3 && low == 6 {
            if code == 0xF6 {
                Some(Instruction::Alu(AluOp::XOR, Operand::Immediate))
            } else {
                Some(Instruction::Alu(alu_field(middle), Operand::Immediate))
            }
        } else if block == 0 && low == 4 {
            match register_field(middle) {
                Some(reg) => Some(Instruction::Inc(reg)),
                None => None,
            }
        } else if block == 0 && low == 5 {
            match register_field(middle) {
                Some(reg) => Some(Instruction::Dec(reg)),
                None => None,
            }
        } else {
            None
        }
    }

    /// Looks `code` up in the primary table.
    pub fn decode(code: u8) -> (instr: Option<Instruction>)
        ensures
            instr == Instruction::of(code),
    {
        match code {
            0x80 => Some(Instruction::Alu(AluOp::ADD, Operand::Register(Reg::B))),
            0x81 => Some(Instruction::Alu(AluOp::ADD, Operand::Register(Reg::C))),
            0x82 => Some(Instruction::Alu(AluOp::ADD, Operand::Register(Reg::D))),
            0x83 => Some(Instruction::Alu(AluOp::ADD, Operand::Register(Reg::E))),
            0x84 => Some(Instruction::Alu(AluOp::ADD, Operand::Register(Reg::H))),
            0x85 => Some(Instruction::Alu(AluOp::ADD, Operand::Register(Reg::L))),
            0x87 => Some(Instruction::Alu(AluOp::ADD, Operand::Register(Reg::A))),
            0xC6 => Some(Instruction::Alu(AluOp::ADD, Operand::Immediate)),
            0x88 => Some(Instruction::Alu(AluOp::ADC, Operand::Register(Reg::B))),
            0x89 => Some(Instruction::Alu(AluOp::ADC, Operand::Register(Reg::C))),
            0x8A => Some(Instruction::Alu(AluOp::ADC, Operand::Register(Reg::D))),
            0x8B => Some(Instruction::Alu(AluOp::ADC, Operand::Register(Reg::E))),
            0x8C => Some(Instruction::Alu(AluOp::ADC, Operand::Register(Reg::H))),
            0x8D => Some(Instruction::Alu(AluOp::ADC, Operand::Register(Reg::L))),
            0x8F => Some(Instruction::Alu(AluOp::ADC, Operand::Register(Reg::A))),
            0xCE => Some(Instruction::Alu(AluOp::ADC, Operand::Immediate)),
            0x90 => Some(Instruction::Alu(AluOp::SUB, Operand::Register(Reg::B))),
            0x91 => Some(Instruction::Alu(AluOp::SUB, Operand::Register(Reg::C))),
            0x92 => Some(Instruction::Alu(AluOp::SUB, Operand::Register(Reg::D))),
            0x93 => Some(Instruction::Alu(AluOp::SUB, Operand::Register(Reg::E))),
            0x94 => Some(Instruction::Alu(AluOp::SUB, Operand::Register(Reg::H))),
            0x95 => Some(Instruction::Alu(AluOp::SUB, Operand::Register(Reg::L))),
            0x97 => Some(Instruction::Alu(AluOp::SUB, Operand::Register(Reg::A))),
            0xD6 => Some(Instruction::Alu(AluOp::SUB, Operand::Immediate)),
            0x98 => Some(Instruction::Alu(AluOp::SBC, Operand::Register(Reg::B))),
            0x99 => Some(Instruction::Alu(AluOp::SBC, Operand::Register(Reg::C))),
            0x9A => Some(Instruction::Alu(AluOp::SBC, Operand::Register(Reg::D))),
            0x9B => Some(Instruction::Alu(AluOp::SBC, Operand::Register(Reg::E))),
            0x9C => Some(Instruction::Alu(AluOp::SBC, Operand::Register(Reg::H))),
            0x9D => Some(Instruction::Alu(AluOp::SBC, Operand::Register(Reg::L))),
            0x9F => Some(Instruction::Alu(AluOp::SBC, Operand::Register(Reg::A))),
            0xDE => Some(Instruction::Alu(AluOp::SBC, Operand::Immediate)),
            0x04 => Some(Instruction::Inc(Reg::B)),
            0x0C => Some(Instruction::Inc(Reg::C)),
            0x14 => Some(Instruction::Inc(Reg::D)),
            0x1C => Some(Instruction::Inc(Reg::E)),
            0x24 => Some(Instruction::Inc(Reg::H)),
            0x2C => Some(Instruction::Inc(Reg::L)),
            0x3C => Some(Instruction::Inc(Reg::A)),
            0x05 => Some(Instruction::Dec(Reg::B)),
            0x0D => Some(Instruction::Dec(Reg::C)),
            0x15 => Some(Instruction::Dec(Reg::D)),
            0x1D => Some(Instruction::Dec(Reg::E)),
            0x25 => Some(Instruction::Dec(Reg::H)),
            0x2D => Some(Instruction::Dec(Reg::L)),
            0x3D => Some(Instruction::Dec(Reg::A)),
            0xA0 => Some(Instruction::Alu(AluOp::AND, Operand::Register(Reg::B))),
            0xA1 => Some(Instruction::Alu(AluOp::AND, Operand::Register(Reg::C))),
            0xA2 => Some(Instruction::Alu(AluOp::AND, Operand::Register(Reg::D))),
            0xA3 => Some(Instruction::Alu(AluOp::AND, Operand::Register(Reg::E))),
            0xA4 => Some(Instruction::Alu(AluOp::AND, Operand::Register(Reg::H))),
            0xA5 => Some(Instruction::Alu(AluOp::AND, Operand::Register(Reg::L))),
            0xA7 => Some(Instruction::Alu(AluOp::AND, Operand::Register(Reg::A))),
            0xE6 => Some(Instruction::Alu(AluOp::AND, Operand::Immediate)),
            0xB0 => Some(Instruction::Alu(AluOp::OR, Operand::Register(Reg::B))),
            0xB1 => Some(Instruction::Alu(AluOp::OR, Operand::Register(Reg::C))),
            0xB2 => Some(Instruction::Alu(AluOp::OR, Operand::Register(Reg::D))),
            0xB3 => Some(Instruction::Alu(AluOp::OR, Operand::Register(Reg::E))),
            0xB4 => Some(Instruction::Alu(AluOp::OR, Operand::Register(Reg::H))),
            0xB5 => Some(Instruction::Alu(AluOp::OR, Operand::Register(Reg::L))),
            0xB7 => Some(Instruction::Alu(AluOp::OR, Operand::Register(Reg::A))),
            0xF6 => Some(Instruction::Alu(AluOp::XOR, Operand::Immediate)),
            0xA8 => Some(Instruction::Alu(AluOp::XOR, Operand::Register(Reg::B))),
            0xA9 => Some(Instruction::Alu(AluOp::XOR, Operand::Register(Reg::C))),
            0xAA => Some(Instruction::Alu(AluOp::XOR, Operand::Register(Reg::D))),
            0xAB => Some(Instruction::Alu(AluOp::XOR, Operand::Register(Reg::E))),
            0xAC => Some(Instruction::Alu(AluOp::XOR, Operand::Register(Reg::H))),
            0xAD => Some(Instruction::Alu(AluOp::XOR, Operand::Register(Reg::L))),
            0xAF => Some(Instruction::Alu(AluOp::XOR, Operand::Register(Reg::A))),
            0xEE => Some(Instruction::Alu(AluOp::XOR, Operand::Immediate)),
            0xB8 => Some(Instruction::Alu(AluOp::CP, Operand::Register(Reg::B))),
            0xB9 => Some(Instruction::Alu(AluOp::CP, Operand::Register(Reg::C))),
            0xBA => Some(Instruction::Alu(AluOp::CP, Operand::Register(Reg::D))),
            0xBB => Some(Instruction::Alu(AluOp::CP, Operand::Register(Reg::E))),
            0xBC => Some(Instruction::Alu(AluOp::CP, Operand::Register(Reg::H))),
            0xBD => Some(Instruction::Alu(AluOp::CP, Operand::Register(Reg::L))),
            0xBF => Some(Instruction::Alu(AluOp::CP, Operand::Register(Reg::A))),
            0xFE => Some(Instruction::Alu(AluOp::CP, Operand::Immediate)),
            0xCB => Some(Instruction::Prefix),
            _ => None,
        }
    }
}

impl Rotation {
    /// The entry of the extended table for `code`, read off the fields of the
    /// byte; `None` where the table has no entry.
    pub open spec fn of(code: u8) -> Option<Rotation> {
        if code < 0x40 {
            match (rotation_field(code / 8), register_field(code % 8)) {
                (Some(op), Some(reg)) => Some(Rotation { op, reg }),
                _ => None,
            }
        } else {
            None
        }
    }

    /// Looks `code` up in the extended table.
    pub fn decode(code: u8) -> (rotation: Option<Rotation>)
        ensures
            rotation == Rotation::of(code),
    {
        match code {
            0x10 => Some(Rotation { op: RotOp::RL, reg: Reg::B }),
            0x11 => Some(Rotation { op: RotOp::RL, reg: Reg::C }),
            0x12 => Some(Rotation { op: RotOp::RL, reg: Reg::D }),
            0x13 => Some(Rotation { op: RotOp::RL, reg: Reg::E }),
            0x14 => Some(Rotation { op: RotOp::RL, reg: Reg::H }),
            0x15 => Some(Rotation { op: RotOp::RL, reg: Reg::L }),
            0x17 => Some(Rotation { op: RotOp::RL, reg: Reg::A }),
            0x18 => Some(Rotation { op: RotOp::RR, reg: Reg::B }),
            0x19 => Some(Rotation { op: RotOp::RR, reg: Reg::C }),
            0x1A => Some(Rotation { op: RotOp::RR, reg: Reg::D }),
            0x1B => Some(Rotation { op: RotOp::RR, reg: Reg::E }),
            0x1C => Some(Rotation { op: RotOp::RR, reg: Reg::H }),
            0x1D => Some(Rotation { op: RotOp::RR, reg: Reg::L }),
            0x1F => Some(Rotation { op: RotOp::RR, reg: Reg::A }),
            0x00 => Some(Rotation { op: RotOp::RLC, reg: Reg::B }),
            0x01 => Some(Rotation { op: RotOp::RLC, reg: Reg::C }),
            0x02 => Some(Rotation { op: RotOp::RLC, reg: Reg::D }),
            0x03 => Some(Rotation { op: RotOp::RLC, reg: Reg::E }),
            0x04 => Some(Rotation { op: RotOp::RLC, reg: Reg::H }),
            0x05 => Some(Rotation { op: RotOp::RLC, reg: Reg::L }),
            0x07 => Some(Rotation { op: RotOp::RLC, reg: Reg::A }),
            0x08 => Some(Rotation { op: RotOp::RRC, reg: Reg::B }),
            0x09 => Some(Rotation { op: RotOp::RRC, reg: Reg::C }),
            0x0A => Some(Rotation { op: RotOp::RRC, reg: Reg::D }),
            0x0B => Some(Rotation { op: RotOp::RRC, reg: Reg::E }),
            0x0C => Some(Rotation { op: RotOp::RRC, reg: Reg::H }),
            0x0D => Some(Rotation { op: RotOp::RRC, reg: Reg::L }),
            0x0F => Some(Rotation { op: RotOp::RRC, reg: Reg::A }),
            0x20 => Some(Rotation { op: RotOp::SLA, reg: Reg::B }),
            0x21 => Some(Rotation { op: RotOp::SLA, reg: Reg::C }),
            0x22 => Some(Rotation { op: RotOp::SLA, reg: Reg::D }),
            0x23 => Some(Rotation { op: RotOp::SLA, reg: Reg::E }),
            0x24 => Some(Rotation { op: RotOp::SLA, reg: Reg::H }),
            0x25 => Some(Rotation { op: RotOp::SLA, reg: Reg::L }),
            0x27 => Some(Rotation { op: RotOp::SLA, reg: Reg::A }),
            0x28 => Some(Rotation { op: RotOp::SRA, reg: Reg::B }),
            0x29 => Some(Rotation { op: RotOp::SRA, reg: Reg::C }),
            0x2A => Some(Rotation { op: RotOp::SRA, reg: Reg::D }),
            0x2B => Some(Rotation { op: RotOp::SRA, reg: Reg::E }),
            0x2C => Some(Rotation { op: RotOp::SRA, reg: Reg::H }),
            0x2D => Some(Rotation { op: RotOp::SRA, reg: Reg::L }),
            0x2F => Some(Rotation { op: RotOp::SRA, reg: Reg::A }),
            0x38 => Some(Rotation { op: RotOp::SRL, reg: Reg::B }),
            0x39 => Some(Rotation { op: RotOp::SRL, reg: Reg::C }),
            0x3A => Some(Rotation { op: RotOp::SRL, reg: Reg::D }),
            0x3B => Some(Rotation { op: RotOp::SRL, reg: Reg::E }),
            0x3C => Some(Rotation { op: RotOp::SRL, reg: Reg::H }),
            0x3D => Some(Rotation { op: RotOp::SRL, reg: Reg::L }),
            0x3F => Some(Rotation { op: RotOp::SRL, reg: Reg::A }),
            _ => None,
        }
    }
}

} // verus!
