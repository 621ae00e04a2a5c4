//! The four status flags and the rule by which each operation family
//! rewrites them.

use vstd::prelude::*;

verus! {

/// The status bits left behind by the most recently executed operation.
#[derive(Clone, Copy, Debug, PartialEq, Eq, Structural)]
pub struct Flags {
    pub zero_flag: bool,
    pub sub_flag: bool,
    pub hc_flag: bool,
    pub carry_flag: bool,
}

/// Tag that selects the flag-update rule of an operation family.
#[derive(Clone, Copy, Debug, PartialEq, Eq, Structural)]
pub enum OpType {
    ADD,
    SUB,
    INC,
    DEC,
    AND,
    OR,
    XOR,
    CP,
    SHIFT,
}

impl Flags {
    /// The flags after an operation of family `optype` took the operands `x`
    /// and `y` to the 8-bit result `res`, with `of` telling whether the
    /// operation wrapped (for a shift: the bit that was shifted out).
    pub open spec fn updated(self, optype: OpType, x: u8, y: u8, res: u8, of: bool) -> Flags {
        Flags {
            zero_flag: res == 0,
            sub_flag: optype is SUB || optype is CP,
            hc_flag: match optype {
                OpType::ADD => (x & 0x0F) + (y & 0x0F) > 0x0F,
                OpType::SUB | OpType::CP => (x & 0x0F) < (y & 0x0F),
                OpType::INC => (x & 0x0F) + 1 > 0x0F,
                OpType::DEC => (x & 0x0F) < 1,
                OpType::AND => true,
                OpType::OR | OpType::XOR | OpType::SHIFT => false,
            },
            carry_flag: match optype {
                OpType::ADD | OpType::SUB | OpType::CP | OpType::SHIFT => of,
                OpType::INC | OpType::DEC => self.carry_flag,
                OpType::AND | OpType::OR | OpType::XOR => false,
            },
        }
    }

    /// All four flags cleared.
    pub fn init() -> (flags: Flags)
        ensures
            flags == (Flags { zero_flag: false, sub_flag: false, hc_flag: false, carry_flag: false }),
    {
        Flags { zero_flag: false, sub_flag: false, hc_flag: false, carry_flag: false }
    }
}

} // verus!
