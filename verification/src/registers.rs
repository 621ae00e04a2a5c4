//! The register file: seven independent 8-bit registers.

use vstd::prelude::*;

verus! {

/// Name of one register of the file.
#[derive(Clone, Copy, Debug, PartialEq, Eq, Structural)]
pub enum Reg {
    B,
    C,
    D,
    E,
    H,
    L,
    A,
}

/// The seven 8-bit registers. `a` is the accumulator.
#[derive(Clone, Copy, Debug, PartialEq, Eq, Structural)]
pub struct Registers {
    pub a: u8,
    pub b: u8,
    pub c: u8,
    pub d: u8,
    pub e: u8,
    pub h: u8,
    pub l: u8,
}

impl Registers {
    /// The value held by register `name`.
    pub open spec fn get(self, name: Reg) -> u8 {
        match name {
            Reg::B => self.b,
            Reg::C => self.c,
            Reg::D => self.d,
            Reg::E => self.e,
            Reg::H => self.h,
            Reg::L => self.l,
            Reg::A => self.a,
        }
    }

    /// The file with register `name` holding `value` and every other register
    /// as in `self`.
    pub open spec fn with(self, name: Reg, value: u8) -> Registers {
        match name {
            Reg::B => Registers { b: value, ..self },
            Reg::C => Registers { c: value, ..self },
            Reg::D => Registers { d: value, ..self },
            Reg::E => Registers { e: value, ..self },
            Reg::H => Registers { h: value, ..self },
            Reg::L => Registers { l: value, ..self },
            Reg::A => Registers { a: value, ..self },
        }
    }

    /// A register file with every register at zero.
    pub fn init() -> (registers: Registers)
        ensures
            registers == (Registers { a: 0, b: 0, c: 0, d: 0, e: 0, h: 0, l: 0 }),
    {
        Registers { a: 0, b: 0, c: 0, d: 0, e: 0, h: 0, l: 0 }
    }

    /// Stores `val` in the accumulator.
    pub fn set_a(&mut self, val: u8)
        ensures
            *final(self) == old(self).with(Reg::A, val),
    {
        self.a = val;
    }

    /// Reads register `name`.
    pub fn read(&self, name: Reg) -> (value: u8)
        ensures
            value == self.get(name),
    {
        match name {
            Reg::B => self.b,
            Reg::C => self.c,
            Reg::D => self.d,
            Reg::E => self.e,
            Reg::H => self.h,
            Reg::L => self.l,
            Reg::A => self.a,
        }
    }

    /// Stores `value` in register `name`.
    pub fn write(&mut self, name: Reg, value: u8)
        ensures
            *final(self) == old(self).with(name, value),
    {
        match name {
            Reg::B => self.b = value,
            Reg::C => self.c = value,
            Reg::D => self.d = value,
            Reg::E => self.e = value,
            Reg::H => self.h = value,
            Reg::L => self.l = value,
            Reg::A => self.a = value,
        }
    }
}

} // verus!
