use cpu_alu::opcode::{AluOp, Instruction, Operand, RotOp, Rotation, PREFIX};
use cpu_alu::registers::Reg;

fn register(field: u8) -> Option<Reg> {
    match field {
        0 => Some(Reg::B),
        1 => Some(Reg::C),
        2 => Some(Reg::D),
        3 => Some(Reg::E),
        4 => Some(Reg::H),
        5 => Some(Reg::L),
        7 => Some(Reg::A),
        _ => None,
    }
}

#[test]
fn escape_code_is_cb() {
    assert_eq!(PREFIX, 0xCB);
    assert_eq!(Instruction::decode(0xCB), Some(Instruction::Prefix));
}

#[test]
fn primary_table_has_the_documented_entries() {
    let b = Operand::Register(Reg::B);
    let a = Operand::Register(Reg::A);
    assert_eq!(Instruction::decode(0x80), Some(Instruction::Alu(AluOp::ADD, b)));
    assert_eq!(Instruction::decode(0x87), Some(Instruction::Alu(AluOp::ADD, a)));
    assert_eq!(Instruction::decode(0x88), Some(Instruction::Alu(AluOp::ADC, b)));
    assert_eq!(Instruction::decode(0x90), Some(Instruction::Alu(AluOp::SUB, b)));
    assert_eq!(Instruction::decode(0x98), Some(Instruction::Alu(AluOp::SBC, b)));
    assert_eq!(Instruction::decode(0xA0), Some(Instruction::Alu(AluOp::AND, b)));
    assert_eq!(Instruction::decode(0xA8), Some(Instruction::Alu(AluOp::XOR, b)));
    assert_eq!(Instruction::decode(0xB0), Some(Instruction::Alu(AluOp::OR, b)));
    assert_eq!(Instruction::decode(0xB8), Some(Instruction::Alu(AluOp::CP, b)));
    assert_eq!(Instruction::decode(0xBF), Some(Instruction::Alu(AluOp::CP, a)));
    assert_eq!(
        Instruction::decode(0x93),
        Some(Instruction::Alu(AluOp::SUB, Operand::Register(Reg::E)))
    );
    assert_eq!(
        Instruction::decode(0xAD),
        Some(Instruction::Alu(AluOp::XOR, Operand::Register(Reg::L)))
    );
    assert_eq!(Instruction::decode(0x04), Some(Instruction::Inc(Reg::B)));
    assert_eq!(Instruction::decode(0x0C), Some(Instruction::Inc(Reg::C)));
    assert_eq!(Instruction::decode(0x3C), Some(Instruction::Inc(Reg::A)));
    assert_eq!(Instruction::decode(0x05), Some(Instruction::Dec(Reg::B)));
    assert_eq!(Instruction::decode(0x25), Some(Instruction::Dec(Reg::H)));
    assert_eq!(Instruction::decode(0x3D), Some(Instruction::Dec(Reg::A)));
}

#[test]
fn immediate_codes_take_the_operand_byte() {
    let i = Operand::Immediate;
    assert_eq!(Instruction::decode(0xC6), Some(Instruction::Alu(AluOp::ADD, i)));
    assert_eq!(Instruction::decode(0xCE), Some(Instruction::Alu(AluOp::ADC, i)));
    assert_eq!(Instruction::decode(0xD6), Some(Instruction::Alu(AluOp::SUB, i)));
    assert_eq!(Instruction::decode(0xDE), Some(Instruction::Alu(AluOp::SBC, i)));
    assert_eq!(Instruction::decode(0xE6), Some(Instruction::Alu(AluOp::AND, i)));
    assert_eq!(Instruction::decode(0xEE), Some(Instruction::Alu(AluOp::XOR, i)));
    assert_eq!(Instruction::decode(0xF6), Some(Instruction::Alu(AluOp::XOR, i)));
    assert_eq!(Instruction::decode(0xFE), Some(Instruction::Alu(AluOp::CP, i)));
}

#[test]
fn primary_table_has_no_other_entries() {
    for code in [0x00u8, 0x06, 0x34, 0x35, 0x40, 0x7F, 0x86, 0x8E, 0xBE, 0xC0, 0xC7, 0xD3, 0xFF] {
        assert_eq!(Instruction::decode(code), None);
    }
    let mut entries = 0;
    for code in 0..=255u8 {
        match Instruction::decode(code) {
            Some(Instruction::Alu(_, Operand::Register(reg))) => {
                assert!((0x80..=0xBF).contains(&code));
                assert_eq!(register(code % 8), Some(reg));
                entries += 1;
            },
            Some(Instruction::Alu(_, Operand::Immediate)) => {
                assert!(code >= 0xC0 && code % 8 == 6);
                entries += 1;
            },
            Some(Instruction::Inc(reg)) => {
                assert!(code < 0x40 && code % 8 == 4);
                assert_eq!(register(code / 8), Some(reg));
                entries += 1;
            },
            Some(Instruction::Dec(reg)) => {
                assert!(code < 0x40 && code % 8 == 5);
                assert_eq!(register(code / 8), Some(reg));
                entries += 1;
            },
            Some(Instruction::Prefix) => {
                assert_eq!(code, 0xCB);
                entries += 1;
            },
            None => {},
        }
    }
    assert_eq!(entries, 79);
}

#[test]
fn extended_table_has_the_documented_entries() {
    assert_eq!(Rotation::decode(0x00), Some(Rotation { op: RotOp::RLC, reg: Reg::B }));
    assert_eq!(Rotation::decode(0x07), Some(Rotation { op: RotOp::RLC, reg: Reg::A }));
    assert_eq!(Rotation::decode(0x08), Some(Rotation { op: RotOp::RRC, reg: Reg::B }));
    assert_eq!(Rotation::decode(0x10), Some(Rotation { op: RotOp::RL, reg: Reg::B }));
    assert_eq!(Rotation::decode(0x18), Some(Rotation { op: RotOp::RR, reg: Reg::B }));
    assert_eq!(Rotation::decode(0x20), Some(Rotation { op: RotOp::SLA, reg: Reg::B }));
    assert_eq!(Rotation::decode(0x28), Some(Rotation { op: RotOp::SRA, reg: Reg::B }));
    assert_eq!(Rotation::decode(0x38), Some(Rotation { op: RotOp::SRL, reg: Reg::B }));
    assert_eq!(Rotation::decode(0x1B), Some(Rotation { op: RotOp::RR, reg: Reg::E }));
    assert_eq!(Rotation::decode(0x2C), Some(Rotation { op: RotOp::SRA, reg: Reg::H }));
    assert_eq!(Rotation::decode(0x3F), Some(Rotation { op: RotOp::SRL, reg: Reg::A }));
}

#[test]
fn extended_table_has_no_other_entries() {
    for code in [0x06u8, 0x0E, 0x30, 0x31, 0x37, 0x3E, 0x40, 0x80, 0xCB, 0xFF] {
        assert_eq!(Rotation::decode(code), None);
    }
    let mut entries = 0;
    for code in 0..=255u8 {
        if let Some(rotation) = Rotation::decode(code) {
            assert!(code < 0x40);
            assert_eq!(register(code % 8), Some(rotation.reg));
            entries += 1;
        }
    }
    assert_eq!(entries, 49);
}
