use chip8::instruction::{decode, Instruction};

#[test]
fn decodes_fields_by_mask() {
    assert_eq!(decode(0x00E0), Some(Instruction::Clear));
    assert_eq!(decode(0x00EE), Some(Instruction::Return));
    assert_eq!(decode(0x1ABC), Some(Instruction::Jump(0xABC)));
    assert_eq!(decode(0x2FFF), Some(Instruction::Call(0xFFF)));
    assert_eq!(decode(0x3A42), Some(Instruction::SkipEqImm(0xA, 0x42)));
    assert_eq!(decode(0x5120), Some(Instruction::SkipEqReg(1, 2)));
    assert_eq!(decode(0x8AB4), Some(Instruction::AddReg(0xA, 0xB)));
    assert_eq!(decode(0x8ABE), Some(Instruction::ShiftLeft(0xA)));
    assert_eq!(decode(0xD125), Some(Instruction::Draw(1, 2, 5)));
    assert_eq!(decode(0xE39E), Some(Instruction::SkipKey(3)));
    assert_eq!(decode(0xE3A1), Some(Instruction::SkipNoKey(3)));
    assert_eq!(decode(0xF70A), Some(Instruction::WaitKey(7)));
    assert_eq!(decode(0xF565), Some(Instruction::LoadRegs(5)));
}

#[test]
fn unknown_words_decode_to_none() {
    for &op in &[0x0000u16, 0x0123, 0x5121, 0x8008, 0x900F, 0xE300, 0xF000, 0xF0FF] {
        assert_eq!(decode(op), None, "{:04X}", op);
    }
}
