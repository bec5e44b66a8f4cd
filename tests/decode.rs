use chip8::instruction::{decode, Instruction};
use chip8::keypad::keypad_index;

#[test]
fn decodes_control_flow() {
    assert_eq!(decode(0x00E0), Instruction::ClearScreen);
    assert_eq!(decode(0x00EE), Instruction::Return);
    assert_eq!(decode(0x1ABC), Instruction::Jump { nnn: 0xABC });
    assert_eq!(decode(0x2DEF), Instruction::Call { nnn: 0xDEF });
    assert_eq!(decode(0xB123), Instruction::JumpOffset { nnn: 0x123 });
}

#[test]
fn decodes_register_fields() {
    assert_eq!(decode(0x3A42), Instruction::SkipEqImm { x: 0xA, nn: 0x42 });
    assert_eq!(decode(0x4B17), Instruction::SkipNeImm { x: 0xB, nn: 0x17 });
    assert_eq!(decode(0x5120), Instruction::SkipEqReg { x: 1, y: 2 });
    assert_eq!(decode(0x6CFF), Instruction::LoadImm { x: 0xC, nn: 0xFF });
    assert_eq!(decode(0x7D01), Instruction::AddImm { x: 0xD, nn: 0x01 });
    assert_eq!(decode(0x9340), Instruction::SkipNeReg { x: 3, y: 4 });
    assert_eq!(decode(0xA2F0), Instruction::SetIndex { nnn: 0x2F0 });
    assert_eq!(decode(0xC30F), Instruction::Random { x: 3, nn: 0x0F });
    assert_eq!(decode(0xD125), Instruction::Draw { x: 1, y: 2, n: 5 });
}

#[test]
fn decodes_arithmetic_family() {
    assert_eq!(decode(0x8120), Instruction::Move { x: 1, y: 2 });
    assert_eq!(decode(0x8121), Instruction::Or { x: 1, y: 2 });
    assert_eq!(decode(0x8122), Instruction::And { x: 1, y: 2 });
    assert_eq!(decode(0x8123), Instruction::Xor { x: 1, y: 2 });
    assert_eq!(decode(0x8124), Instruction::AddReg { x: 1, y: 2 });
    assert_eq!(decode(0x8125), Instruction::SubReg { x: 1, y: 2 });
    assert_eq!(decode(0x8126), Instruction::ShiftRight { x: 1, y: 2 });
    assert_eq!(decode(0x8127), Instruction::SubRev { x: 1, y: 2 });
    assert_eq!(decode(0x812E), Instruction::ShiftLeft { x: 1, y: 2 });
}

#[test]
fn decodes_key_and_misc_family() {
    assert_eq!(decode(0xE59E), Instruction::SkipKey { x: 5 });
    assert_eq!(decode(0xE5A1), Instruction::SkipNoKey { x: 5 });
    assert_eq!(decode(0xF607), Instruction::ReadDelay { x: 6 });
    assert_eq!(decode(0xF60A), Instruction::WaitKey { x: 6 });
    assert_eq!(decode(0xF615), Instruction::SetDelay { x: 6 });
    assert_eq!(decode(0xF618), Instruction::SetSound { x: 6 });
    assert_eq!(decode(0xF61E), Instruction::AddIndex { x: 6 });
    assert_eq!(decode(0xF629), Instruction::FontAddr { x: 6 });
    assert_eq!(decode(0xF633), Instruction::StoreBcd { x: 6 });
    assert_eq!(decode(0xF655), Instruction::StoreRegs { x: 6 });
    assert_eq!(decode(0xF665), Instruction::LoadRegs { x: 6 });
}

#[test]
fn unknown_opcodes_are_kept_whole() {
    for op in [0x0000u16, 0x0123, 0x01E0, 0x5121, 0x8128, 0x812F, 0x9341, 0xE5FF, 0xF6FF] {
        assert_eq!(decode(op), Instruction::Unknown { op });
    }
}

#[test]
fn keypad_layout() {
    let keys = ['1', '2', '3', '4', 'Q', 'W', 'E', 'R', 'A', 'S', 'D', 'F', 'Z', 'X', 'C', 'V'];
    for (i, c) in keys.iter().enumerate() {
        assert_eq!(keypad_index(*c), Some(i as u8));
    }
    assert_eq!(keypad_index('5'), None);
    assert_eq!(keypad_index('q'), None);
    assert_eq!(keypad_index('B'), None);
}
