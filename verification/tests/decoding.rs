use chip8::decode::{decode, Instruction};

#[test]
fn decode_covers_the_table() {
    assert_eq!(decode(0x00E0), Some(Instruction::ClearScreen));
    assert_eq!(decode(0x00EE), Some(Instruction::Return));
    assert_eq!(decode(0x1ABC), Some(Instruction::Jump { nnn: 0xABC }));
    assert_eq!(decode(0x2ABC), Some(Instruction::Call { nnn: 0xABC }));
    assert_eq!(decode(0x31FE), Some(Instruction::SkipIfEq { x: 1, kk: 0xFE }));
    assert_eq!(decode(0x41FE), Some(Instruction::SkipIfNotEq { x: 1, kk: 0xFE }));
    assert_eq!(decode(0x5120), Some(Instruction::SkipIfRegEq { x: 1, y: 2 }));
    assert_eq!(decode(0x6A02), Some(Instruction::SetReg { x: 0xA, kk: 0x02 }));
    assert_eq!(decode(0x7A03), Some(Instruction::AddReg { x: 0xA, kk: 0x03 }));
    assert_eq!(decode(0x8120), Some(Instruction::LoadReg { x: 1, y: 2 }));
    assert_eq!(decode(0x8121), Some(Instruction::OrReg { x: 1, y: 2 }));
    assert_eq!(decode(0x8122), Some(Instruction::AndReg { x: 1, y: 2 }));
    assert_eq!(decode(0x8123), Some(Instruction::XorReg { x: 1, y: 2 }));
    assert_eq!(decode(0x8124), Some(Instruction::Add { x: 1, y: 2 }));
    assert_eq!(decode(0x8125), Some(Instruction::Sub { x: 1, y: 2 }));
    assert_eq!(decode(0x8126), Some(Instruction::Shr { x: 1 }));
    assert_eq!(decode(0x8127), Some(Instruction::SubN { x: 1, y: 2 }));
    assert_eq!(decode(0x812E), Some(Instruction::Shl { x: 1 }));
    assert_eq!(decode(0x9120), Some(Instruction::SkipIfRegNotEq { x: 1, y: 2 }));
    assert_eq!(decode(0xAFED), Some(Instruction::SetIndex { nnn: 0xFED }));
    assert_eq!(decode(0xBFED), Some(Instruction::JumpOffset { nnn: 0xFED }));
    assert_eq!(decode(0xC177), Some(Instruction::Random { x: 1, kk: 0x77 }));
    assert_eq!(decode(0xD125), Some(Instruction::Draw { x: 1, y: 2, n: 5 }));
    assert_eq!(decode(0xE19E), Some(Instruction::SkipIfKeyPressed { x: 1 }));
    assert_eq!(decode(0xE1A1), Some(Instruction::SkipIfKeyNotPressed { x: 1 }));
    assert_eq!(decode(0xF107), Some(Instruction::LoadDelayTimer { x: 1 }));
    assert_eq!(decode(0xF10A), Some(Instruction::WaitForKey { x: 1 }));
    assert_eq!(decode(0xF115), Some(Instruction::SetDelayTimer { x: 1 }));
    assert_eq!(decode(0xF118), Some(Instruction::SetSoundTimer { x: 1 }));
    assert_eq!(decode(0xF11E), Some(Instruction::AddIndex { x: 1 }));
    assert_eq!(decode(0xF129), Some(Instruction::SetSpriteIndex { x: 1 }));
    assert_eq!(decode(0xF133), Some(Instruction::StoreDigits { x: 1 }));
    assert_eq!(decode(0xF155), Some(Instruction::StoreRange { x: 1 }));
    assert_eq!(decode(0xF165), Some(Instruction::LoadRange { x: 1 }));
}

#[test]
fn decode_rejects_illegal_opcodes() {
    assert_eq!(decode(0x0000), None);
    assert_eq!(decode(0x0123), None);
    assert_eq!(decode(0x00EF), None);
    assert_eq!(decode(0x5121), None);
    assert_eq!(decode(0x8128), None);
    assert_eq!(decode(0x812F), None);
    assert_eq!(decode(0x9005), None);
    assert_eq!(decode(0xE000), None);
    assert_eq!(decode(0xE1A2), None);
    assert_eq!(decode(0xF100), None);
    assert_eq!(decode(0xF166), None);
    assert_eq!(decode(0xFFFF), None);
}
