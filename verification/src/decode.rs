//! Opcode decoding: every 16-bit opcode either names exactly one
//! instruction of the table below or is an illegal (fatal) opcode.

use vstd::prelude::*;

verus! {

/// One decoded instruction. Field `x` and `y` are register ids (always
/// below 16), `kk` an immediate byte, `nnn` a 12-bit address, `n` a sprite
/// height nibble.
#[derive(Clone, Copy, Debug, PartialEq, Eq, Structural)]
pub enum Instruction {
    /// 00E0: clear the framebuffer.
    ClearScreen,
    /// 00EE: return from a subroutine.
    Return,
    /// 1nnn: jump.
    Jump { nnn: u16 },
    /// 2nnn: call a subroutine.
    Call { nnn: u16 },
    /// 3xkk: skip next instruction if `v[x] == kk`.
    SkipIfEq { x: u8, kk: u8 },
    /// 4xkk: skip next instruction if `v[x] != kk`.
    SkipIfNotEq { x: u8, kk: u8 },
    /// 5xy0: skip next instruction if `v[x] == v[y]`.
    SkipIfRegEq { x: u8, y: u8 },
    /// 6xkk: set `v[x]` to `kk`.
    SetReg { x: u8, kk: u8 },
    /// 7xkk: add `kk` to `v[x]`, wrapping, no flag.
    AddReg { x: u8, kk: u8 },
    /// 8xy0: copy `v[y]` into `v[x]`.
    LoadReg { x: u8, y: u8 },
    /// 8xy1: bitwise OR.
    OrReg { x: u8, y: u8 },
    /// 8xy2: bitwise AND.
    AndReg { x: u8, y: u8 },
    /// 8xy3: bitwise XOR.
    XorReg { x: u8, y: u8 },
    /// 8xy4: add with carry flag.
    Add { x: u8, y: u8 },
    /// 8xy5: subtract `v[y]` from `v[x]` with not-borrow flag.
    Sub { x: u8, y: u8 },
    /// 8xy6: shift `v[x]` right by one; flag takes the shifted-out bit.
    Shr { x: u8 },
    /// 8xy7: set `v[x]` to `v[y] - v[x]` with not-borrow flag.
    SubN { x: u8, y: u8 },
    /// 8xyE: shift `v[x]` left by one; flag takes the shifted-out bit.
    Shl { x: u8 },
    /// 9xy0: skip next instruction if `v[x] != v[y]`.
    SkipIfRegNotEq { x: u8, y: u8 },
    /// Annn: set the index register.
    SetIndex { nnn: u16 },
    /// Bnnn: jump to `nnn + v[0]`.
    JumpOffset { nnn: u16 },
    /// Cxkk: set `v[x]` to a random byte masked with `kk`.
    Random { x: u8, kk: u8 },
    /// Dxyn: draw an `n`-row sprite at `(v[x], v[y])`.
    Draw { x: u8, y: u8, n: u8 },
    /// Ex9E: skip next instruction if key `v[x]` is pressed.
    SkipIfKeyPressed { x: u8 },
    /// ExA1: skip next instruction if key `v[x]` is not pressed.
    SkipIfKeyNotPressed { x: u8 },
    /// Fx07: read the delay timer into `v[x]`.
    LoadDelayTimer { x: u8 },
    /// Fx0A: suspend until a fresh key press, storing the key id in `v[x]`.
    WaitForKey { x: u8 },
    /// Fx15: set the delay timer from `v[x]`.
    SetDelayTimer { x: u8 },
    /// Fx18: set the sound timer from `v[x]`.
    SetSoundTimer { x: u8 },
    /// Fx1E: add `v[x]` to the index register.
    AddIndex { x: u8 },
    /// Fx29: point the index register at the font glyph for the low nibble
    /// of `v[x]`.
    SetSpriteIndex { x: u8 },
    /// Fx33: store the three decimal digits of `v[x]` at the index address.
    StoreDigits { x: u8 },
    /// Fx55: store `v[0..=x]` into memory at the index address.
    StoreRange { x: u8 },
    /// Fx65: load `v[0..=x]` from memory at the index address.
    LoadRange { x: u8 },
}

impl Instruction {
    /// Every field decoded from an opcode stays within its nibble or
    /// 12-bit range.
    pub open spec fn wf(self) -> bool {
        match self {
            Instruction::ClearScreen => true,
            Instruction::Return => true,
            Instruction::Jump { nnn } => nnn < 4096,
            Instruction::Call { nnn } => nnn < 4096,
            Instruction::SkipIfEq { x, kk } => x < 16,
            Instruction::SkipIfNotEq { x, kk } => x < 16,
            Instruction::SkipIfRegEq { x, y } => x < 16 && y < 16,
            Instruction::SetReg { x, kk } => x < 16,
            Instruction::AddReg { x, kk } => x < 16,
            Instruction::LoadReg { x, y } => x < 16 && y < 16,
            Instruction::OrReg { x, y } => x < 16 && y < 16,
            Instruction::AndReg { x, y } => x < 16 && y < 16,
            Instruction::XorReg { x, y } => x < 16 && y < 16,
            Instruction::Add { x, y } => x < 16 && y < 16,
            Instruction::Sub { x, y } => x < 16 && y < 16,
            Instruction::Shr { x } => x < 16,
            Instruction::SubN { x, y } => x < 16 && y < 16,
            Instruction::Shl { x } => x < 16,
            Instruction::SkipIfRegNotEq { x, y } => x < 16 && y < 16,
            Instruction::SetIndex { nnn } => nnn < 4096,
            Instruction::JumpOffset { nnn } => nnn < 4096,
            Instruction::Random { x, kk } => x < 16,
            Instruction::Draw { x, y, n } => x < 16 && y < 16 && n < 16,
            Instruction::SkipIfKeyPressed { x } => x < 16,
            Instruction::SkipIfKeyNotPressed { x } => x < 16,
            Instruction::LoadDelayTimer { x } => x < 16,
            Instruction::WaitForKey { x } => x < 16,
            Instruction::SetDelayTimer { x } => x < 16,
            Instruction::SetSoundTimer { x } => x < 16,
            Instruction::AddIndex { x } => x < 16,
            Instruction::SetSpriteIndex { x } => x < 16,
            Instruction::StoreDigits { x } => x < 16,
            Instruction::StoreRange { x } => x < 16,
            Instruction::LoadRange { x } => x < 16,
        }
    }
}

/// The decode table as a function: `None` means the opcode names no
/// instruction (a fatal decode error).
pub open spec fn spec_decode(op: u16) -> Option<Instruction> {
    let x = ((op >> 8) & 0xF) as u8;
    let y = ((op >> 4) & 0xF) as u8;
    let n = (op & 0xF) as u8;
    let kk = (op & 0xFF) as u8;
    let nnn = op & 0xFFF;
    match op >> 12 {
        0x0 => match op {
            0x00E0 => Some(Instruction::ClearScreen),
            0x00EE => Some(Instruction::Return),
            _ => None,
        },
        0x1 => Some(Instruction::Jump { nnn }),
        0x2 => Some(Instruction::Call { nnn }),
        0x3 => Some(Instruction::SkipIfEq { x, kk }),
        0x4 => Some(Instruction::SkipIfNotEq { x, kk }),
        0x5 => if n == 0 {
            Some(Instruction::SkipIfRegEq { x, y })
        } else {
            None
        },
        0x6 => Some(Instruction::SetReg { x, kk }),
        0x7 => Some(Instruction::AddReg { x, kk }),
        0x8 => match n {
            0x0 => Some(Instruction::LoadReg { x, y }),
            0x1 => Some(Instruction::OrReg { x, y }),
            0x2 => Some(Instruction::AndReg { x, y }),
            0x3 => Some(Instruction::XorReg { x, y }),
            0x4 => Some(Instruction::Add { x, y }),
            0x5 => Some(Instruction::Sub { x, y }),
            0x6 => Some(Instruction::Shr { x }),
            0x7 => Some(Instruction::SubN { x, y }),
            0xE => Some(Instruction::Shl { x }),
            _ => None,
        },
        0x9 => if n == 0 {
            Some(Instruction::SkipIfRegNotEq { x, y })
        } else {
            None
        },
        0xA => Some(Instruction::SetIndex { nnn }),
        0xB => Some(Instruction::JumpOffset { nnn }),
        0xC => Some(Instruction::Random { x, kk }),
        0xD => Some(Instruction::Draw { x, y, n }),
        0xE => match kk {
            0x9E => Some(Instruction::SkipIfKeyPressed { x }),
            0xA1 => Some(Instruction::SkipIfKeyNotPressed { x }),
            _ => None,
        },
        0xF => match kk {
            0x07 => Some(Instruction::LoadDelayTimer { x }),
            0x0A => Some(Instruction::WaitForKey { x }),
            0x15 => Some(Instruction::SetDelayTimer { x }),
            0x18 => Some(Instruction::SetSoundTimer { x }),
            0x1E => Some(Instruction::AddIndex { x }),
            0x29 => Some(Instruction::SetSpriteIndex { x }),
            0x33 => Some(Instruction::StoreDigits { x }),
            0x55 => Some(Instruction::StoreRange { x }),
            0x65 => Some(Instruction::LoadRange { x }),
            _ => None,
        },
        _ => None,
    }
}

/// Decode one opcode, exactly as the table `spec_decode` says; a decoded
/// instruction always carries in-range fields.
pub fn decode(op: u16) -> (r: Option<Instruction>)
    ensures
        r == spec_decode(op),
        r matches Some(ins) ==> ins.wf(),
{
    proof {
        assert((op >> 8) & 0xF < 16 && (op >> 4) & 0xF < 16 && (op & 0xF) < 16 && (op & 0xFF)
            < 256 && (op & 0xFFF) < 4096) by (bit_vector);
    }
    let x = ((op >> 8) & 0xF) as u8;
    let y = ((op >> 4) & 0xF) as u8;
    let n = (op & 0xF) as u8;
    let kk = (op & 0xFF) as u8;
    let nnn = op & 0xFFF;
    match op >> 12 {
        0x0 => match op {
            0x00E0 => Some(Instruction::ClearScreen),
            0x00EE => Some(Instruction::Return),
            _ => None,
        },
        0x1 => Some(Instruction::Jump { nnn }),
        0x2 => Some(Instruction::Call { nnn }),
        0x3 => Some(Instruction::SkipIfEq { x, kk }),
        0x4 => Some(Instruction::SkipIfNotEq { x, kk }),
        0x5 => if n == 0 {
            Some(Instruction::SkipIfRegEq { x, y })
        } else {
            None
        },
        0x6 => Some(Instruction::SetReg { x, kk }),
        0x7 => Some(Instruction::AddReg { x, kk }),
        0x8 => match n {
            0x0 => Some(Instruction::LoadReg { x, y }),
            0x1 => Some(Instruction::OrReg { x, y }),
            0x2 => Some(Instruction::AndReg { x, y }),
            0x3 => Some(Instruction::XorReg { x, y }),
            0x4 => Some(Instruction::Add { x, y }),
            0x5 => Some(Instruction::Sub { x, y }),
            0x6 => Some(Instruction::Shr { x }),
            0x7 => Some(Instruction::SubN { x, y }),
            0xE => Some(Instruction::Shl { x }),
            _ => None,
        },
        0x9 => if n == 0 {
            Some(Instruction::SkipIfRegNotEq { x, y })
        } else {
            None
        },
        0xA => Some(Instruction::SetIndex { nnn }),
        0xB => Some(Instruction::JumpOffset { nnn }),
        0xC => Some(Instruction::Random { x, kk }),
        0xD => Some(Instruction::Draw { x, y, n }),
        0xE => match kk {
            0x9E => Some(Instruction::SkipIfKeyPressed { x }),
            0xA1 => Some(Instruction::SkipIfKeyNotPressed { x }),
            _ => None,
        },
        0xF => match kk {
            0x07 => Some(Instruction::LoadDelayTimer { x }),
            0x0A => Some(Instruction::WaitForKey { x }),
            0x15 => Some(Instruction::SetDelayTimer { x }),
            0x18 => Some(Instruction::SetSoundTimer { x }),
            0x1E => Some(Instruction::AddIndex { x }),
            0x29 => Some(Instruction::SetSpriteIndex { x }),
            0x33 => Some(Instruction::StoreDigits { x }),
            0x55 => Some(Instruction::StoreRange { x }),
            0x65 => Some(Instruction::LoadRange { x }),
            _ => None,
        },
        _ => None,
    }
}

} // verus!
