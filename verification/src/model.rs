//! The mathematical model of the machine: an abstract view of the full
//! architectural state and the transition function `step` that gives the
//! meaning of every instruction.

use vstd::prelude::*;
use crate::decode::{Instruction, spec_decode};

verus! {

/// Total number of addressable memory bytes.
pub const MEM_SIZE: usize = 4096;

/// Number of general-purpose registers.
pub const NUM_REGS: usize = 16;

/// Stack slots; the stack pointer starts at 0 (empty) and slot 0 is unused,
/// so 16 return addresses fit in slots 1 through 16.
pub const STACK_SLOTS: usize = 17;

/// Screen width in pixels.
pub const SCREEN_WIDTH: usize = 64;

/// Screen height in pixels.
pub const SCREEN_HEIGHT: usize = 32;

/// Total framebuffer cells (64 * 32).
pub const NUM_PIXELS: usize = 2048;

/// Number of keypad keys.
pub const NUM_KEYS: usize = 16;

/// Address of the first font glyph (glyph for digit 0).
pub const FONT_BASE: u16 = 0x50;

/// Address where execution starts; the loader places the program here.
pub const START_PC: u16 = 0x200;

/// Abstract view of the full architectural state.
#[verifier::ext_equal]
pub ghost struct MachineView {
    pub memory: Seq<u8>,
    pub pc: u16,
    pub i: u16,
    pub v: Seq<u8>,
    pub stack: Seq<u16>,
    pub stack_pointer: int,
    pub delay_timer: u8,
    pub sound_timer: u8,
    pub pixels: Seq<u8>,
    pub keypad: Seq<bool>,
    pub awaiting_key: Option<u8>,
    pub rng: u16,
}

impl MachineView {
    /// Well-formedness: every component has its architectural size, the
    /// stack pointer stays within capacity, every framebuffer cell is
    /// strictly 0 or 1, and a pending key wait names a real register.
    pub open spec fn wf(self) -> bool {
        &&& self.memory.len() == MEM_SIZE
        &&& self.v.len() == NUM_REGS
        &&& self.stack.len() == STACK_SLOTS
        &&& self.pixels.len() == NUM_PIXELS
        &&& self.keypad.len() == NUM_KEYS
        &&& 0 <= self.stack_pointer <= 16
        &&& forall|p: int| 0 <= p < NUM_PIXELS ==> self.pixels[p] == 0 || self.pixels[p] == 1
        &&& match self.awaiting_key {
            Some(x) => x < 16,
            None => true,
        }
    }
}

/// The state of a machine just created: everything zeroed, the program
/// counter at the standard entry address.
pub open spec fn initial() -> MachineView {
    MachineView {
        memory: Seq::new(MEM_SIZE as nat, |a: int| 0u8),
        pc: START_PC,
        i: 0,
        v: Seq::new(NUM_REGS as nat, |j: int| 0u8),
        stack: Seq::new(STACK_SLOTS as nat, |j: int| 0u16),
        stack_pointer: 0,
        delay_timer: 0,
        sound_timer: 0,
        pixels: Seq::new(NUM_PIXELS as nat, |p: int| 0u8),
        keypad: Seq::new(NUM_KEYS as nat, |k: int| false),
        awaiting_key: None,
        rng: 0,
    }
}

/// 8-bit wrapping addition.
pub open spec fn wrap_add8(a: u8, b: u8) -> u8 {
    ((a + b) % 256) as u8
}

/// Carry flag of an 8-bit addition: 1 exactly when the unsigned sum
/// exceeds 255.
pub open spec fn carry8(a: u8, b: u8) -> u8 {
    if a + b > 255 {
        1u8
    } else {
        0u8
    }
}

/// 8-bit wrapping subtraction `a - b`.
pub open spec fn wrap_sub8(a: u8, b: u8) -> u8 {
    if a >= b {
        (a - b) as u8
    } else {
        (a - b + 256) as u8
    }
}

/// Not-borrow flag of an 8-bit subtraction `a - b`: 1 exactly when the
/// minuend is at least the subtrahend.
pub open spec fn no_borrow8(a: u8, b: u8) -> u8 {
    if a >= b {
        1u8
    } else {
        0u8
    }
}

/// One step of the pseudo-random generator: a 16-bit linear congruential
/// update.
pub open spec fn lcg_next(s: u16) -> u16 {
    ((s * 25173 + 13849) % 65536) as u16
}

/// The byte drawn from a freshly advanced generator state: its high byte.
pub open spec fn rand_byte(s: u16) -> u8 {
    (lcg_next(s) / 256) as u8
}

/// Saturating decrement used by the external 60 Hz timer driver.
pub open spec fn dec_timer(t: u8) -> u8 {
    if t > 0 {
        (t - 1) as u8
    } else {
        0u8
    }
}

/// Screen row of framebuffer cell `p`.
pub open spec fn row_of(p: int) -> int {
    p / 64
}

/// Screen column of framebuffer cell `p`.
pub open spec fn col_of(p: int) -> int {
    p % 64
}

/// Whether framebuffer cell `p` lies under a sprite whose top-left corner
/// is at column `x0`, row `y0`, with `n` rows of 8 pixels each. Cells past
/// the right or bottom screen edge do not exist, so sprite parts falling
/// there are clipped.
pub open spec fn covered(x0: int, y0: int, n: int, p: int) -> bool {
    &&& y0 <= row_of(p) < y0 + n
    &&& x0 <= col_of(p) < x0 + 8
}

/// The sprite bit that lands on covered cell `p`: bit 7 of a row byte is
/// the leftmost pixel of that row.
pub open spec fn sprite_bit(mem: Seq<u8>, i0: int, x0: int, y0: int, p: int) -> bool {
    (mem[i0 + (row_of(p) - y0)] >> ((7 - (col_of(p) - x0)) as u8)) & 1 == 1
}

/// XOR-compositing of one pixel: a sprite bit toggles the cell it covers.
pub open spec fn flip(b: u8) -> u8 {
    if b == 1 {
        0u8
    } else {
        1u8
    }
}

/// The framebuffer after blitting the sprite: covered cells with a set
/// sprite bit are toggled, everything else is untouched.
pub open spec fn draw_pixels(pix: Seq<u8>, mem: Seq<u8>, i0: int, x0: int, y0: int, n: int) -> Seq<
    u8,
> {
    Seq::new(
        NUM_PIXELS as nat,
        |p: int|
            if covered(x0, y0, n, p) && sprite_bit(mem, i0, x0, y0, p) {
                flip(pix[p])
            } else {
                pix[p]
            },
    )
}

/// Collision: some set sprite bit lands on a cell that is already on.
pub open spec fn draw_hit(pix: Seq<u8>, mem: Seq<u8>, i0: int, x0: int, y0: int, n: int) -> bool {
    exists|p: int|
        0 <= p < NUM_PIXELS && #[trigger] covered(x0, y0, n, p) && sprite_bit(mem, i0, x0, y0, p)
            && pix[p] == 1
}

/// Whether the sprite has any set bit that lands on the screen at all.
pub open spec fn sprite_visible(mem: Seq<u8>, i0: int, x0: int, y0: int, n: int) -> bool {
    exists|p: int|
        0 <= p < NUM_PIXELS && #[trigger] covered(x0, y0, n, p) && sprite_bit(mem, i0, x0, y0, p)
}

/// The meaning of one instruction: the machine state after executing `ins`
/// in state `pre`. Every flag-setting instruction writes its result first
/// and the flag last, so the flag wins when register 15 is also an operand.
pub open spec fn step(pre: MachineView, ins: Instruction) -> MachineView {
    match ins {
        Instruction::ClearScreen => MachineView {
            pixels: Seq::new(NUM_PIXELS as nat, |p: int| 0u8),
            ..pre
        },
        Instruction::Return => MachineView {
            pc: pre.stack[pre.stack_pointer],
            stack_pointer: pre.stack_pointer - 1,
            ..pre
        },
        Instruction::Jump { nnn } => MachineView { pc: nnn, ..pre },
        Instruction::Call { nnn } => MachineView {
            stack: pre.stack.update(pre.stack_pointer + 1, pre.pc),
            stack_pointer: pre.stack_pointer + 1,
            pc: nnn,
            ..pre
        },
        Instruction::SkipIfEq { x, kk } => if pre.v[x as int] == kk {
            MachineView { pc: (pre.pc + 2) as u16, ..pre }
        } else {
            pre
        },
        Instruction::SkipIfNotEq { x, kk } => if pre.v[x as int] != kk {
            MachineView { pc: (pre.pc + 2) as u16, ..pre }
        } else {
            pre
        },
        Instruction::SkipIfRegEq { x, y } => if pre.v[x as int] == pre.v[y as int] {
            MachineView { pc: (pre.pc + 2) as u16, ..pre }
        } else {
            pre
        },
        Instruction::SetReg { x, kk } => MachineView { v: pre.v.update(x as int, kk), ..pre },
        Instruction::AddReg { x, kk } => MachineView {
            v: pre.v.update(x as int, wrap_add8(pre.v[x as int], kk)),
            ..pre
        },
        Instruction::LoadReg { x, y } => MachineView {
            v: pre.v.update(x as int, pre.v[y as int]),
            ..pre
        },
        Instruction::OrReg { x, y } => MachineView {
            v: pre.v.update(x as int, pre.v[x as int] | pre.v[y as int]),
            ..pre
        },
        Instruction::AndReg { x, y } => MachineView {
            v: pre.v.update(x as int, pre.v[x as int] & pre.v[y as int]),
            ..pre
        },
        Instruction::XorReg { x, y } => MachineView {
            v: pre.v.update(x as int, pre.v[x as int] ^ pre.v[y as int]),
            ..pre
        },
        Instruction::Add { x, y } => {
            let a = pre.v[x as int];
            let b = pre.v[y as int];
            MachineView { v: pre.v.update(x as int, wrap_add8(a, b)).update(15, carry8(a, b)), ..pre }
        },
        Instruction::Sub { x, y } => {
            let a = pre.v[x as int];
            let b = pre.v[y as int];
            MachineView {
                v: pre.v.update(x as int, wrap_sub8(a, b)).update(15, no_borrow8(a, b)),
                ..pre
            }
        },
        Instruction::Shr { x } => {
            let a = pre.v[x as int];
            MachineView { v: pre.v.update(x as int, a >> 1).update(15, a & 1), ..pre }
        },
        Instruction::SubN { x, y } => {
            let a = pre.v[x as int];
            let b = pre.v[y as int];
            MachineView {
                v: pre.v.update(x as int, wrap_sub8(b, a)).update(15, no_borrow8(b, a)),
                ..pre
            }
        },
        Instruction::Shl { x } => {
            let a = pre.v[x as int];
            MachineView { v: pre.v.update(x as int, a << 1).update(15, (a >> 7) & 1), ..pre }
        },
        Instruction::SkipIfRegNotEq { x, y } => if pre.v[x as int] != pre.v[y as int] {
            MachineView { pc: (pre.pc + 2) as u16, ..pre }
        } else {
            pre
        },
        Instruction::SetIndex { nnn } => MachineView { i: nnn, ..pre },
        Instruction::JumpOffset { nnn } => MachineView { pc: (nnn + pre.v[0]) as u16, ..pre },
        Instruction::Random { x, kk } => MachineView {
            v: pre.v.update(x as int, rand_byte(pre.rng) & kk),
            rng: lcg_next(pre.rng),
            ..pre
        },
        Instruction::Draw { x, y, n } => {
            let x0 = (pre.v[x as int] % 64) as int;
            let y0 = (pre.v[y as int] % 32) as int;
            let i0 = pre.i as int;
            let hit = draw_hit(pre.pixels, pre.memory, i0, x0, y0, n as int);
            MachineView {
                pixels: draw_pixels(pre.pixels, pre.memory, i0, x0, y0, n as int),
                v: pre.v.update(
                    15,
                    if hit {
                        1u8
                    } else {
                        0u8
                    },
                ),
                ..pre
            }
        },
        Instruction::SkipIfKeyPressed { x } => if pre.keypad[pre.v[x as int] as int] {
            MachineView { pc: (pre.pc + 2) as u16, ..pre }
        } else {
            pre
        },
        Instruction::SkipIfKeyNotPressed { x } => if !pre.keypad[pre.v[x as int] as int] {
            MachineView { pc: (pre.pc + 2) as u16, ..pre }
        } else {
            pre
        },
        Instruction::LoadDelayTimer { x } => MachineView {
            v: pre.v.update(x as int, pre.delay_timer),
            ..pre
        },
        Instruction::WaitForKey { x } => MachineView { awaiting_key: Some(x), ..pre },
        Instruction::SetDelayTimer { x } => MachineView { delay_timer: pre.v[x as int], ..pre },
        Instruction::SetSoundTimer { x } => MachineView { sound_timer: pre.v[x as int], ..pre },
        Instruction::AddIndex { x } => MachineView {
            i: (pre.i + pre.v[x as int]) as u16,
            ..pre
        },
        Instruction::SetSpriteIndex { x } => MachineView {
            i: (FONT_BASE + 5 * (pre.v[x as int] % 16)) as u16,
            ..pre
        },
        Instruction::StoreDigits { x } => {
            let val = pre.v[x as int];
            MachineView {
                memory: pre.memory.update(pre.i as int, val / 100).update(
                    pre.i + 1,
                    (val % 100) / 10,
                ).update(pre.i + 2, val % 10),
                ..pre
            }
        },
        Instruction::StoreRange { x } => MachineView {
            memory: Seq::new(
                MEM_SIZE as nat,
                |a: int|
                    if pre.i <= a <= pre.i + x {
                        pre.v[a - pre.i]
                    } else {
                        pre.memory[a]
                    },
            ),
            ..pre
        },
        Instruction::LoadRange { x } => MachineView {
            v: Seq::new(
                NUM_REGS as nat,
                |j: int|
                    if j <= x {
                        pre.memory[pre.i + j]
                    } else {
                        pre.v[j]
                    },
            ),
            ..pre
        },
    }
}

/// The error taxonomy: every fault is fatal, the engine never recovers.
#[derive(Clone, Copy, Debug, PartialEq, Eq, Structural)]
pub enum Fault {
    /// The opcode names no instruction of the table.
    DecodeError,
    /// A return was executed with an empty call stack.
    StackUnderflow,
    /// A call was executed with the call stack at capacity.
    StackOverflow,
    /// A fetch or an indexed memory, register or key access would leave
    /// the valid range.
    OutOfBoundsAccess,
}

/// The fault, if any, that executing `ins` in state `pre` would raise.
/// `None` means the instruction completes all its state mutations.
pub open spec fn exec_fault(pre: MachineView, ins: Instruction) -> Option<Fault> {
    match ins {
        Instruction::Return => if pre.stack_pointer < 1 {
            Some(Fault::StackUnderflow)
        } else {
            None
        },
        Instruction::Call { nnn } => if pre.stack_pointer >= 16 {
            Some(Fault::StackOverflow)
        } else {
            None
        },
        Instruction::SkipIfEq { x, kk } => if pre.v[x as int] == kk && pre.pc + 2 > 0xFFFF {
            Some(Fault::OutOfBoundsAccess)
        } else {
            None
        },
        Instruction::SkipIfNotEq { x, kk } => if pre.v[x as int] != kk && pre.pc + 2 > 0xFFFF {
            Some(Fault::OutOfBoundsAccess)
        } else {
            None
        },
        Instruction::SkipIfRegEq { x, y } => if pre.v[x as int] == pre.v[y as int] && pre.pc + 2
            > 0xFFFF {
            Some(Fault::OutOfBoundsAccess)
        } else {
            None
        },
        Instruction::SkipIfRegNotEq { x, y } => if pre.v[x as int] != pre.v[y as int] && pre.pc + 2
            > 0xFFFF {
            Some(Fault::OutOfBoundsAccess)
        } else {
            None
        },
        Instruction::Draw { x, y, n } => if pre.i + n > MEM_SIZE {
            Some(Fault::OutOfBoundsAccess)
        } else {
            None
        },
        Instruction::SkipIfKeyPressed { x } => if pre.v[x as int] >= 16 {
            Some(Fault::OutOfBoundsAccess)
        } else if pre.keypad[pre.v[x as int] as int] && pre.pc + 2 > 0xFFFF {
            Some(Fault::OutOfBoundsAccess)
        } else {
            None
        },
        Instruction::SkipIfKeyNotPressed { x } => if pre.v[x as int] >= 16 {
            Some(Fault::OutOfBoundsAccess)
        } else if !pre.keypad[pre.v[x as int] as int] && pre.pc + 2 > 0xFFFF {
            Some(Fault::OutOfBoundsAccess)
        } else {
            None
        },
        Instruction::AddIndex { x } => if pre.i + pre.v[x as int] > 0xFFFF {
            Some(Fault::OutOfBoundsAccess)
        } else {
            None
        },
        Instruction::StoreDigits { x } => if pre.i + 3 > MEM_SIZE {
            Some(Fault::OutOfBoundsAccess)
        } else {
            None
        },
        Instruction::StoreRange { x } => if pre.i + x >= MEM_SIZE {
            Some(Fault::OutOfBoundsAccess)
        } else {
            None
        },
        Instruction::LoadRange { x } => if pre.i + x >= MEM_SIZE {
            Some(Fault::OutOfBoundsAccess)
        } else {
            None
        },
        _ => None,
    }
}

/// The fault, if any, that feeding raw opcode `op` to the engine in state
/// `pre` would raise: an undecodable opcode, or a fault of the decoded
/// instruction.
pub open spec fn step_fault(pre: MachineView, op: u16) -> Option<Fault> {
    match spec_decode(op) {
        None => Some(Fault::DecodeError),
        Some(ins) => exec_fault(pre, ins),
    }
}

/// The fault, if any, that fetching the next opcode in state `m` would
/// raise: the program counter and its successor must both address memory.
pub open spec fn fetch_fault(m: MachineView) -> Option<Fault> {
    if m.pc + 1 < MEM_SIZE {
        None
    } else {
        Some(Fault::OutOfBoundsAccess)
    }
}

/// The 16-bit opcode at the program counter, combined big-endian.
pub open spec fn spec_opcode(m: MachineView) -> u16 {
    (m.memory[m.pc as int] * 256 + m.memory[m.pc + 1]) as u16
}

/// The cells already visited by the row-major sprite walk: the 8-column
/// band of the sprite, restricted to rows before `r` plus, in row `r`
/// itself, the columns before `c`.
pub open spec fn walked(x0: int, y0: int, r: int, c: int, p: int) -> bool {
    &&& x0 <= col_of(p) < x0 + 8
    &&& y0 <= row_of(p)
    &&& (row_of(p) - y0 < r || (row_of(p) - y0 == r && col_of(p) - x0 < c))
}

/// The framebuffer cell of screen row `row` and column `col`.
pub proof fn lemma_cell_coords(row: int, col: int)
    requires
        0 <= row,
        0 <= col < 64,
    ensures
        row_of(row * 64 + col) == row,
        col_of(row * 64 + col) == col,
{
    vstd::arithmetic::div_mod::lemma_fundamental_div_mod_converse(row * 64 + col, 64, row, col);
}

/// Every framebuffer cell is the cell of its own row and column, which
/// both stay on the screen.
pub proof fn lemma_coords_cell(p: int)
    requires
        0 <= p < NUM_PIXELS,
    ensures
        p == row_of(p) * 64 + col_of(p),
        0 <= row_of(p) < 32,
        0 <= col_of(p) < 64,
{
    vstd::arithmetic::div_mod::lemma_fundamental_div_mod(p, 64);
    vstd::arithmetic::div_mod::lemma_mod_pos_bound(p, 64);
}

} // verus!
