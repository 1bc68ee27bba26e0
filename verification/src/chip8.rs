//! The machine state and the decode-execute engine. Every instruction
//! handler is proved to implement exactly the transition `model::step`.

use vstd::prelude::*;
use crate::decode::{Instruction, decode, spec_decode};
use crate::model::{
    MachineView,
    Fault,
    step,
    exec_fault,
    step_fault,
    fetch_fault,
    spec_opcode,
    initial,
    wrap_add8,
    dec_timer,
    covered,
    sprite_bit,
    flip,
    draw_pixels,
    draw_hit,
    row_of,
    col_of,
    walked,
    lemma_cell_coords,
    lemma_coords_cell,
    MEM_SIZE,
    NUM_REGS,
    STACK_SLOTS,
    NUM_PIXELS,
    NUM_KEYS,
    FONT_BASE,
    START_PC,
};

verus! {

/// The full architectural state of the machine. The framebuffer cells in
/// `pixels` hold strictly 0 or 1; `stack` keeps slot 0 unused so that a
/// stack pointer of 0 means an empty call stack.
pub struct Chip8 {
    pub memory: Vec<u8>,
    pub pc: u16,
    pub i: u16,
    pub v: Vec<u8>,
    pub stack: Vec<u16>,
    pub stack_pointer: usize,
    pub delay_timer: u8,
    pub sound_timer: u8,
    pub pixels: Vec<u8>,
    pub keypad: Vec<bool>,
    pub awaiting_key: Option<u8>,
    pub rng: u16,
}

impl View for Chip8 {
    type V = MachineView;

    open spec fn view(&self) -> MachineView {
        MachineView {
            memory: self.memory@,
            pc: self.pc,
            i: self.i,
            v: self.v@,
            stack: self.stack@,
            stack_pointer: self.stack_pointer as int,
            delay_timer: self.delay_timer,
            sound_timer: self.sound_timer,
            pixels: self.pixels@,
            keypad: self.keypad@,
            awaiting_key: self.awaiting_key,
            rng: self.rng,
        }
    }
}

/// A vector of `n` copies of `val`.
#[verifier::loop_isolation(false)]
fn filled_vec<T: Copy>(n: usize, val: T) -> (r: Vec<T>)
    ensures
        r@.len() == n,
        forall|j: int| 0 <= j < n ==> r@[j] == val,
{
    let mut r: Vec<T> = Vec::new();
    while r.len() < n
        invariant
            r@.len() <= n,
            forall|j: int| 0 <= j < r@.len() ==> r@[j] == val,
        decreases n - r@.len(),
    {
        r.push(val);
    }
    r
}

/// 8-bit wrapping addition.
fn wrapping_add8(a: u8, b: u8) -> (r: u8)
    ensures
        r == wrap_add8(a, b),
{
    ((a as u16 + b as u16) % 256) as u8
}

impl Chip8 {
    /// A machine just created: zeroed state, program counter at the entry
    /// address. The loader seeds fonts and program bytes afterwards.
    pub fn new() -> (c: Chip8)
        ensures
            c@.wf(),
            c@ == initial(),
    {
        let c = Chip8 {
            memory: filled_vec(MEM_SIZE, 0u8),
            pc: START_PC,
            i: 0,
            v: filled_vec(NUM_REGS, 0u8),
            stack: filled_vec(STACK_SLOTS, 0u16),
            stack_pointer: 0,
            delay_timer: 0,
            sound_timer: 0,
            pixels: filled_vec(NUM_PIXELS, 0u8),
            keypad: filled_vec(NUM_KEYS, false),
            awaiting_key: None,
            rng: 0,
        };
        proof {
            assert(c@ =~= initial());
        }
        c
    }

    /// Write a block of bytes into memory, as the loader does for the font
    /// table and the program image.
    #[verifier::loop_isolation(false)]
    pub fn load_bytes(&mut self, addr: u16, data: &Vec<u8>)
        requires
            old(self)@.wf(),
            addr + data@.len() <= MEM_SIZE,
        ensures
            final(self)@.wf(),
            final(self)@ == (MachineView {
                memory: Seq::new(
                    MEM_SIZE as nat,
                    |a: int|
                        if addr <= a < addr + data@.len() {
                            data@[a - addr]
                        } else {
                            old(self)@.memory[a]
                        },
                ),
                ..old(self)@
            }),
    {
        let mut j: usize = 0;
        while j < data.len()
            invariant
                j <= data@.len(),
                self@ == (MachineView { memory: self.memory@, ..old(self)@ }),
                self.memory@.len() == MEM_SIZE,
                forall|a: int|
                    0 <= a < MEM_SIZE ==> self.memory@[a] == (if addr <= a < addr + j {
                        data@[a - addr]
                    } else {
                        old(self)@.memory[a]
                    }),
            decreases data@.len() - j,
        {
            self.memory.set(addr as usize + j, data[j]);
            j += 1;
        }
        proof {
            assert(self@.memory =~= Seq::new(
                MEM_SIZE as nat,
                |a: int|
                    if addr <= a < addr + data@.len() {
                        data@[a - addr]
                    } else {
                        old(self)@.memory[a]
                    },
            ));
        }
    }

    /// Refresh one key of the keypad snapshot, as the host input
    /// collaborator does before each decode-execute call.
    pub fn set_key(&mut self, key: u8, pressed: bool)
        requires
            old(self)@.wf(),
            key < 16,
        ensures
            final(self)@.wf(),
            final(self)@ == (MachineView {
                keypad: old(self)@.keypad.update(key as int, pressed),
                ..old(self)@
            }),
    {
        self.keypad.set(key as usize, pressed);
    }

    /// One 60 Hz tick from the external driver: both timers count down,
    /// stopping at zero.
    pub fn tick_timers(&mut self)
        requires
            old(self)@.wf(),
        ensures
            final(self)@.wf(),
            final(self)@ == (MachineView {
                delay_timer: dec_timer(old(self)@.delay_timer),
                sound_timer: dec_timer(old(self)@.sound_timer),
                ..old(self)@
            }),
    {
        if self.delay_timer > 0 {
            self.delay_timer = self.delay_timer - 1;
        }
        if self.sound_timer > 0 {
            self.sound_timer = self.sound_timer - 1;
        }
    }

    /// Resolve a pending key wait: the driver observed a fresh press of
    /// `key` and execution resumes with the waiting register filled.
    pub fn resolve_key(&mut self, key: u8)
        requires
            old(self)@.wf(),
            old(self)@.awaiting_key is Some,
            key < 16,
        ensures
            final(self)@.wf(),
            final(self)@ == (MachineView {
                v: old(self)@.v.update(old(self)@.awaiting_key.unwrap() as int, key),
                awaiting_key: None,
                ..old(self)@
            }),
    {
        let x: u8 = if let Some(k) = self.awaiting_key {
            k
        } else {
            0
        };
        self.v.set(x as usize, key);
        self.awaiting_key = None;
    }

    /// Whether fetching the next opcode would leave memory bounds.
    pub fn check_fetch(&self) -> (r: Option<Fault>)
        requires
            self@.wf(),
        ensures
            r == fetch_fault(self@),
    {
        if (self.pc as usize) + 1 < MEM_SIZE {
            None
        } else {
            Some(Fault::OutOfBoundsAccess)
        }
    }

    /// The fault, if any, that `decode_and_execute` would hit on this
    /// opcode in the current state; `None` means it is safe to execute.
    pub fn check_instruction(&self, instruction: u16) -> (r: Option<Fault>)
        requires
            self@.wf(),
        ensures
            r == step_fault(self@, instruction),
    {
        match decode(instruction) {
            None => Some(Fault::DecodeError),
            Some(ins) => match ins {
                Instruction::Return => if self.stack_pointer < 1 {
                    Some(Fault::StackUnderflow)
                } else {
                    None
                },
                Instruction::Call { .. } => if self.stack_pointer >= 16 {
                    Some(Fault::StackOverflow)
                } else {
                    None
                },
                Instruction::SkipIfEq { x, kk } => if self.v[x as usize] == kk && self.pc
                    >= 0xFFFE {
                    Some(Fault::OutOfBoundsAccess)
                } else {
                    None
                },
                Instruction::SkipIfNotEq { x, kk } => if self.v[x as usize] != kk && self.pc
                    >= 0xFFFE {
                    Some(Fault::OutOfBoundsAccess)
                } else {
                    None
                },
                Instruction::SkipIfRegEq { x, y } => if self.v[x as usize] == self.v[y as usize]
                    && self.pc >= 0xFFFE {
                    Some(Fault::OutOfBoundsAccess)
                } else {
                    None
                },
                Instruction::SkipIfRegNotEq { x, y } => if self.v[x as usize] != self.v[y as usize]
                    && self.pc >= 0xFFFE {
                    Some(Fault::OutOfBoundsAccess)
                } else {
                    None
                },
                Instruction::Draw { n, .. } => if self.i as usize + n as usize > MEM_SIZE {
                    Some(Fault::OutOfBoundsAccess)
                } else {
                    None
                },
                Instruction::SkipIfKeyPressed { x } => if self.v[x as usize] >= 16 {
                    Some(Fault::OutOfBoundsAccess)
                } else if self.keypad[self.v[x as usize] as usize] && self.pc >= 0xFFFE {
                    Some(Fault::OutOfBoundsAccess)
                } else {
                    None
                },
                Instruction::SkipIfKeyNotPressed { x } => if self.v[x as usize] >= 16 {
                    Some(Fault::OutOfBoundsAccess)
                } else if !self.keypad[self.v[x as usize] as usize] && self.pc >= 0xFFFE {
                    Some(Fault::OutOfBoundsAccess)
                } else {
                    None
                },
                Instruction::AddIndex { x } => if self.i as u32 + self.v[x as usize] as u32
                    > 0xFFFF {
                    Some(Fault::OutOfBoundsAccess)
                } else {
                    None
                },
                Instruction::StoreDigits { .. } => if self.i as usize + 3 > MEM_SIZE {
                    Some(Fault::OutOfBoundsAccess)
                } else {
                    None
                },
                Instruction::StoreRange { x } => if self.i as usize + x as usize >= MEM_SIZE {
                    Some(Fault::OutOfBoundsAccess)
                } else {
                    None
                },
                Instruction::LoadRange { x } => if self.i as usize + x as usize >= MEM_SIZE {
                    Some(Fault::OutOfBoundsAccess)
                } else {
                    None
                },
                _ => None,
            },
        }
    }

    /// Read the two bytes at the program counter, combine them big-endian
    /// into an opcode, and advance the program counter past them.
    pub fn fetch(&mut self) -> (opcode: u16)
        requires
            old(self)@.wf(),
            fetch_fault(old(self)@) is None,
        ensures
            final(self)@.wf(),
            opcode == spec_opcode(old(self)@),
            final(self)@ == (MachineView { pc: (old(self)@.pc + 2) as u16, ..old(self)@ }),
    {
        let first_byte: u8 = self.memory[self.pc as usize];
        let second_byte: u8 = self.memory[self.pc as usize + 1];
        let instruction: u16 = (first_byte as u16) * 256 + (second_byte as u16);
        self.pc = self.pc + 2;
        instruction
    }

    /// Decode one opcode and execute it. The caller must have ruled out
    /// every fault (`check_instruction` returns `None`); the machine then
    /// moves to exactly the state `step` prescribes.
    pub fn decode_and_execute(&mut self, instruction: u16)
        requires
            old(self)@.wf(),
            step_fault(old(self)@, instruction) is None,
        ensures
            final(self)@.wf(),
            final(self)@ == step(old(self)@, spec_decode(instruction).unwrap()),
    {
        match decode(instruction) {
            Some(ins) => self.execute(ins),
            None => {
                proof {
                    assert(false);
                }
            },
        }
    }

    /// Execute one decoded instruction, faithfully to the instruction
    /// table: the machine moves to exactly the state `step` prescribes.
    pub fn execute(&mut self, ins: Instruction)
        requires
            old(self)@.wf(),
            ins.wf(),
            exec_fault(old(self)@, ins) is None,
        ensures
            final(self)@.wf(),
            final(self)@ == step(old(self)@, ins),
    {
        match ins {
            Instruction::ClearScreen => self.clear_screen(),
            Instruction::Return => self.return_from_subroutine(),
            Instruction::Jump { nnn } => self.jump_to_addr(nnn),
            Instruction::Call { nnn } => self.call(nnn),
            Instruction::SkipIfEq { x, kk } => self.skip_if_eq(x, kk),
            Instruction::SkipIfNotEq { x, kk } => self.skip_if_not_eq(x, kk),
            Instruction::SkipIfRegEq { x, y } => self.skip_if_reg_eq(x, y),
            Instruction::SetReg { x, kk } => self.set_reg(x, kk),
            Instruction::AddReg { x, kk } => self.add_value_to_reg(x, kk),
            Instruction::LoadReg { x, y } => self.load_reg(x, y),
            Instruction::OrReg { x, y } => self.or_regs(x, y),
            Instruction::AndReg { x, y } => self.and_regs(x, y),
            Instruction::XorReg { x, y } => self.xor_regs(x, y),
            Instruction::Add { x, y } => self.add_regs(x, y),
            Instruction::Sub { x, y } => self.sub_regs(x, y),
            Instruction::Shr { x } => self.shr_reg(x),
            Instruction::SubN { x, y } => self.subn_regs(x, y),
            Instruction::Shl { x } => self.shl_reg(x),
            Instruction::SkipIfRegNotEq { x, y } => self.skip_if_reg_not_eq(x, y),
            Instruction::SetIndex { nnn } => self.set_index_reg(nnn),
            Instruction::JumpOffset { nnn } => self.jump_offset(nnn),
            Instruction::Random { x, kk } => self.random(x, kk),
            Instruction::Draw { x, y, n } => self.draw_screen(x, y, n),
            Instruction::SkipIfKeyPressed { x } => self.skip_if_key_pressed(x),
            Instruction::SkipIfKeyNotPressed { x } => self.skip_if_key_not_pressed(x),
            Instruction::LoadDelayTimer { x } => self.load_delay_timer(x),
            Instruction::WaitForKey { x } => self.wait_for_key(x),
            Instruction::SetDelayTimer { x } => self.set_delay_timer(x),
            Instruction::SetSoundTimer { x } => self.set_sound_timer(x),
            Instruction::AddIndex { x } => self.add_i(x),
            Instruction::SetSpriteIndex { x } => self.set_sprite_to_i(x),
            Instruction::StoreDigits { x } => self.store_digits(x),
            Instruction::StoreRange { x } => self.store_range(x),
            Instruction::LoadRange { x } => self.load_range(x),
        }
    }

    /// 00E0: every framebuffer cell goes off.
    #[verifier::loop_isolation(false)]
    fn clear_screen(&mut self)
        requires
            old(self)@.wf(),
        ensures
            final(self)@.wf(),
            final(self)@ == step(old(self)@, Instruction::ClearScreen),
    {
        let mut j: usize = 0;
        while j < NUM_PIXELS
            invariant
                j <= NUM_PIXELS,
                self@ == (MachineView { pixels: self.pixels@, ..old(self)@ }),
                self.pixels@.len() == NUM_PIXELS,
                forall|p: int| 0 <= p < j ==> self.pixels@[p] == 0,
            decreases NUM_PIXELS - j,
        {
            self.pixels.set(j, 0);
            j += 1;
        }
        proof {
            assert(self@.pixels =~= Seq::new(NUM_PIXELS as nat, |p: int| 0u8));
        }
    }

    /// 00EE: pop the return address.
    fn return_from_subroutine(&mut self)
        requires
            old(self)@.wf(),
            old(self)@.stack_pointer >= 1,
        ensures
            final(self)@.wf(),
            final(self)@ == step(old(self)@, Instruction::Return),
    {
        self.pc = self.stack[self.stack_pointer];
        self.stack_pointer = self.stack_pointer - 1;
    }

    /// 1nnn: jump.
    fn jump_to_addr(&mut self, nnn: u16)
        requires
            old(self)@.wf(),
        ensures
            final(self)@.wf(),
            final(self)@ == step(old(self)@, (Instruction::Jump { nnn })),
    {
        self.pc = nnn;
    }

    /// 2nnn: push the current program counter and jump to the subroutine.
    fn call(&mut self, nnn: u16)
        requires
            old(self)@.wf(),
            old(self)@.stack_pointer < 16,
        ensures
            final(self)@.wf(),
            final(self)@ == step(old(self)@, (Instruction::Call { nnn })),
    {
        self.stack_pointer = self.stack_pointer + 1;
        self.stack.set(self.stack_pointer, self.pc);
        self.pc = nnn;
    }

    /// 3xkk: skip the next instruction if `v[x] == kk`.
    fn skip_if_eq(&mut self, x: u8, kk: u8)
        requires
            old(self)@.wf(),
            x < 16,
            old(self)@.v[x as int] == kk ==> old(self)@.pc + 2 <= 0xFFFF,
        ensures
            final(self)@.wf(),
            final(self)@ == step(old(self)@, (Instruction::SkipIfEq { x, kk })),
    {
        if self.v[x as usize] == kk {
            self.pc = self.pc + 2;
        }
    }

    /// 4xkk: skip the next instruction if `v[x] != kk`.
    fn skip_if_not_eq(&mut self, x: u8, kk: u8)
        requires
            old(self)@.wf(),
            x < 16,
            old(self)@.v[x as int] != kk ==> old(self)@.pc + 2 <= 0xFFFF,
        ensures
            final(self)@.wf(),
            final(self)@ == step(old(self)@, (Instruction::SkipIfNotEq { x, kk })),
    {
        if self.v[x as usize] != kk {
            self.pc = self.pc + 2;
        }
    }

    /// 5xy0: skip the next instruction if `v[x] == v[y]`.
    fn skip_if_reg_eq(&mut self, x: u8, y: u8)
        requires
            old(self)@.wf(),
            x < 16,
            y < 16,
            old(self)@.v[x as int] == old(self)@.v[y as int] ==> old(self)@.pc + 2 <= 0xFFFF,
        ensures
            final(self)@.wf(),
            final(self)@ == step(old(self)@, (Instruction::SkipIfRegEq { x, y })),
    {
        if self.v[x as usize] == self.v[y as usize] {
            self.pc = self.pc + 2;
        }
    }

    /// 6xkk: set a register to an immediate.
    fn set_reg(&mut self, x: u8, kk: u8)
        requires
            old(self)@.wf(),
            x < 16,
        ensures
            final(self)@.wf(),
            final(self)@ == step(old(self)@, (Instruction::SetReg { x, kk })),
    {
        self.v.set(x as usize, kk);
    }

    /// 7xkk: add an immediate to a register, wrapping, without a flag.
    fn add_value_to_reg(&mut self, x: u8, kk: u8)
        requires
            old(self)@.wf(),
            x < 16,
        ensures
            final(self)@.wf(),
            final(self)@ == step(old(self)@, (Instruction::AddReg { x, kk })),
    {
        let sum = wrapping_add8(self.v[x as usize], kk);
        self.v.set(x as usize, sum);
    }

    /// 8xy0: copy `v[y]` into `v[x]`.
    fn load_reg(&mut self, x: u8, y: u8)
        requires
            old(self)@.wf(),
            x < 16,
            y < 16,
        ensures
            final(self)@.wf(),
            final(self)@ == step(old(self)@, (Instruction::LoadReg { x, y })),
    {
        let val = self.v[y as usize];
        self.v.set(x as usize, val);
    }

    /// 8xy1: bitwise OR into `v[x]`.
    fn or_regs(&mut self, x: u8, y: u8)
        requires
            old(self)@.wf(),
            x < 16,
            y < 16,
        ensures
            final(self)@.wf(),
            final(self)@ == step(old(self)@, (Instruction::OrReg { x, y })),
    {
        let val = self.v[x as usize] | self.v[y as usize];
        self.v.set(x as usize, val);
    }

    /// 8xy2: bitwise AND into `v[x]`.
    fn and_regs(&mut self, x: u8, y: u8)
        requires
            old(self)@.wf(),
            x < 16,
            y < 16,
        ensures
            final(self)@.wf(),
            final(self)@ == step(old(self)@, (Instruction::AndReg { x, y })),
    {
        let val = self.v[x as usize] & self.v[y as usize];
        self.v.set(x as usize, val);
    }

    /// 8xy3: bitwise XOR into `v[x]`.
    fn xor_regs(&mut self, x: u8, y: u8)
        requires
            old(self)@.wf(),
            x < 16,
            y < 16,
        ensures
            final(self)@.wf(),
            final(self)@ == step(old(self)@, (Instruction::XorReg { x, y })),
    {
        let val = self.v[x as usize] ^ self.v[y as usize];
        self.v.set(x as usize, val);
    }

    /// 8xy4: add registers; the flag register takes the carry afterwards,
    /// overwriting the result when `x` is 15.
    fn add_regs(&mut self, x: u8, y: u8)
        requires
            old(self)@.wf(),
            x < 16,
            y < 16,
        ensures
            final(self)@.wf(),
            final(self)@ == step(old(self)@, (Instruction::Add { x, y })),
    {
        let a = self.v[x as usize];
        let b = self.v[y as usize];
        let sum: u16 = a as u16 + b as u16;
        let result: u8 = (sum % 256) as u8;
        let flag: u8 = if sum > 255 {
            1
        } else {
            0
        };
        self.v.set(x as usize, result);
        self.v.set(15, flag);
    }

    /// 8xy5: `v[x] - v[y]`, wrapping; the flag register takes the
    /// not-borrow bit afterwards.
    fn sub_regs(&mut self, x: u8, y: u8)
        requires
            old(self)@.wf(),
            x < 16,
            y < 16,
        ensures
            final(self)@.wf(),
            final(self)@ == step(old(self)@, (Instruction::Sub { x, y })),
    {
        let a = self.v[x as usize];
        let b = self.v[y as usize];
        let result: u8 = if a >= b {
            a - b
        } else {
            (255 - b) + a + 1
        };
        let flag: u8 = if a >= b {
            1
        } else {
            0
        };
        self.v.set(x as usize, result);
        self.v.set(15, flag);
    }

    /// 8xy6: shift right; the flag register takes the shifted-out bit.
    fn shr_reg(&mut self, x: u8)
        requires
            old(self)@.wf(),
            x < 16,
        ensures
            final(self)@.wf(),
            final(self)@ == step(old(self)@, (Instruction::Shr { x })),
    {
        let a = self.v[x as usize];
        self.v.set(x as usize, a >> 1);
        self.v.set(15, a & 1);
    }

    /// 8xy7: `v[y] - v[x]`, wrapping; the flag register takes the
    /// not-borrow bit afterwards.
    fn subn_regs(&mut self, x: u8, y: u8)
        requires
            old(self)@.wf(),
            x < 16,
            y < 16,
        ensures
            final(self)@.wf(),
            final(self)@ == step(old(self)@, (Instruction::SubN { x, y })),
    {
        let a = self.v[x as usize];
        let b = self.v[y as usize];
        let result: u8 = if b >= a {
            b - a
        } else {
            (255 - a) + b + 1
        };
        let flag: u8 = if b >= a {
            1
        } else {
            0
        };
        self.v.set(x as usize, result);
        self.v.set(15, flag);
    }

    /// 8xyE: shift left; the flag register takes the shifted-out bit.
    fn shl_reg(&mut self, x: u8)
        requires
            old(self)@.wf(),
            x < 16,
        ensures
            final(self)@.wf(),
            final(self)@ == step(old(self)@, (Instruction::Shl { x })),
    {
        let a = self.v[x as usize];
        self.v.set(x as usize, a << 1);
        self.v.set(15, (a >> 7) & 1);
    }

    /// 9xy0: skip the next instruction if `v[x] != v[y]`.
    fn skip_if_reg_not_eq(&mut self, x: u8, y: u8)
        requires
            old(self)@.wf(),
            x < 16,
            y < 16,
            old(self)@.v[x as int] != old(self)@.v[y as int] ==> old(self)@.pc + 2 <= 0xFFFF,
        ensures
            final(self)@.wf(),
            final(self)@ == step(old(self)@, (Instruction::SkipIfRegNotEq { x, y })),
    {
        if self.v[x as usize] != self.v[y as usize] {
            self.pc = self.pc + 2;
        }
    }

    /// Annn: set the index register.
    fn set_index_reg(&mut self, nnn: u16)
        requires
            old(self)@.wf(),
        ensures
            final(self)@.wf(),
            final(self)@ == step(old(self)@, (Instruction::SetIndex { nnn })),
    {
        self.i = nnn;
    }

    /// Bnnn: jump to `nnn` offset by `v[0]`.
    fn jump_offset(&mut self, nnn: u16)
        requires
            old(self)@.wf(),
            nnn < 4096,
        ensures
            final(self)@.wf(),
            final(self)@ == step(old(self)@, (Instruction::JumpOffset { nnn })),
    {
        self.pc = nnn + self.v[0] as u16;
    }

    /// Cxkk: advance the pseudo-random generator and mask its byte with
    /// `kk`.
    fn random(&mut self, x: u8, kk: u8)
        requires
            old(self)@.wf(),
            x < 16,
        ensures
            final(self)@.wf(),
            final(self)@ == step(old(self)@, (Instruction::Random { x, kk })),
    {
        let next: u16 = ((self.rng as u32 * 25173 + 13849) % 65536) as u16;
        self.rng = next;
        let byte: u8 = (next / 256) as u8;
        self.v.set(x as usize, byte & kk);
    }

    /// Dxyn: XOR-blit an `n`-row sprite read from memory at the index
    /// register onto the screen at `(v[x] mod 64, v[y] mod 32)`, clipping
    /// at the right and bottom edges; the flag register reports whether
    /// any cell was turned off.
    #[verifier::loop_isolation(false)]
    #[verifier::rlimit(60)]
    fn draw_screen(&mut self, x: u8, y: u8, n: u8)
        requires
            old(self)@.wf(),
            x < 16,
            y < 16,
            n < 16,
            old(self)@.i + n <= MEM_SIZE,
        ensures
            final(self)@.wf(),
            final(self)@ == step(old(self)@, (Instruction::Draw { x, y, n })),
    {
        let x0 = (self.v[x as usize] % 64) as usize;
        let y0 = (self.v[y as usize] % 32) as usize;
        let ghost gx0 = x0 as int;
        let ghost gy0 = y0 as int;
        let ghost gi0 = self.i as int;
        let ghost gn = n as int;
        let ghost pix0 = self.pixels@;
        let ghost mem0 = self.memory@;
        let mut vf: u8 = 0;
        let mut r: usize = 0;
        while r < n as usize
            invariant
                r <= gn,
                self@ == (MachineView { pixels: self.pixels@, ..old(self)@ }),
                self.pixels@.len() == NUM_PIXELS,
                forall|p: int|
                    0 <= p < NUM_PIXELS ==> self.pixels@[p] == (if walked(gx0, gy0, r as int, 0, p)
                        && sprite_bit(mem0, gi0, gx0, gy0, p) {
                        flip(pix0[p])
                    } else {
                        pix0[p]
                    }),
                (vf == 1) <==> exists|p: int|
                    0 <= p < NUM_PIXELS && #[trigger] walked(gx0, gy0, r as int, 0, p)
                        && sprite_bit(mem0, gi0, gx0, gy0, p) && pix0[p] == 1,
                vf == 0 || vf == 1,
            decreases gn - r,
        {
            if y0 + r < 32 {
                let sprite: u8 = self.memory[self.i as usize + r];
                let mut c: usize = 0;
                while c < 8
                    invariant
                        c <= 8,
                        r < gn,
                        y0 + r < 32,
                        sprite == mem0[gi0 + r],
                        self@ == (MachineView { pixels: self.pixels@, ..old(self)@ }),
                        self.pixels@.len() == NUM_PIXELS,
                        forall|p: int|
                            0 <= p < NUM_PIXELS ==> self.pixels@[p] == (if walked(
                                gx0,
                                gy0,
                                r as int,
                                c as int,
                                p,
                            ) && sprite_bit(mem0, gi0, gx0, gy0, p) {
                                flip(pix0[p])
                            } else {
                                pix0[p]
                            }),
                        (vf == 1) <==> exists|p: int|
                            0 <= p < NUM_PIXELS && #[trigger] walked(gx0, gy0, r as int, c as int, p)
                                && sprite_bit(mem0, gi0, gx0, gy0, p) && pix0[p] == 1,
                        vf == 0 || vf == 1,
                    decreases 8 - c,
                {
                    let ghost gc = c as int;
                    if x0 + c < 64 {
                        let sh: u8 = (7 - c) as u8;
                        let bit: u8 = (sprite >> sh) & 1;
                        let idx: usize = (y0 + r) * 64 + (x0 + c);
                        proof {
                            lemma_cell_coords(gy0 + r, gx0 + gc);
                            assert(idx < NUM_PIXELS);
                            assert(row_of(idx as int) == gy0 + r && col_of(idx as int) == gx0 + gc);
                            assert(sprite_bit(mem0, gi0, gx0, gy0, idx as int) == (bit == 1));
                            assert(!walked(gx0, gy0, r as int, gc, idx as int));
                        }
                        if bit == 1 {
                            let cell = self.pixels[idx];
                            proof {
                                assert(cell == pix0[idx as int]);
                            }
                            if cell == 1 {
                                vf = 1;
                            }
                            let newcell: u8 = if cell == 1 {
                                0
                            } else {
                                1
                            };
                            self.pixels.set(idx, newcell);
                            proof {
                                assert(newcell == flip(pix0[idx as int]));
                                assert forall|p: int| 0 <= p < NUM_PIXELS implies self.pixels@[p]
                                    == (if walked(gx0, gy0, r as int, gc + 1, p) && sprite_bit(
                                    mem0,
                                    gi0,
                                    gx0,
                                    gy0,
                                    p,
                                ) {
                                    flip(pix0[p])
                                } else {
                                    pix0[p]
                                }) by {
                                    if p != idx as int {
                                        lemma_coords_cell(p);
                                    }
                                };
                                if cell == 1 {
                                    assert(walked(gx0, gy0, r as int, gc + 1, idx as int)
                                        && sprite_bit(mem0, gi0, gx0, gy0, idx as int) && pix0[idx as int]
                                        == 1);
                                } else {
                                    if vf != 1 {
                                        assert forall|p: int|
                                            0 <= p < NUM_PIXELS && #[trigger] walked(
                                                gx0,
                                                gy0,
                                                r as int,
                                                gc + 1,
                                                p,
                                            ) && sprite_bit(mem0, gi0, gx0, gy0, p) && pix0[p] == 1 implies false by {
                                            if p == idx as int {
                                            } else {
                                                lemma_coords_cell(p);
                                                assert(walked(gx0, gy0, r as int, gc, p));
                                            }
                                        };
                                    } else {
                                        let wp = choose|p: int|
                                            0 <= p < NUM_PIXELS && #[trigger] walked(
                                                gx0,
                                                gy0,
                                                r as int,
                                                gc,
                                                p,
                                            ) && sprite_bit(mem0, gi0, gx0, gy0, p) && pix0[p] == 1;
                                        assert(walked(gx0, gy0, r as int, gc + 1, wp));
                                    }
                                }
                            }
                        } else {
                            proof {
                                assert forall|p: int| 0 <= p < NUM_PIXELS implies self.pixels@[p]
                                    == (if walked(gx0, gy0, r as int, gc + 1, p) && sprite_bit(
                                    mem0,
                                    gi0,
                                    gx0,
                                    gy0,
                                    p,
                                ) {
                                    flip(pix0[p])
                                } else {
                                    pix0[p]
                                }) by {
                                    if p != idx as int {
                                        lemma_coords_cell(p);
                                    }
                                };
                                if vf == 1 {
                                    let wp = choose|p: int|
                                        0 <= p < NUM_PIXELS && #[trigger] walked(
                                            gx0,
                                            gy0,
                                            r as int,
                                            gc,
                                            p,
                                        ) && sprite_bit(mem0, gi0, gx0, gy0, p) && pix0[p] == 1;
                                    assert(walked(gx0, gy0, r as int, gc + 1, wp));
                                } else {
                                    assert forall|p: int|
                                        0 <= p < NUM_PIXELS && #[trigger] walked(
                                            gx0,
                                            gy0,
                                            r as int,
                                            gc + 1,
                                            p,
                                        ) && sprite_bit(mem0, gi0, gx0, gy0, p) && pix0[p] == 1 implies false by {
                                        if p == idx as int {
                                        } else {
                                            lemma_coords_cell(p);
                                            assert(walked(gx0, gy0, r as int, gc, p));
                                        }
                                    };
                                }
                            }
                        }
                    } else {
                        proof {
                            assert forall|p: int| 0 <= p < NUM_PIXELS implies walked(
                                gx0,
                                gy0,
                                r as int,
                                gc + 1,
                                p,
                            ) == walked(gx0, gy0, r as int, gc, p) by {
                                lemma_coords_cell(p);
                            };
                        }
                    }
                    c += 1;
                }
                proof {
                    assert forall|p: int| 0 <= p < NUM_PIXELS implies walked(
                        gx0,
                        gy0,
                        r + 1,
                        0,
                        p,
                    ) == walked(gx0, gy0, r as int, 8, p) by {
                        lemma_coords_cell(p);
                    };
                }
            } else {
                proof {
                    assert forall|p: int| 0 <= p < NUM_PIXELS implies walked(
                        gx0,
                        gy0,
                        r + 1,
                        0,
                        p,
                    ) == walked(gx0, gy0, r as int, 0, p) by {
                        lemma_coords_cell(p);
                    };
                }
            }
            r += 1;
        }
        proof {
            assert forall|p: int| 0 <= p < NUM_PIXELS implies walked(gx0, gy0, gn, 0, p) == covered(
                gx0,
                gy0,
                gn,
                p,
            ) by {
                lemma_coords_cell(p);
            };
        }
        self.v.set(15, vf);
        proof {
            if vf == 1 {
                let wp = choose|p: int|
                    0 <= p < NUM_PIXELS && #[trigger] walked(gx0, gy0, gn, 0, p) && sprite_bit(
                        mem0,
                        gi0,
                        gx0,
                        gy0,
                        p,
                    ) && pix0[p] == 1;
                assert(covered(gx0, gy0, gn, wp));
                assert(draw_hit(pix0, mem0, gi0, gx0, gy0, gn));
            } else {
                if draw_hit(pix0, mem0, gi0, gx0, gy0, gn) {
                    let wp = choose|p: int|
                        0 <= p < NUM_PIXELS && #[trigger] covered(gx0, gy0, gn, p) && sprite_bit(
                            mem0,
                            gi0,
                            gx0,
                            gy0,
                            p,
                        ) && pix0[p] == 1;
                    assert(walked(gx0, gy0, gn, 0, wp));
                    assert(false);
                }
            }
            assert(self@.pixels =~= draw_pixels(pix0, mem0, gi0, gx0, gy0, gn));
            assert(self@ =~= step(old(self)@, (Instruction::Draw { x, y, n })));
        }
    }

    /// Ex9E: skip the next instruction if key `v[x]` is pressed.
    fn skip_if_key_pressed(&mut self, x: u8)
        requires
            old(self)@.wf(),
            x < 16,
            old(self)@.v[x as int] < 16,
            old(self)@.keypad[old(self)@.v[x as int] as int] ==> old(self)@.pc + 2 <= 0xFFFF,
        ensures
            final(self)@.wf(),
            final(self)@ == step(old(self)@, (Instruction::SkipIfKeyPressed { x })),
    {
        let key = self.v[x as usize];
        if self.keypad[key as usize] {
            self.pc = self.pc + 2;
        }
    }

    /// ExA1: skip the next instruction if key `v[x]` is not pressed.
    fn skip_if_key_not_pressed(&mut self, x: u8)
        requires
            old(self)@.wf(),
            x < 16,
            old(self)@.v[x as int] < 16,
            !old(self)@.keypad[old(self)@.v[x as int] as int] ==> old(self)@.pc + 2 <= 0xFFFF,
        ensures
            final(self)@.wf(),
            final(self)@ == step(old(self)@, (Instruction::SkipIfKeyNotPressed { x })),
    {
        let key = self.v[x as usize];
        if !self.keypad[key as usize] {
            self.pc = self.pc + 2;
        }
    }

    /// Fx07: read the delay timer.
    fn load_delay_timer(&mut self, x: u8)
        requires
            old(self)@.wf(),
            x < 16,
        ensures
            final(self)@.wf(),
            final(self)@ == step(old(self)@, (Instruction::LoadDelayTimer { x })),
    {
        let val = self.delay_timer;
        self.v.set(x as usize, val);
    }

    /// Fx0A: record that instruction progress is suspended until the
    /// driver observes a fresh key press and resolves it into `v[x]`.
    fn wait_for_key(&mut self, x: u8)
        requires
            old(self)@.wf(),
            x < 16,
        ensures
            final(self)@.wf(),
            final(self)@ == step(old(self)@, (Instruction::WaitForKey { x })),
    {
        self.awaiting_key = Some(x);
    }

    /// Fx15: set the delay timer.
    fn set_delay_timer(&mut self, x: u8)
        requires
            old(self)@.wf(),
            x < 16,
        ensures
            final(self)@.wf(),
            final(self)@ == step(old(self)@, (Instruction::SetDelayTimer { x })),
    {
        self.delay_timer = self.v[x as usize];
    }

    /// Fx18: set the sound timer.
    fn set_sound_timer(&mut self, x: u8)
        requires
            old(self)@.wf(),
            x < 16,
        ensures
            final(self)@.wf(),
            final(self)@ == step(old(self)@, (Instruction::SetSoundTimer { x })),
    {
        self.sound_timer = self.v[x as usize];
    }

    /// Fx1E: add `v[x]` to the index register.
    fn add_i(&mut self, x: u8)
        requires
            old(self)@.wf(),
            x < 16,
            old(self)@.i + old(self)@.v[x as int] <= 0xFFFF,
        ensures
            final(self)@.wf(),
            final(self)@ == step(old(self)@, (Instruction::AddIndex { x })),
    {
        self.i = self.i + self.v[x as usize] as u16;
    }

    /// Fx29: point the index register at the 5-byte font glyph for the low
    /// nibble of `v[x]`.
    fn set_sprite_to_i(&mut self, x: u8)
        requires
            old(self)@.wf(),
            x < 16,
        ensures
            final(self)@.wf(),
            final(self)@ == step(old(self)@, (Instruction::SetSpriteIndex { x })),
    {
        let digit = self.v[x as usize] % 16;
        self.i = FONT_BASE + 5 * (digit as u16);
    }

    /// Fx33: store the decimal digits of `v[x]` (hundreds, tens, ones) at
    /// the index address.
    fn store_digits(&mut self, x: u8)
        requires
            old(self)@.wf(),
            x < 16,
            old(self)@.i + 3 <= MEM_SIZE,
        ensures
            final(self)@.wf(),
            final(self)@ == step(old(self)@, (Instruction::StoreDigits { x })),
    {
        let val = self.v[x as usize];
        let base = self.i as usize;
        self.memory.set(base, val / 100);
        self.memory.set(base + 1, (val % 100) / 10);
        self.memory.set(base + 2, val % 10);
    }

    /// Fx55: store `v[0..=x]` into memory starting at the index address.
    #[verifier::loop_isolation(false)]
    fn store_range(&mut self, x: u8)
        requires
            old(self)@.wf(),
            x < 16,
            old(self)@.i + x < MEM_SIZE,
        ensures
            final(self)@.wf(),
            final(self)@ == step(old(self)@, (Instruction::StoreRange { x })),
    {
        let base = self.i as usize;
        let mut j: usize = 0;
        while j <= x as usize
            invariant
                j <= x + 1,
                self@ == (MachineView { memory: self.memory@, ..old(self)@ }),
                self.memory@.len() == MEM_SIZE,
                forall|a: int|
                    0 <= a < MEM_SIZE ==> self.memory@[a] == (if base <= a < base + j {
                        old(self)@.v[a - base]
                    } else {
                        old(self)@.memory[a]
                    }),
            decreases x + 1 - j,
        {
            let val = self.v[j];
            self.memory.set(base + j, val);
            j += 1;
        }
        proof {
            assert(self@.memory =~= step(old(self)@, (Instruction::StoreRange { x })).memory);
        }
    }

    /// Fx65: load `v[0..=x]` from memory starting at the index address.
    #[verifier::loop_isolation(false)]
    fn load_range(&mut self, x: u8)
        requires
            old(self)@.wf(),
            x < 16,
            old(self)@.i + x < MEM_SIZE,
        ensures
            final(self)@.wf(),
            final(self)@ == step(old(self)@, (Instruction::LoadRange { x })),
    {
        let base = self.i as usize;
        let mut j: usize = 0;
        while j <= x as usize
            invariant
                j <= x + 1,
                self@ == (MachineView { v: self.v@, ..old(self)@ }),
                self.v@.len() == NUM_REGS,
                forall|k: int|
                    0 <= k < NUM_REGS ==> self.v@[k] == (if k < j {
                        old(self)@.memory[base + k]
                    } else {
                        old(self)@.v[k]
                    }),
            decreases x + 1 - j,
        {
            let val = self.memory[base + j];
            self.v.set(j, val);
            j += 1;
        }
        proof {
            assert(self@.v =~= step(old(self)@, (Instruction::LoadRange { x })).v);
        }
    }
}

} // verus!
