//! General laws of the instruction set, stated over the abstract model and
//! proved once and for all inputs.

use vstd::prelude::*;
use crate::decode::Instruction;
use crate::model::{
    MachineView,
    step,
    exec_fault,
    draw_hit,
    sprite_visible,
    covered,
    sprite_bit,
    flip,
    NUM_PIXELS,
    MEM_SIZE,
};

verus! {

/// Loading an immediate: after `6xkk`, register `x` reads back exactly
/// `kk`.
pub proof fn lemma_set_reg_reads_back(pre: MachineView, x: u8, kk: u8)
    requires
        pre.wf(),
        x < 16,
    ensures
        step(pre, (Instruction::SetReg { x, kk })).v[x as int] == kk,
{
}

/// Addition: the carry flag is 1 exactly when the unsigned sum exceeds
/// 255, and the stored result is the sum modulo 256 (unless `x` is the
/// flag register itself, which the flag overwrites).
pub proof fn lemma_add_carry(pre: MachineView, x: u8, y: u8)
    requires
        pre.wf(),
        x < 16,
        y < 16,
    ensures
        ({
            let a = pre.v[x as int];
            let b = pre.v[y as int];
            let post = step(pre, (Instruction::Add { x, y }));
            &&& post.v[15] == (if a + b > 255 {
                1u8
            } else {
                0u8
            })
            &&& x != 15 ==> post.v[x as int] == (a + b) % 256
        }),
{
}

/// Subtraction `8xy5`: the not-borrow flag is 1 exactly when the minuend
/// is at least the subtrahend, and the stored result is the difference
/// modulo 256 (unless `x` is the flag register itself).
pub proof fn lemma_sub_not_borrow(pre: MachineView, x: u8, y: u8)
    requires
        pre.wf(),
        x < 16,
        y < 16,
    ensures
        ({
            let a = pre.v[x as int];
            let b = pre.v[y as int];
            let post = step(pre, (Instruction::Sub { x, y }));
            &&& post.v[15] == (if a >= b {
                1u8
            } else {
                0u8
            })
            &&& x != 15 ==> post.v[x as int] == (a - b) % 256
        }),
{
}

/// Reversed subtraction `8xy7`: the not-borrow flag is 1 exactly when the
/// minuend `v[y]` is at least the subtrahend `v[x]`, and the stored result
/// is the difference modulo 256 (unless `x` is the flag register itself).
pub proof fn lemma_subn_not_borrow(pre: MachineView, x: u8, y: u8)
    requires
        pre.wf(),
        x < 16,
        y < 16,
    ensures
        ({
            let a = pre.v[x as int];
            let b = pre.v[y as int];
            let post = step(pre, (Instruction::SubN { x, y }));
            &&& post.v[15] == (if b >= a {
                1u8
            } else {
                0u8
            })
            &&& x != 15 ==> post.v[x as int] == (b - a) % 256
        }),
{
}

/// Shifts: the flag register ends as the shifted-out bit — bit 0 of the
/// pre-shift value for `8xy6`, bit 7 for `8xyE` — whatever `x` is.
pub proof fn lemma_shift_flags(pre: MachineView, x: u8)
    requires
        pre.wf(),
        x < 16,
    ensures
        step(pre, (Instruction::Shr { x })).v[15] == pre.v[x as int] & 1,
        step(pre, (Instruction::Shl { x })).v[15] == (pre.v[x as int] >> 7) & 1,
{
}

/// Clearing: after `00E0` every framebuffer cell reads 0.
pub proof fn lemma_clear_screen_all_off(pre: MachineView)
    requires
        pre.wf(),
    ensures
        forall|p: int|
            0 <= p < NUM_PIXELS ==> step(pre, Instruction::ClearScreen).pixels[p] == 0,
{
}

/// Register file round trip: `Fx55` then `Fx65` from the same index
/// address leaves every register exactly as it started.
pub proof fn lemma_store_load_round_trip(pre: MachineView, x: u8)
    requires
        pre.wf(),
        x < 16,
        pre.i + x < MEM_SIZE,
    ensures
        step(step(pre, (Instruction::StoreRange { x })), (Instruction::LoadRange { x })).v == pre.v,
{
    let mid = step(pre, (Instruction::StoreRange { x }));
    let post = step(mid, (Instruction::LoadRange { x }));
    assert(post.v =~= pre.v);
}

/// Call and return: `2nnn` followed by `00EE` puts the program counter
/// back on the instruction after the call, with the stack pointer
/// restored.
pub proof fn lemma_call_return(pre: MachineView, nnn: u16)
    requires
        pre.wf(),
        pre.stack_pointer < 16,
    ensures
        ({
            let post = step(step(pre, (Instruction::Call { nnn })), Instruction::Return);
            &&& post.pc == pre.pc
            &&& post.stack_pointer == pre.stack_pointer
        }),
{
}

/// XOR compositing is self-inverse: drawing the same sprite twice at the
/// same position restores the original framebuffer content. Registers `x`
/// and `y` must not be the flag register, since the first draw overwrites
/// it and would move the second sprite.
pub proof fn lemma_draw_twice_restores(pre: MachineView, x: u8, y: u8, n: u8)
    requires
        pre.wf(),
        x < 16,
        y < 16,
        n < 16,
        x != 15,
        y != 15,
        pre.i + n <= MEM_SIZE,
    ensures
        step(step(pre, (Instruction::Draw { x, y, n })), (Instruction::Draw { x, y, n })).pixels
            == pre.pixels,
{
    let ins = Instruction::Draw { x, y, n };
    let mid = step(pre, ins);
    let post = step(mid, ins);
    assert(post.pixels =~= pre.pixels);
}

/// The collision flag of a second identical draw, given that the first
/// draw reported no collision: the second draw erases every cell the
/// first turned on, so it collides exactly when the sprite shows any
/// on-screen set pixel at all.
pub proof fn lemma_draw_second_flag(pre: MachineView, x: u8, y: u8, n: u8)
    requires
        pre.wf(),
        x < 16,
        y < 16,
        n < 16,
        x != 15,
        y != 15,
        pre.i + n <= MEM_SIZE,
        step(pre, (Instruction::Draw { x, y, n })).v[15] == 0,
    ensures
        ({
            let x0 = (pre.v[x as int] % 64) as int;
            let y0 = (pre.v[y as int] % 32) as int;
            let post = step(step(pre, (Instruction::Draw { x, y, n })), (Instruction::Draw {
                x,
                y,
                n,
            }));
            post.v[15] == (if sprite_visible(pre.memory, pre.i as int, x0, y0, n as int) {
                1u8
            } else {
                0u8
            })
        }),
{
    let ins = Instruction::Draw { x, y, n };
    let mid = step(pre, ins);
    let post = step(mid, ins);
    let x0 = (pre.v[x as int] % 64) as int;
    let y0 = (pre.v[y as int] % 32) as int;
    let i0 = pre.i as int;
    let gn = n as int;
    assert(!draw_hit(pre.pixels, pre.memory, i0, x0, y0, gn));
    if sprite_visible(pre.memory, i0, x0, y0, gn) {
        let wp = choose|p: int|
            0 <= p < NUM_PIXELS && #[trigger] covered(x0, y0, gn, p) && sprite_bit(
                pre.memory,
                i0,
                x0,
                y0,
                p,
            );
        assert(pre.pixels[wp] != 1);
        assert(mid.pixels[wp] == flip(pre.pixels[wp]));
        assert(mid.pixels[wp] == 1);
        assert(draw_hit(mid.pixels, mid.memory, i0, x0, y0, gn));
    } else {
        if draw_hit(mid.pixels, mid.memory, i0, x0, y0, gn) {
            let wp = choose|p: int|
                0 <= p < NUM_PIXELS && #[trigger] covered(x0, y0, gn, p) && sprite_bit(
                    mid.memory,
                    i0,
                    x0,
                    y0,
                    p,
                ) && mid.pixels[p] == 1;
            assert(sprite_visible(pre.memory, i0, x0, y0, gn));
        }
    }
}

/// Executing any non-faulting instruction preserves well-formedness of the
/// machine state.
pub proof fn lemma_step_wf(pre: MachineView, ins: Instruction)
    requires
        pre.wf(),
        ins.wf(),
        exec_fault(pre, ins) is None,
    ensures
        step(pre, ins).wf(),
{
}

} // verus!
