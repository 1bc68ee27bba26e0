use chip8::chip8::Chip8;
use chip8::model::Fault;

const GLYPH_ZERO: [u8; 5] = [0xF0, 0x90, 0x90, 0x90, 0xF0];

fn pixel(c: &Chip8, row: usize, col: usize) -> u8 {
    c.pixels[row * 64 + col]
}

#[test]
fn new_machine_is_zeroed_at_entry_point() {
    let c = Chip8::new();
    assert_eq!(c.pc, 0x200);
    assert_eq!(c.i, 0);
    assert_eq!(c.stack_pointer, 0);
    assert!(c.memory.iter().all(|&b| b == 0));
    assert!(c.v.iter().all(|&b| b == 0));
    assert!(c.pixels.iter().all(|&b| b == 0));
    assert!(c.keypad.iter().all(|&k| !k));
    assert_eq!(c.awaiting_key, None);
}

#[test]
fn load_bytes_places_image() {
    let mut c = Chip8::new();
    c.load_bytes(0x200, &vec![0xDE, 0xAD, 0xBE, 0xEF]);
    assert_eq!(c.memory[0x200], 0xDE);
    assert_eq!(c.memory[0x203], 0xEF);
    assert_eq!(c.memory[0x1FF], 0);
    assert_eq!(c.memory[0x204], 0);
}

#[test]
fn fetch_combines_big_endian_and_advances() {
    let mut c = Chip8::new();
    c.load_bytes(0x200, &vec![0x12, 0x34]);
    let op = c.fetch();
    assert_eq!(op, 0x1234);
    assert_eq!(c.pc, 0x202);
}

#[test]
fn two_cycles_set_then_add() {
    let mut c = Chip8::new();
    c.load_bytes(0x200, &vec![0x6A, 0x02, 0x7A, 0x03]);
    for _ in 0..2 {
        let op = c.fetch();
        assert_eq!(c.check_instruction(op), None);
        c.decode_and_execute(op);
    }
    assert_eq!(c.v[0xA], 5);
    assert_eq!(c.pc, 0x204);
}

#[test]
fn draw_glyph_zero_at_origin() {
    let mut c = Chip8::new();
    c.load_bytes(0x50, &GLYPH_ZERO.to_vec());
    c.i = 0x50;
    c.v[0] = 0;
    c.decode_and_execute(0xD005);
    assert_eq!(c.v[0xF], 0, "drawing on a blank screen collides with nothing");
    for row in 0..5 {
        for col in 0..8 {
            let expected = (GLYPH_ZERO[row] >> (7 - col)) & 1;
            assert_eq!(pixel(&c, row, col), expected);
        }
    }
    assert_eq!(pixel(&c, 5, 0), 0);
    assert_eq!(pixel(&c, 0, 8), 0);
}

#[test]
fn draw_twice_restores_blank_screen() {
    let mut c = Chip8::new();
    c.load_bytes(0x50, &GLYPH_ZERO.to_vec());
    c.i = 0x50;
    c.decode_and_execute(0xD005);
    assert_eq!(c.v[0xF], 0);
    c.decode_and_execute(0xD005);
    assert!(c.pixels.iter().all(|&b| b == 0));
    assert_eq!(c.v[0xF], 1, "erasing its own pixels is a collision");
}

#[test]
fn draw_coordinates_wrap_modulo_screen() {
    let mut c = Chip8::new();
    c.load_bytes(0x300, &vec![0x80]);
    c.i = 0x300;
    c.v[1] = 64 + 4;
    c.v[2] = 32 + 3;
    c.decode_and_execute(0xD121);
    assert_eq!(pixel(&c, 3, 4), 1);
}

#[test]
fn draw_clips_at_right_edge() {
    let mut c = Chip8::new();
    c.load_bytes(0x300, &vec![0xFF]);
    c.i = 0x300;
    c.v[1] = 60;
    c.v[2] = 0;
    c.decode_and_execute(0xD121);
    for col in 60..64 {
        assert_eq!(pixel(&c, 0, col), 1);
    }
    for col in 0..4 {
        assert_eq!(pixel(&c, 0, col), 0, "clipped columns must not wrap around");
    }
}

#[test]
fn draw_clips_at_bottom_edge() {
    let mut c = Chip8::new();
    c.load_bytes(0x300, &vec![0x80, 0x80, 0x80, 0x80]);
    c.i = 0x300;
    c.v[1] = 0;
    c.v[2] = 30;
    c.decode_and_execute(0xD124);
    assert_eq!(pixel(&c, 30, 0), 1);
    assert_eq!(pixel(&c, 31, 0), 1);
    assert_eq!(pixel(&c, 0, 0), 0, "clipped rows must not wrap around");
    assert_eq!(pixel(&c, 1, 0), 0);
}

#[test]
fn draw_collision_on_overlap() {
    let mut c = Chip8::new();
    c.load_bytes(0x300, &vec![0xC0]);
    c.load_bytes(0x310, &vec![0x80]);
    c.i = 0x300;
    c.decode_and_execute(0xD011);
    assert_eq!(c.v[0xF], 0);
    c.i = 0x310;
    c.decode_and_execute(0xD011);
    assert_eq!(c.v[0xF], 1);
    assert_eq!(pixel(&c, 0, 0), 0, "the overlapped cell toggles off");
    assert_eq!(pixel(&c, 0, 1), 1, "cells the second sprite does not touch stay on");
}

#[test]
fn draw_tallest_sprite() {
    let mut c = Chip8::new();
    c.load_bytes(0x300, &vec![0x80; 15]);
    c.i = 0x300;
    c.v[1] = 7;
    c.v[2] = 2;
    c.decode_and_execute(0xD12F);
    assert_eq!(c.v[0xF], 0);
    for row in 2..17 {
        assert_eq!(pixel(&c, row, 7), 1);
    }
    assert_eq!(pixel(&c, 1, 7), 0);
    assert_eq!(pixel(&c, 17, 7), 0);
}

#[test]
fn clear_screen_turns_everything_off() {
    let mut c = Chip8::new();
    c.load_bytes(0x50, &GLYPH_ZERO.to_vec());
    c.i = 0x50;
    c.decode_and_execute(0xD005);
    assert!(c.pixels.iter().any(|&b| b == 1));
    c.decode_and_execute(0x00E0);
    assert!(c.pixels.iter().all(|&b| b == 0));
}

#[test]
fn call_then_return_resumes_after_call() {
    let mut c = Chip8::new();
    c.load_bytes(0x200, &vec![0x23, 0x00]);
    c.load_bytes(0x300, &vec![0x00, 0xEE]);
    let op = c.fetch();
    assert_eq!(op, 0x2300);
    c.decode_and_execute(op);
    assert_eq!(c.pc, 0x300);
    assert_eq!(c.stack_pointer, 1);
    let op = c.fetch();
    assert_eq!(op, 0x00EE);
    c.decode_and_execute(op);
    assert_eq!(c.pc, 0x202, "return lands on the instruction after the call");
    assert_eq!(c.stack_pointer, 0);
}

#[test]
fn nested_calls_unwind_in_order() {
    let mut c = Chip8::new();
    c.pc = 0x202;
    c.decode_and_execute(0x2300);
    c.pc = 0x302;
    c.decode_and_execute(0x2400);
    assert_eq!(c.stack_pointer, 2);
    c.decode_and_execute(0x00EE);
    assert_eq!(c.pc, 0x302);
    c.decode_and_execute(0x00EE);
    assert_eq!(c.pc, 0x202);
}

#[test]
fn decode_error_is_reported() {
    let c = Chip8::new();
    assert_eq!(c.check_instruction(0x0000), Some(Fault::DecodeError));
    assert_eq!(c.check_instruction(0xFFFF), Some(Fault::DecodeError));
    assert_eq!(c.check_instruction(0x5121), Some(Fault::DecodeError));
    assert_eq!(c.check_instruction(0x9121), Some(Fault::DecodeError));
    assert_eq!(c.check_instruction(0x8128), Some(Fault::DecodeError));
    assert_eq!(c.check_instruction(0xE19F), Some(Fault::DecodeError));
    assert_eq!(c.check_instruction(0xF102), Some(Fault::DecodeError));
    assert_eq!(c.check_instruction(0x00E1), Some(Fault::DecodeError));
}

#[test]
fn stack_underflow_and_overflow_are_reported() {
    let mut c = Chip8::new();
    assert_eq!(c.check_instruction(0x00EE), Some(Fault::StackUnderflow));
    for _ in 0..16 {
        assert_eq!(c.check_instruction(0x2300), None);
        c.decode_and_execute(0x2300);
    }
    assert_eq!(c.stack_pointer, 16);
    assert_eq!(c.check_instruction(0x2300), Some(Fault::StackOverflow));
    assert_eq!(c.check_instruction(0x00EE), None);
}

#[test]
fn out_of_bounds_accesses_are_reported() {
    let mut c = Chip8::new();
    c.i = 4095;
    assert_eq!(c.check_instruction(0xD012), Some(Fault::OutOfBoundsAccess));
    assert_eq!(c.check_instruction(0xD011), None);
    assert_eq!(c.check_instruction(0xF133), Some(Fault::OutOfBoundsAccess));
    assert_eq!(c.check_instruction(0xF155), Some(Fault::OutOfBoundsAccess));
    assert_eq!(c.check_instruction(0xF065), None);
    c.i = 0xFFFF;
    c.v[1] = 1;
    assert_eq!(c.check_instruction(0xF11E), Some(Fault::OutOfBoundsAccess));
    c.v[1] = 0;
    assert_eq!(c.check_instruction(0xF11E), None);
    c.v[2] = 16;
    assert_eq!(c.check_instruction(0xE29E), Some(Fault::OutOfBoundsAccess));
    assert_eq!(c.check_instruction(0xE2A1), Some(Fault::OutOfBoundsAccess));
}

#[test]
fn fetch_bounds_are_reported() {
    let mut c = Chip8::new();
    assert_eq!(c.check_fetch(), None);
    c.pc = 4095;
    assert_eq!(c.check_fetch(), Some(Fault::OutOfBoundsAccess));
    c.pc = 4094;
    assert_eq!(c.check_fetch(), None);
}

#[test]
fn skip_at_pc_limit_is_reported() {
    let mut c = Chip8::new();
    c.pc = 0xFFFE;
    c.v[1] = 5;
    assert_eq!(c.check_instruction(0x3105), Some(Fault::OutOfBoundsAccess));
    assert_eq!(c.check_instruction(0x3106), None, "an untaken skip never moves the counter");
}
