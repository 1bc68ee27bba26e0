use chip8::chip8::Chip8;

#[test]
fn set_reg_stores_immediate() {
    let mut c = Chip8::new();
    c.decode_and_execute(0x6A02);
    assert_eq!(c.v[0xA], 0x02);
    let mut c2 = Chip8::new();
    c2.decode_and_execute(0x65FF);
    assert_eq!(c2.v[5], 0xFF);
}

#[test]
fn add_immediate_wraps() {
    let mut c = Chip8::new();
    c.v[3] = 250;
    c.decode_and_execute(0x730A);
    assert_eq!(c.v[3], 4);
    assert_eq!(c.v[0xF], 0, "7xkk must not touch the flag register");
}

#[test]
fn add_regs_carry_set() {
    let mut c = Chip8::new();
    c.v[1] = 200;
    c.v[2] = 100;
    c.decode_and_execute(0x8124);
    assert_eq!(c.v[1], 44);
    assert_eq!(c.v[0xF], 1);
}

#[test]
fn add_regs_carry_clear() {
    let mut c = Chip8::new();
    c.v[1] = 255;
    c.v[2] = 0;
    c.decode_and_execute(0x8124);
    assert_eq!(c.v[1], 255);
    assert_eq!(c.v[0xF], 0, "sum of exactly 255 carries nothing");
    c.v[1] = 255;
    c.v[2] = 1;
    c.decode_and_execute(0x8124);
    assert_eq!(c.v[1], 0);
    assert_eq!(c.v[0xF], 1);
}

#[test]
fn add_regs_flag_overwrites_result_register() {
    let mut c = Chip8::new();
    c.v[0xF] = 200;
    c.v[2] = 100;
    c.decode_and_execute(0x8F24);
    assert_eq!(c.v[0xF], 1, "when x is the flag register the flag wins");
}

#[test]
fn sub_regs_no_borrow() {
    let mut c = Chip8::new();
    c.v[1] = 20;
    c.v[2] = 10;
    c.decode_and_execute(0x8125);
    assert_eq!(c.v[1], 10);
    assert_eq!(c.v[0xF], 1);
}

#[test]
fn sub_regs_borrow_wraps() {
    let mut c = Chip8::new();
    c.v[1] = 10;
    c.v[2] = 20;
    c.decode_and_execute(0x8125);
    assert_eq!(c.v[1], 246);
    assert_eq!(c.v[0xF], 0);
}

#[test]
fn sub_regs_equal_operands() {
    let mut c = Chip8::new();
    c.v[1] = 33;
    c.v[2] = 33;
    c.decode_and_execute(0x8125);
    assert_eq!(c.v[1], 0);
    assert_eq!(c.v[0xF], 1, "minuend equal to subtrahend means no borrow");
}

#[test]
fn subn_regs_reversed_operands() {
    let mut c = Chip8::new();
    c.v[1] = 10;
    c.v[2] = 20;
    c.decode_and_execute(0x8127);
    assert_eq!(c.v[1], 10);
    assert_eq!(c.v[0xF], 1);
    let mut c2 = Chip8::new();
    c2.v[1] = 20;
    c2.v[2] = 10;
    c2.decode_and_execute(0x8127);
    assert_eq!(c2.v[1], 246);
    assert_eq!(c2.v[0xF], 0);
}

#[test]
fn shr_flag_takes_bit_zero() {
    let mut c = Chip8::new();
    c.v[4] = 0b1011;
    c.decode_and_execute(0x8406);
    assert_eq!(c.v[4], 0b101);
    assert_eq!(c.v[0xF], 1);
    let mut c2 = Chip8::new();
    c2.v[4] = 4;
    c2.decode_and_execute(0x8406);
    assert_eq!(c2.v[4], 2);
    assert_eq!(c2.v[0xF], 0, "an even value shifts out a zero bit");
}

#[test]
fn shl_flag_takes_bit_seven() {
    let mut c = Chip8::new();
    c.v[4] = 0x81;
    c.decode_and_execute(0x840E);
    assert_eq!(c.v[4], 0x02);
    assert_eq!(c.v[0xF], 1);
    let mut c2 = Chip8::new();
    c2.v[4] = 0x7F;
    c2.decode_and_execute(0x840E);
    assert_eq!(c2.v[4], 0xFE);
    assert_eq!(c2.v[0xF], 0, "a value below 128 shifts out a zero bit");
}

#[test]
fn bitwise_or_and_xor() {
    let mut c = Chip8::new();
    c.v[1] = 0b1100;
    c.v[2] = 0b1010;
    c.decode_and_execute(0x8121);
    assert_eq!(c.v[1], 0b1110);
    c.v[1] = 0b1100;
    c.decode_and_execute(0x8122);
    assert_eq!(c.v[1], 0b1000);
    c.v[1] = 0b1100;
    c.decode_and_execute(0x8123);
    assert_eq!(c.v[1], 0b0110);
    assert_eq!(c.v[2], 0b1010, "the source register is untouched");
}

#[test]
fn load_reg_copies() {
    let mut c = Chip8::new();
    c.v[7] = 99;
    c.decode_and_execute(0x8370);
    assert_eq!(c.v[3], 99);
    assert_eq!(c.v[7], 99);
}

#[test]
fn skip_if_eq_taken_and_not_taken() {
    let mut c = Chip8::new();
    c.v[1] = 5;
    let pc = c.pc;
    c.decode_and_execute(0x3105);
    assert_eq!(c.pc, pc + 2);
    c.decode_and_execute(0x3106);
    assert_eq!(c.pc, pc + 2, "a mismatch skips nothing");
}

#[test]
fn skip_if_not_eq() {
    let mut c = Chip8::new();
    c.v[1] = 5;
    let pc = c.pc;
    c.decode_and_execute(0x4106);
    assert_eq!(c.pc, pc + 2);
    c.decode_and_execute(0x4105);
    assert_eq!(c.pc, pc + 2);
}

#[test]
fn skip_on_register_compare() {
    let mut c = Chip8::new();
    c.v[1] = 5;
    c.v[2] = 5;
    let pc = c.pc;
    c.decode_and_execute(0x5120);
    assert_eq!(c.pc, pc + 2);
    c.decode_and_execute(0x9120);
    assert_eq!(c.pc, pc + 2, "equal registers do not skip on 9xy0");
    c.v[2] = 6;
    c.decode_and_execute(0x9120);
    assert_eq!(c.pc, pc + 4);
}

#[test]
fn set_index_register() {
    let mut c = Chip8::new();
    c.decode_and_execute(0xA123);
    assert_eq!(c.i, 0x123);
}

#[test]
fn jump_sets_pc() {
    let mut c = Chip8::new();
    c.decode_and_execute(0x1ABC);
    assert_eq!(c.pc, 0xABC);
}

#[test]
fn jump_offset_adds_v0() {
    let mut c = Chip8::new();
    c.v[0] = 0x10;
    c.decode_and_execute(0xB300);
    assert_eq!(c.pc, 0x310);
}

#[test]
fn random_masks_with_kk() {
    let mut c = Chip8::new();
    c.decode_and_execute(0xC1FF);
    let drawn = c.v[1];
    c.rng = 0;
    c.decode_and_execute(0xC200);
    assert_eq!(c.v[2], 0, "a zero mask forces a zero result");
    c.rng = 0;
    c.decode_and_execute(0xC30F);
    assert_eq!(c.v[3], drawn & 0x0F);
}

#[test]
fn random_advances_generator() {
    let mut c = Chip8::new();
    let s0 = c.rng;
    c.decode_and_execute(0xC1FF);
    assert_ne!(c.rng, s0);
}

#[test]
fn skip_if_key_pressed() {
    let mut c = Chip8::new();
    c.v[1] = 0xB;
    c.set_key(0xB, true);
    let pc = c.pc;
    c.decode_and_execute(0xE19E);
    assert_eq!(c.pc, pc + 2);
    c.set_key(0xB, false);
    c.decode_and_execute(0xE19E);
    assert_eq!(c.pc, pc + 2);
}

#[test]
fn skip_if_key_not_pressed() {
    let mut c = Chip8::new();
    c.v[1] = 0x3;
    let pc = c.pc;
    c.decode_and_execute(0xE1A1);
    assert_eq!(c.pc, pc + 2);
    c.set_key(0x3, true);
    c.decode_and_execute(0xE1A1);
    assert_eq!(c.pc, pc + 2);
}

#[test]
fn timers_read_and_write() {
    let mut c = Chip8::new();
    c.v[1] = 42;
    c.decode_and_execute(0xF115);
    assert_eq!(c.delay_timer, 42);
    c.decode_and_execute(0xF118);
    assert_eq!(c.sound_timer, 42);
    c.decode_and_execute(0xF207);
    assert_eq!(c.v[2], 42);
}

#[test]
fn tick_timers_saturates_at_zero() {
    let mut c = Chip8::new();
    c.delay_timer = 2;
    c.sound_timer = 1;
    c.tick_timers();
    assert_eq!(c.delay_timer, 1);
    assert_eq!(c.sound_timer, 0);
    c.tick_timers();
    assert_eq!(c.delay_timer, 0);
    assert_eq!(c.sound_timer, 0);
}

#[test]
fn wait_for_key_suspends_then_resolves() {
    let mut c = Chip8::new();
    let pc_before = c.pc;
    c.decode_and_execute(0xF30A);
    assert_eq!(c.awaiting_key, Some(3));
    assert_eq!(c.pc, pc_before, "a key wait must not advance the program counter");
    c.resolve_key(0xC);
    assert_eq!(c.v[3], 0xC);
    assert_eq!(c.awaiting_key, None);
}

#[test]
fn add_index() {
    let mut c = Chip8::new();
    c.i = 0x100;
    c.v[6] = 0x20;
    c.decode_and_execute(0xF61E);
    assert_eq!(c.i, 0x120);
}

#[test]
fn font_glyph_address() {
    let mut c = Chip8::new();
    c.v[2] = 0x07;
    c.decode_and_execute(0xF229);
    assert_eq!(c.i, 0x50 + 5 * 7);
    c.v[2] = 0x1A;
    c.decode_and_execute(0xF229);
    assert_eq!(c.i, 0x50 + 5 * 0xA, "only the low nibble picks the glyph");
}

#[test]
fn store_decimal_digits() {
    let mut c = Chip8::new();
    c.v[9] = 234;
    c.i = 0x300;
    c.decode_and_execute(0xF933);
    assert_eq!(c.memory[0x300], 2);
    assert_eq!(c.memory[0x301], 3);
    assert_eq!(c.memory[0x302], 4);
    c.v[9] = 7;
    c.decode_and_execute(0xF933);
    assert_eq!(c.memory[0x300], 0);
    assert_eq!(c.memory[0x301], 0);
    assert_eq!(c.memory[0x302], 7);
}

#[test]
fn store_and_load_full_register_file() {
    let mut c = Chip8::new();
    for j in 0..16 {
        c.v[j] = (j as u8) * 3 + 1;
    }
    c.i = 0xF00;
    c.decode_and_execute(0xFF55);
    for j in 0..16 {
        c.v[j] = 0;
    }
    c.decode_and_execute(0xFF65);
    for j in 0..16 {
        assert_eq!(c.v[j], (j as u8) * 3 + 1);
    }
}

#[test]
fn store_and_load_register_range() {
    let mut c = Chip8::new();
    for j in 0..6 {
        c.v[j] = 10 + j as u8;
    }
    c.i = 0x400;
    c.decode_and_execute(0xF555);
    for j in 0..6 {
        assert_eq!(c.memory[0x400 + j], 10 + j as u8);
    }
    assert_eq!(c.memory[0x406], 0, "bytes past register x stay untouched");
    for j in 0..6 {
        c.v[j] = 0;
    }
    c.decode_and_execute(0xF565);
    for j in 0..6 {
        assert_eq!(c.v[j], 10 + j as u8);
    }
    assert_eq!(c.i, 0x400, "the index register is not moved by Fx55/Fx65");
}
