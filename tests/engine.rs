use chip8_core::fault::Fault;
use chip8_core::instr::{decode, Instr};
use chip8_core::keymap::map_ch8_key;
use chip8_core::lcg::LCG;
use chip8_core::machine::{C8Emulator, RAM_SIZE, SCREEN_WIDTH, START_ADDR};
use chip8_core::stack::{Stack, STACK_SIZE};

fn with_program(program: &[u8]) -> C8Emulator {
    let mut c8 = C8Emulator::new();
    assert_eq!(Ok(()), c8.load(program));
    c8
}

#[test]
fn stack_returns_pushed_values_in_reverse() {
    let mut stack = Stack::new();
    for v in [1u16, 2, 3, 4] {
        assert_eq!(Ok(()), stack.push(v));
    }
    for v in [4u16, 3, 2, 1] {
        assert_eq!(Ok(v), stack.pop());
    }
    assert_eq!(Err(Fault::StackUnderflow), stack.pop());
}

#[test]
fn full_stack_overflows() {
    let mut stack = Stack::new();
    for v in 0..STACK_SIZE as u16 {
        assert_eq!(Ok(()), stack.push(v));
    }
    assert_eq!(Err(Fault::StackOverflow), stack.push(99));
    assert_eq!(STACK_SIZE, stack.sp());
    assert_eq!(Ok(15), stack.pop());
}

#[test]
fn fetch_advances_pc_by_two() {
    let mut c8 = with_program(&[0xF0, 0x02, 0x12, 0x34]);
    assert_eq!(Ok(0xF002), c8.fetch());
    assert_eq!(0x202, c8.pc);
    assert_eq!(Ok(0x1234), c8.fetch());
    assert_eq!(0x204, c8.pc);
}

#[test]
fn fetch_past_memory_end_faults() {
    let mut c8 = C8Emulator::new();
    c8.pc = (RAM_SIZE - 1) as u16;
    assert_eq!(Err(Fault::PcOutOfRange { pc: 0xFFF }), c8.fetch());
    assert_eq!(0xFFF, c8.pc);
}

#[test]
fn add_with_carry() {
    let mut c8 = with_program(&[0x81, 0x24]);
    c8.v_regs[1] = 0xFF;
    c8.v_regs[2] = 0x01;
    assert_eq!(Ok(()), c8.cpu_cycle());
    assert_eq!(0x00, c8.v_regs[1]);
    assert_eq!(1, c8.v_regs[0xF]);
}

#[test]
fn add_without_carry() {
    let mut c8 = with_program(&[0x81, 0x24]);
    c8.v_regs[1] = 0x10;
    c8.v_regs[2] = 0x20;
    c8.v_regs[0xF] = 7;
    assert_eq!(Ok(()), c8.cpu_cycle());
    assert_eq!(0x30, c8.v_regs[1]);
    assert_eq!(0, c8.v_regs[0xF]);
}

#[test]
fn sub_with_borrow() {
    let mut c8 = with_program(&[0x81, 0x25]);
    c8.v_regs[1] = 0x01;
    c8.v_regs[2] = 0x02;
    assert_eq!(Ok(()), c8.cpu_cycle());
    assert_eq!(0xFF, c8.v_regs[1]);
    assert_eq!(0, c8.v_regs[0xF]);
}

#[test]
fn reverse_sub_without_borrow() {
    let mut c8 = with_program(&[0x81, 0x27]);
    c8.v_regs[1] = 0x01;
    c8.v_regs[2] = 0x05;
    assert_eq!(Ok(()), c8.cpu_cycle());
    assert_eq!(0x04, c8.v_regs[1]);
    assert_eq!(1, c8.v_regs[0xF]);
}

#[test]
fn shifts_set_flag_from_shifted_out_bit() {
    let mut c8 = with_program(&[0x81, 0x06, 0x82, 0x0E]);
    c8.v_regs[1] = 0b1000_0011;
    c8.v_regs[2] = 0b1000_0001;
    assert_eq!(Ok(()), c8.cpu_cycle());
    assert_eq!(0b0100_0001, c8.v_regs[1]);
    assert_eq!(1, c8.v_regs[0xF]);
    assert_eq!(Ok(()), c8.cpu_cycle());
    assert_eq!(0b0000_0010, c8.v_regs[2]);
    assert_eq!(1, c8.v_regs[0xF]);
}

#[test]
fn add_immediate_wraps_without_flag() {
    let mut c8 = with_program(&[0x73, 0x10]);
    c8.v_regs[3] = 0xF8;
    assert_eq!(Ok(()), c8.cpu_cycle());
    assert_eq!(0x08, c8.v_regs[3]);
    assert_eq!(0, c8.v_regs[0xF]);
}

#[test]
fn bcd_of_zero_and_max() {
    let mut c8 = with_program(&[0xF0, 0x33, 0xF1, 0x33]);
    c8.i_reg = 0x300;
    c8.v_regs[1] = 255;
    assert_eq!(Ok(()), c8.cpu_cycle());
    assert_eq!(&[0, 0, 0], &c8.ram[0x300..0x303]);
    assert_eq!(Ok(()), c8.cpu_cycle());
    assert_eq!(&[2, 5, 5], &c8.ram[0x300..0x303]);
}

#[test]
fn bcd_past_memory_end_faults() {
    let mut c8 = with_program(&[0xF0, 0x33]);
    c8.i_reg = 0xFFE;
    assert_eq!(
        Err(Fault::MemoryOutOfRange { addr: 0xFFE, len: 3 }),
        c8.cpu_cycle()
    );
    assert_eq!(0x202, c8.pc);
}

#[test]
fn draw_twice_collides_and_keeps_pixels_on() {
    // V0 = 62, V1 = 31, I = glyph of digit 0, draw 5 rows twice
    let mut c8 = with_program(&[0x60, 62, 0x61, 31, 0xA0, 0x00, 0xD0, 0x15, 0xD0, 0x15]);
    for _ in 0..4 {
        assert_eq!(Ok(()), c8.cpu_cycle());
    }
    assert_eq!(0, c8.v_regs[0xF]);
    let first: Vec<bool> = c8.get_screen().to_vec();
    // the top row 0xF0 wraps: columns 62, 63, 0, 1 of row 31
    assert!(first[62 + SCREEN_WIDTH * 31]);
    assert!(first[63 + SCREEN_WIDTH * 31]);
    assert!(first[0 + SCREEN_WIDTH * 31]);
    assert!(first[1 + SCREEN_WIDTH * 31]);
    assert!(!first[2 + SCREEN_WIDTH * 31]);
    // the second row 0x90 wraps to row 0
    assert!(first[62]);
    assert!(!first[63]);
    assert!(first[1]);
    assert_eq!(14, first.iter().filter(|p| **p).count());

    assert_eq!(Ok(()), c8.cpu_cycle());
    assert_eq!(1, c8.v_regs[0xF]);
    assert_eq!(first, c8.get_screen().to_vec());
}

#[test]
fn clear_screen_then_draw_has_no_collision() {
    let mut c8 = with_program(&[0xD0, 0x15, 0x00, 0xE0, 0xD0, 0x15]);
    assert_eq!(Ok(()), c8.cpu_cycle());
    assert_eq!(Ok(()), c8.cpu_cycle());
    assert!(c8.get_screen().iter().all(|p| !*p));
    assert_eq!(Ok(()), c8.cpu_cycle());
    assert_eq!(0, c8.v_regs[0xF]);
}

#[test]
fn draw_past_memory_end_faults() {
    let mut c8 = with_program(&[0xD0, 0x15]);
    c8.i_reg = 0xFFC;
    assert_eq!(
        Err(Fault::MemoryOutOfRange { addr: 0xFFC, len: 5 }),
        c8.cpu_cycle()
    );
    assert!(c8.get_screen().iter().all(|p| !*p));
}

#[test]
fn skip_changes_only_pc() {
    let mut c8 = with_program(&[0x34, 0x07]);
    c8.v_regs[4] = 7;
    c8.i_reg = 0x123;
    let regs = c8.v_regs;
    let ram = c8.ram;
    assert_eq!(Ok(()), c8.cpu_cycle());
    assert_eq!(0x204, c8.pc);
    assert_eq!(regs, c8.v_regs);
    assert_eq!(ram, c8.ram);
    assert_eq!(0x123, c8.i_reg);
    assert_eq!(0, c8.stack.sp());
}

#[test]
fn skip_not_taken() {
    let mut c8 = with_program(&[0x44, 0x07, 0x54, 0x50, 0x94, 0x50]);
    c8.v_regs[4] = 7;
    c8.v_regs[5] = 7;
    assert_eq!(Ok(()), c8.cpu_cycle());
    assert_eq!(0x202, c8.pc);
    assert_eq!(Ok(()), c8.cpu_cycle());
    assert_eq!(0x206, c8.pc);
}

#[test]
fn jump_with_offset() {
    let mut c8 = with_program(&[0xB3, 0x00]);
    c8.v_regs[0] = 0x10;
    assert_eq!(Ok(()), c8.cpu_cycle());
    assert_eq!(0x310, c8.pc);
}

#[test]
fn call_and_return() {
    let mut c8 = with_program(&[0x23, 0x00]);
    c8.ram[0x300] = 0x00;
    c8.ram[0x301] = 0xEE;
    assert_eq!(Ok(()), c8.cpu_cycle());
    assert_eq!(0x300, c8.pc);
    assert_eq!(1, c8.stack.sp());
    assert_eq!(Ok(()), c8.cpu_cycle());
    assert_eq!(0x202, c8.pc);
    assert_eq!(0, c8.stack.sp());
}

#[test]
fn return_with_empty_stack_faults() {
    let mut c8 = with_program(&[0x00, 0xEE]);
    assert_eq!(Err(Fault::StackUnderflow), c8.cpu_cycle());
}

#[test]
fn deep_calls_overflow() {
    // a subroutine at 0x200 that calls itself
    let mut c8 = with_program(&[0x22, 0x00]);
    for _ in 0..STACK_SIZE {
        assert_eq!(Ok(()), c8.cpu_cycle());
    }
    assert_eq!(Err(Fault::StackOverflow), c8.cpu_cycle());
}

#[test]
fn key_wait_polls_until_pressed() {
    let mut c8 = with_program(&[0xF3, 0x0A]);
    assert_eq!(Ok(()), c8.cpu_cycle());
    assert_eq!(0x200, c8.pc);
    assert_eq!(Ok(()), c8.cpu_cycle());
    assert_eq!(0x200, c8.pc);
    assert_eq!(Ok(()), c8.press_key(0xB, true));
    assert_eq!(Ok(()), c8.press_key(0x9, true));
    assert_eq!(Ok(()), c8.cpu_cycle());
    assert_eq!(0x202, c8.pc);
    assert_eq!(0x9, c8.v_regs[3]);
}

#[test]
fn skip_on_key() {
    let mut c8 = with_program(&[0xE2, 0x9E, 0, 0, 0xE2, 0xA1]);
    c8.v_regs[2] = 0xA;
    assert_eq!(Ok(()), c8.press_key(0xA, true));
    assert_eq!(Ok(()), c8.cpu_cycle());
    assert_eq!(0x204, c8.pc);
    assert_eq!(Ok(()), c8.cpu_cycle());
    assert_eq!(0x206, c8.pc);
}

#[test]
fn skip_on_key_out_of_range_faults() {
    let mut c8 = with_program(&[0xE2, 0x9E]);
    c8.v_regs[2] = 0x10;
    assert_eq!(Err(Fault::KeyOutOfRange { index: 0x10 }), c8.cpu_cycle());
}

#[test]
fn press_key_out_of_range_faults() {
    let mut c8 = C8Emulator::new();
    assert_eq!(Err(Fault::KeyOutOfRange { index: 16 }), c8.press_key(16, true));
    assert!(c8.keys.iter().all(|k| !*k));
}

#[test]
fn unknown_opcode_faults() {
    let mut c8 = with_program(&[0x51, 0x21]);
    assert_eq!(Err(Fault::Unimplemented { opcode: 0x5121 }), c8.cpu_cycle());
    let mut c8 = C8Emulator::new();
    assert_eq!(Err(Fault::Unimplemented { opcode: 0xFFFF }), c8.decode_and_execute(0xFFFF));
}

#[test]
fn load_too_large_image_faults() {
    let mut c8 = C8Emulator::new();
    let image = vec![1u8; RAM_SIZE - START_ADDR + 1];
    assert_eq!(Err(Fault::ImageTooLarge { len: RAM_SIZE - START_ADDR + 1 }), c8.load(&image));
    assert_eq!(0, c8.ram[START_ADDR]);
    let image = vec![1u8; RAM_SIZE - START_ADDR];
    assert_eq!(Ok(()), c8.load(&image));
    assert_eq!(1, c8.ram[RAM_SIZE - 1]);
}

#[test]
fn timers_count_down_to_zero() {
    let mut c8 = with_program(&[0x60, 0x02, 0xF0, 0x15, 0x61, 0x01, 0xF1, 0x18, 0xF5, 0x07]);
    for _ in 0..4 {
        assert_eq!(Ok(()), c8.cpu_cycle());
    }
    assert_eq!((2, 1), (c8.delay_t, c8.sound_t));
    c8.frame_cycle();
    assert_eq!((1, 0), (c8.delay_t, c8.sound_t));
    assert_eq!(Ok(()), c8.cpu_cycle());
    assert_eq!(1, c8.v_regs[5]);
    c8.frame_cycle();
    c8.frame_cycle();
    assert_eq!((0, 0), (c8.delay_t, c8.sound_t));
}

#[test]
fn index_register_instructions() {
    let mut c8 = with_program(&[0xAF, 0xFE, 0xF1, 0x1E, 0xF2, 0x29]);
    c8.v_regs[1] = 0x03;
    c8.v_regs[2] = 0x0B;
    assert_eq!(Ok(()), c8.cpu_cycle());
    assert_eq!(0xFFE, c8.i_reg);
    assert_eq!(Ok(()), c8.cpu_cycle());
    assert_eq!(0x1001, c8.i_reg);
    assert_eq!(Ok(()), c8.cpu_cycle());
    assert_eq!(55, c8.i_reg);
}

#[test]
fn store_and_load_registers() {
    let mut c8 = with_program(&[0xF2, 0x55, 0xF3, 0x65]);
    c8.i_reg = 0x400;
    c8.v_regs[0] = 1;
    c8.v_regs[1] = 2;
    c8.v_regs[2] = 3;
    c8.v_regs[3] = 4;
    assert_eq!(Ok(()), c8.cpu_cycle());
    assert_eq!(&[1, 2, 3, 0], &c8.ram[0x400..0x404]);
    c8.v_regs = [9; 16];
    assert_eq!(Ok(()), c8.cpu_cycle());
    assert_eq!(&[1, 2, 3, 0, 9], &c8.v_regs[0..5]);
}

#[test]
fn logic_and_move() {
    let mut c8 = with_program(&[0x81, 0x21, 0x83, 0x22, 0x84, 0x23, 0x85, 0x20]);
    c8.v_regs[1] = 0b1100;
    c8.v_regs[2] = 0b1010;
    c8.v_regs[3] = 0b1100;
    c8.v_regs[4] = 0b1100;
    for _ in 0..4 {
        assert_eq!(Ok(()), c8.cpu_cycle());
    }
    assert_eq!(0b1110, c8.v_regs[1]);
    assert_eq!(0b1000, c8.v_regs[3]);
    assert_eq!(0b0110, c8.v_regs[4]);
    assert_eq!(0b1010, c8.v_regs[5]);
}

#[test]
fn random_byte_is_reproducible_after_reset() {
    let mut c8 = with_program(&[0xC0, 0xFF, 0xC1, 0x0F]);
    assert_eq!(Ok(()), c8.cpu_cycle());
    assert_eq!(Ok(()), c8.cpu_cycle());
    let (a, b) = (c8.v_regs[0], c8.v_regs[1]);
    assert_eq!(198, a);
    assert_eq!(b & 0xF0, 0);
    c8.reset();
    assert_eq!(Ok(()), c8.load(&[0xC0, 0xFF, 0xC1, 0x0F]));
    assert_eq!(Ok(()), c8.cpu_cycle());
    assert_eq!(Ok(()), c8.cpu_cycle());
    assert_eq!((a, b), (c8.v_regs[0], c8.v_regs[1]));
}

#[test]
fn lcg_first_values() {
    let mut g = LCG::new(1);
    assert_eq!(16838, g.rand());
    g.s_rand(1);
    assert_eq!(198, g.rand_u8());
}

#[test]
fn reset_restores_everything() {
    let mut c8 = with_program(&[0x60, 0x05, 0xD0, 0x05, 0x22, 0x00]);
    c8.delay_t = 3;
    assert_eq!(Ok(()), c8.press_key(3, true));
    for _ in 0..3 {
        assert_eq!(Ok(()), c8.cpu_cycle());
    }
    c8.reset();
    let fresh = C8Emulator::new();
    assert_eq!(fresh.pc, c8.pc);
    assert_eq!(fresh.ram, c8.ram);
    assert_eq!(fresh.v_regs, c8.v_regs);
    assert_eq!(fresh.i_reg, c8.i_reg);
    assert_eq!((fresh.delay_t, fresh.sound_t), (c8.delay_t, c8.sound_t));
    assert_eq!(fresh.screen, c8.screen);
    assert_eq!(fresh.keys, c8.keys);
    assert_eq!(0, c8.stack.sp());
}

#[test]
fn decode_table() {
    assert_eq!(Some(Instr::Nop), decode(0x0000));
    assert_eq!(Some(Instr::ClearScreen), decode(0x00E0));
    assert_eq!(None, decode(0x0123));
    assert_eq!(Some(Instr::Draw { x: 0xD, y: 0xD, n: 0xD }), decode(0xDDDD));
    assert_eq!(Some(Instr::ShiftRight { x: 3 }), decode(0x83A6));
    assert_eq!(Some(Instr::SkipNoKey { x: 7 }), decode(0xE7A1));
    assert_eq!(Some(Instr::LoadRegs { x: 0xC }), decode(0xFC65));
    assert_eq!(None, decode(0xF0FF));
}

#[test]
fn key_mapping() {
    assert_eq!(Some(0x1), map_ch8_key('1'));
    assert_eq!(Some(0xC), map_ch8_key('4'));
    assert_eq!(Some(0x0), map_ch8_key('x'));
    assert_eq!(Some(0xF), map_ch8_key('v'));
    assert_eq!(None, map_ch8_key('p'));
}
