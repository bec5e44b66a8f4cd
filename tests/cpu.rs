use chip8::instruction::Instruction;
use chip8::machine::{init, Chip8, Chip8Error};
use chip8::render::{pixel_squares, Square};

const FONT: [u8; 80] = [
    0xF0, 0x90, 0x90, 0x90, 0xF0, 0x20, 0x60, 0x20, 0x20, 0x70, 0xF0, 0x10, 0xF0, 0x80, 0xF0,
    0xF0, 0x10, 0xF0, 0x10, 0xF0, 0x90, 0x90, 0xF0, 0x10, 0x10, 0xF0, 0x80, 0xF0, 0x10, 0xF0,
    0xF0, 0x80, 0xF0, 0x90, 0xF0, 0xF0, 0x10, 0x20, 0x40, 0x40, 0xF0, 0x90, 0xF0, 0x90, 0xF0,
    0xF0, 0x90, 0xF0, 0x10, 0xF0, 0xF0, 0x90, 0xF0, 0x90, 0x90, 0xE0, 0x90, 0xE0, 0x90, 0xE0,
    0xF0, 0x80, 0x80, 0x80, 0xF0, 0xE0, 0x90, 0x90, 0x90, 0xE0, 0xF0, 0x80, 0xF0, 0x80, 0xF0,
    0xF0, 0x80, 0xF0, 0x80, 0x80,
];

fn machine(program: &[u8]) -> Chip8 {
    init(&FONT, program.to_vec()).unwrap()
}

fn run(m: &mut Chip8, cycles: usize) {
    for _ in 0..cycles {
        m.cycle_with(0).unwrap();
    }
}

fn lit_count(m: &Chip8) -> usize {
    m.display().iter().filter(|p| **p).count()
}

#[test]
fn init_loads_font_and_program() {
    let m = machine(&[0x12, 0x34, 0x56]);
    assert_eq!(m.pc(), 0x200);
    assert_eq!(m.memory(0), 0xF0);
    assert_eq!(m.memory(79), 0x80);
    assert_eq!(m.memory(80), 0);
    assert_eq!(m.memory(0x200), 0x12);
    assert_eq!(m.memory(0x202), 0x56);
    assert_eq!(m.memory(0x203), 0);
    assert_eq!(m.fetch(), 0x1234);
    assert_eq!(m.index(), 0);
    assert_eq!(m.sp(), 0);
    assert_eq!(m.delay_timer(), 0);
    assert_eq!(m.sound_timer(), 0);
    for i in 0..16 {
        assert_eq!(m.reg(i), 0);
        assert!(!m.key(i));
    }
    assert_eq!(lit_count(&m), 0);
}

#[test]
fn init_accepts_the_largest_program() {
    let mut program = vec![0u8; 3584];
    program[3583] = 0xAB;
    let m = init(&FONT, program).unwrap();
    assert_eq!(m.memory(4095), 0xAB);
}

#[test]
fn init_rejects_a_program_too_large() {
    let r = init(&FONT, vec![0u8; 3585]);
    assert!(matches!(r, Err(Chip8Error::ProgramTooLarge)));
}

#[test]
fn add_sets_carry_on_overflow() {
    let mut m = machine(&[0x61, 0xFF, 0x62, 0x01, 0x81, 0x24]);
    run(&mut m, 3);
    assert_eq!(m.reg(1), 0x00);
    assert_eq!(m.reg(0xF), 1);

    let mut m = machine(&[0x61, 0x01, 0x62, 0x01, 0x81, 0x24]);
    run(&mut m, 3);
    assert_eq!(m.reg(1), 0x02);
    assert_eq!(m.reg(0xF), 0);
}

#[test]
fn sub_sets_borrow() {
    let mut m = machine(&[0x61, 0x01, 0x62, 0x02, 0x81, 0x25]);
    run(&mut m, 3);
    assert_eq!(m.reg(1), 0xFF);
    assert_eq!(m.reg(0xF), 1);

    let mut m = machine(&[0x61, 0x02, 0x62, 0x01, 0x81, 0x25]);
    run(&mut m, 3);
    assert_eq!(m.reg(1), 0x01);
    assert_eq!(m.reg(0xF), 0);
}

#[test]
fn reverse_sub_and_shifts() {
    // V1 = 3, V2 = 5, V1 = V2 - V1
    let mut m = machine(&[0x61, 0x03, 0x62, 0x05, 0x81, 0x27]);
    run(&mut m, 3);
    assert_eq!(m.reg(1), 2);
    assert_eq!(m.reg(0xF), 0);

    let mut m = machine(&[0x61, 0x05, 0x62, 0x03, 0x81, 0x27]);
    run(&mut m, 3);
    assert_eq!(m.reg(1), 0xFE);
    assert_eq!(m.reg(0xF), 1);

    let mut m = machine(&[0x61, 0x81, 0x81, 0x06]);
    run(&mut m, 2);
    assert_eq!(m.reg(1), 0x40);
    assert_eq!(m.reg(0xF), 1);

    let mut m = machine(&[0x61, 0x81, 0x81, 0x0E]);
    run(&mut m, 2);
    assert_eq!(m.reg(1), 0x02);
    assert_eq!(m.reg(0xF), 1);

    let mut m = machine(&[0x61, 0x40, 0x81, 0x0E]);
    run(&mut m, 2);
    assert_eq!(m.reg(1), 0x80);
    assert_eq!(m.reg(0xF), 0);
}

#[test]
fn flag_register_as_destination_keeps_the_flag() {
    // VF = 0xFF, V1 = 1, VF += V1: the carry wins over the sum
    let mut m = machine(&[0x6F, 0xFF, 0x61, 0x01, 0x8F, 0x14]);
    run(&mut m, 3);
    assert_eq!(m.reg(0xF), 1);
}

#[test]
fn bitwise_and_moves() {
    let mut m = machine(&[
        0x61, 0b1100, 0x62, 0b1010, 0x83, 0x10, 0x83, 0x21, 0x84, 0x10, 0x84, 0x22, 0x85,
        0x10, 0x85, 0x23,
    ]);
    run(&mut m, 8);
    assert_eq!(m.reg(3), 0b1110);
    assert_eq!(m.reg(4), 0b1000);
    assert_eq!(m.reg(5), 0b0110);
}

#[test]
fn add_immediate_wraps_without_flag() {
    let mut m = machine(&[0x6F, 0x07, 0x61, 0xF0, 0x71, 0x20]);
    run(&mut m, 3);
    assert_eq!(m.reg(1), 0x10);
    assert_eq!(m.reg(0xF), 0x07);
}

#[test]
fn clear_screen_darkens_every_pixel() {
    // draw the font glyph for 0 at (0, 0), then clear
    let mut m = machine(&[0xA0, 0x00, 0xD0, 0x05, 0x00, 0xE0]);
    run(&mut m, 2);
    assert!(lit_count(&m) > 0);
    let r = m.cycle_with(0).unwrap();
    assert_eq!(r.instruction, Instruction::ClearScreen);
    assert!(r.redraw);
    assert_eq!(lit_count(&m), 0);
}

#[test]
fn drawing_twice_erases_and_collides() {
    let mut m = machine(&[
        0x60, 0x00, 0x61, 0x00, 0xA2, 0x0A, 0xD0, 0x11, 0xD0, 0x11, 0xFF,
    ]);
    run(&mut m, 3);
    let r = m.cycle_with(0).unwrap();
    assert!(r.redraw);
    for x in 0..8 {
        assert!(m.pixel(x, 0));
    }
    assert!(!m.pixel(8, 0));
    assert_eq!(m.reg(0xF), 0);
    m.cycle_with(0).unwrap();
    for x in 0..8 {
        assert!(!m.pixel(x, 0));
    }
    assert_eq!(m.reg(0xF), 1);
    assert_eq!(lit_count(&m), 0);
}

#[test]
fn drawing_wraps_at_the_edges() {
    // V0 = 62, V1 = 31, sprite 0xFF twice (2 rows)
    let mut m = machine(&[0x60, 62, 0x61, 31, 0xA2, 0x0A, 0xD0, 0x12, 0x12, 0x08, 0xFF, 0xFF]);
    run(&mut m, 4);
    for x in [62u8, 63, 0, 1, 2, 3, 4, 5] {
        assert!(m.pixel(x, 31));
        assert!(m.pixel(x, 0));
    }
    assert!(!m.pixel(6, 0));
    assert!(!m.pixel(61, 31));
    assert_eq!(lit_count(&m), 16);
}

#[test]
fn wait_key_blocks_until_a_key_is_down() {
    let mut m = machine(&[0xF3, 0x0A]);
    m.cycle_with(0).unwrap();
    assert_eq!(m.pc(), 0x200);
    m.cycle_with(0).unwrap();
    assert_eq!(m.pc(), 0x200);
    m.set_key(9, true);
    m.set_key(5, true);
    assert!(m.key(5));
    m.cycle_with(0).unwrap();
    assert_eq!(m.reg(3), 5);
    assert_eq!(m.pc(), 0x202);
}

#[test]
fn wait_key_keeps_timers_running() {
    // V0 = 3, delay = V0, then wait
    let mut m = machine(&[0x60, 0x03, 0xF0, 0x15, 0xF1, 0x0A]);
    run(&mut m, 2);
    assert_eq!(m.delay_timer(), 2);
    run(&mut m, 3);
    assert_eq!(m.pc(), 0x204);
    assert_eq!(m.delay_timer(), 0);
}

#[test]
fn delay_timer_counts_down_to_zero() {
    let mut m = machine(&[0x60, 0x02, 0xF0, 0x15, 0x12, 0x04]);
    run(&mut m, 2);
    assert_eq!(m.delay_timer(), 1);
    run(&mut m, 1);
    assert_eq!(m.delay_timer(), 0);
    run(&mut m, 5);
    assert_eq!(m.delay_timer(), 0);
}

#[test]
fn read_delay_timer() {
    let mut m = machine(&[0x60, 0x09, 0xF0, 0x15, 0xF1, 0x07]);
    run(&mut m, 3);
    assert_eq!(m.reg(1), 8);
}

#[test]
fn sound_timer_beeps_when_it_runs_out() {
    let mut m = machine(&[0x60, 0x02, 0xF0, 0x18, 0x12, 0x04]);
    run(&mut m, 1);
    let r = m.cycle_with(0).unwrap();
    assert!(!r.beep);
    assert_eq!(m.sound_timer(), 1);
    let r = m.cycle_with(0).unwrap();
    assert!(r.beep);
    assert_eq!(m.sound_timer(), 0);
    let r = m.cycle_with(0).unwrap();
    assert!(!r.beep);
    assert_eq!(m.sound_timer(), 0);
}

#[test]
fn store_and_load_registers_round_trip() {
    let mut m = machine(&[
        0x60, 0x11, 0x61, 0x22, 0x62, 0x33, 0x63, 0x44, 0x64, 0x55, 0xA3, 0x00, 0xF3, 0x55,
        0x60, 0x00, 0x61, 0x00, 0x62, 0x00, 0x63, 0x00, 0xF3, 0x65,
    ]);
    run(&mut m, 7);
    assert_eq!(m.memory(0x300), 0x11);
    assert_eq!(m.memory(0x303), 0x44);
    assert_eq!(m.memory(0x304), 0x00);
    assert_eq!(m.index(), 0x300);
    run(&mut m, 4);
    assert_eq!(m.reg(0), 0);
    run(&mut m, 1);
    assert_eq!(m.reg(0), 0x11);
    assert_eq!(m.reg(1), 0x22);
    assert_eq!(m.reg(2), 0x33);
    assert_eq!(m.reg(3), 0x44);
    assert_eq!(m.reg(4), 0x55);
}

#[test]
fn bcd_writes_hundreds_tens_ones() {
    let mut m = machine(&[0x60, 254, 0xA3, 0x00, 0xF0, 0x33]);
    run(&mut m, 3);
    assert_eq!(m.memory(0x300), 2);
    assert_eq!(m.memory(0x301), 5);
    assert_eq!(m.memory(0x302), 4);
}

#[test]
fn font_address_and_index_add() {
    let mut m = machine(&[0x60, 0x0A, 0xF0, 0x29]);
    run(&mut m, 2);
    assert_eq!(m.index(), 50);

    let mut m = machine(&[0x60, 0x10, 0xA1, 0x00, 0xF0, 0x1E]);
    run(&mut m, 3);
    assert_eq!(m.index(), 0x110);
}

#[test]
fn skips() {
    // V0 = 5; 3005 skips; 4005 does not; 5010 with V1 = 0 does not
    let mut m = machine(&[0x60, 0x05, 0x30, 0x05]);
    run(&mut m, 2);
    assert_eq!(m.pc(), 0x206);

    let mut m = machine(&[0x60, 0x05, 0x40, 0x05]);
    run(&mut m, 2);
    assert_eq!(m.pc(), 0x204);

    let mut m = machine(&[0x60, 0x05, 0x50, 0x10]);
    run(&mut m, 2);
    assert_eq!(m.pc(), 0x204);

    let mut m = machine(&[0x60, 0x05, 0x90, 0x10]);
    run(&mut m, 2);
    assert_eq!(m.pc(), 0x206);
}

#[test]
fn key_skips() {
    let mut m = machine(&[0x60, 0x07, 0xE0, 0x9E]);
    m.set_key(7, true);
    run(&mut m, 2);
    assert_eq!(m.pc(), 0x206);

    let mut m = machine(&[0x60, 0x07, 0xE0, 0xA1]);
    m.set_key(7, true);
    run(&mut m, 2);
    assert_eq!(m.pc(), 0x204);

    // a register value past the last key names no key held down
    let mut m = machine(&[0x60, 0x20, 0xE0, 0xA1]);
    run(&mut m, 2);
    assert_eq!(m.pc(), 0x206);
}

#[test]
fn call_and_return() {
    // 0x200: call 0x206; 0x202: V0 = 1; 0x206: return
    let mut m = machine(&[0x22, 0x06, 0x60, 0x01, 0x00, 0x00, 0x00, 0xEE]);
    m.cycle_with(0).unwrap();
    assert_eq!(m.pc(), 0x206);
    assert_eq!(m.sp(), 1);
    m.cycle_with(0).unwrap();
    assert_eq!(m.pc(), 0x202);
    assert_eq!(m.sp(), 0);
    m.cycle_with(0).unwrap();
    assert_eq!(m.reg(0), 1);
}

#[test]
fn return_on_empty_stack_fails() {
    let mut m = machine(&[0x00, 0xEE]);
    assert_eq!(m.cycle_with(0), Err(Chip8Error::StackUnderflow));
    assert_eq!(m.pc(), 0x200);
    assert_eq!(m.sp(), 0);
}

#[test]
fn call_with_full_stack_fails() {
    let mut m = machine(&[0x22, 0x00]);
    run(&mut m, 16);
    assert_eq!(m.sp(), 16);
    assert_eq!(m.cycle_with(0), Err(Chip8Error::StackOverflow));
    assert_eq!(m.sp(), 16);
    assert_eq!(m.pc(), 0x200);
}

#[test]
fn jumps() {
    let mut m = machine(&[0x13, 0x45]);
    run(&mut m, 1);
    assert_eq!(m.pc(), 0x345);

    let mut m = machine(&[0x60, 0x10, 0xB3, 0x00]);
    run(&mut m, 2);
    assert_eq!(m.pc(), 0x310);

    // jumping past the end of memory wraps
    let mut m = machine(&[0x60, 0xFF, 0xBF, 0xFF]);
    run(&mut m, 2);
    assert_eq!(m.pc(), 0x0FE);
}

#[test]
fn random_masks_the_given_byte() {
    let mut m = machine(&[0xC0, 0xF0]);
    m.cycle_with(0xAB).unwrap();
    assert_eq!(m.reg(0), 0xA0);
}

#[test]
fn emu_cycle_runs_one_instruction() {
    let mut m = machine(&[0x61, 0xFF, 0xC0, 0x00, 0xC1, 0x0F]);
    let r = m.emu_cycle().unwrap();
    assert_eq!(r.instruction, Instruction::LoadImm { x: 1, nn: 0xFF });
    assert!(!r.redraw);
    m.emu_cycle().unwrap();
    assert_eq!(m.reg(0), 0);
    m.emu_cycle().unwrap();
    assert!(m.reg(1) <= 0x0F);
    assert_eq!(m.pc(), 0x206);
}

#[test]
fn unknown_opcode_is_skipped() {
    let mut m = machine(&[0x01, 0x23]);
    let r = m.cycle_with(0).unwrap();
    assert_eq!(r.instruction, Instruction::Unknown { op: 0x0123 });
    assert_eq!(m.pc(), 0x202);
}

#[test]
fn execute_a_decoded_instruction() {
    let mut m = machine(&[]);
    m.execute(Instruction::LoadImm { x: 4, nn: 9 }, 0).unwrap();
    assert_eq!(m.reg(4), 9);
    assert_eq!(m.pc(), 0x202);
    assert!(m.tick_timers() == false);
}

#[test]
fn squares_cover_lit_pixels() {
    // V0 = 3, V1 = 2, one pixel: sprite byte 0x80 at (3, 2)
    let mut m = machine(&[0x60, 0x03, 0x61, 0x02, 0xA2, 0x08, 0xD0, 0x11, 0x80]);
    run(&mut m, 4);
    let lit = pixel_squares(m.display(), 10, true);
    assert_eq!(lit, vec![Square { x: 30, y: 20, side: 10 }]);
    let dark = pixel_squares(m.display(), 10, false);
    assert_eq!(dark.len(), 2047);
    assert_eq!(dark[0], Square { x: 0, y: 0, side: 10 });
    assert_eq!(dark[1], Square { x: 0, y: 10, side: 10 });
    assert_eq!(dark[2046], Square { x: 630, y: 310, side: 10 });
}
