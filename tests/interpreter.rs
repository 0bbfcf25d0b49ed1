use chip8::{Cpu, Status};

fn cpu_with(rom: &[u8]) -> Cpu {
    let mut cpu = Cpu::new();
    cpu.load(rom);
    cpu
}

#[test]
fn clear_screen_program() {
    let mut cpu = cpu_with(&[0x00, 0xE0]);
    cpu.screen[5] = true;
    cpu.screen[2047] = true;
    assert_eq!(cpu.tick(), Status::Executed);
    assert!(cpu.get_display().iter().all(|p| !*p));
    assert_eq!(cpu.program_counter(), 0x202);
    assert!(cpu.get_last_buf()[5]);
    assert!(cpu.get_last_buf()[2047]);
}

#[test]
fn load_then_add_immediate() {
    let mut cpu = cpu_with(&[0x6A, 0x05, 0x7A, 0x03]);
    cpu.tick();
    cpu.tick();
    assert_eq!(cpu.register(0xA), 8);
    assert_eq!(cpu.register(0xF), 0);
    assert_eq!(cpu.program_counter(), 0x204);
}

#[test]
fn add_immediate_wraps_without_flag() {
    let mut cpu = Cpu::new();
    cpu.execute(0x6AFF, 0);
    cpu.execute(0x7A03, 0);
    assert_eq!(cpu.register(0xA), 2);
    assert_eq!(cpu.register(0xF), 0);
}

#[test]
fn font_glyph_for_zero_read_back() {
    // V0 is 0: point I at glyph 0, then load five bytes from I into V0..V4.
    let mut cpu = cpu_with(&[0xF0, 0x29, 0xF4, 0x65]);
    cpu.tick();
    assert_eq!(cpu.index_register(), 0);
    cpu.tick();
    let glyph: Vec<u8> = (0..5).map(|k| cpu.register(k)).collect();
    assert_eq!(glyph, vec![0xF0, 0x90, 0x90, 0x90, 0xF0]);
    let in_memory: Vec<u8> = (0..5).map(|k| cpu.read_memory(k)).collect();
    assert_eq!(in_memory, glyph);
}

#[test]
fn font_select_points_at_glyph() {
    let mut cpu = Cpu::new();
    cpu.execute(0x670A, 0);
    cpu.execute(0xF729, 0);
    assert_eq!(cpu.index_register(), 50);
    assert_eq!(cpu.read_memory(50), 0xF0);
    assert_eq!(cpu.read_memory(79), 0x80);
}

#[test]
fn add_registers_sets_carry() {
    let mut cpu = Cpu::new();
    cpu.execute(0x61C8, 0); // 200
    cpu.execute(0x6264, 0); // 100
    cpu.execute(0x8124, 0);
    assert_eq!(cpu.register(1), 44);
    assert_eq!(cpu.register(0xF), 1);
    cpu.execute(0x8124, 0);
    assert_eq!(cpu.register(1), 144);
    assert_eq!(cpu.register(0xF), 0);
}

#[test]
fn add_registers_edge_of_byte() {
    let mut cpu = Cpu::new();
    cpu.execute(0x61FF, 0);
    cpu.execute(0x6201, 0);
    cpu.execute(0x8124, 0);
    assert_eq!(cpu.register(1), 0);
    assert_eq!(cpu.register(0xF), 1);
    cpu.execute(0x61FE, 0);
    cpu.execute(0x8124, 0);
    assert_eq!(cpu.register(1), 255);
    assert_eq!(cpu.register(0xF), 0);
}

#[test]
fn subtract_sets_flag_without_borrow() {
    let mut cpu = Cpu::new();
    cpu.execute(0x6105, 0);
    cpu.execute(0x620A, 0);
    cpu.execute(0x8125, 0);
    assert_eq!(cpu.register(1), 251);
    assert_eq!(cpu.register(0xF), 0);
    cpu.execute(0x610A, 0);
    cpu.execute(0x8125, 0);
    assert_eq!(cpu.register(1), 0);
    assert_eq!(cpu.register(0xF), 1);
    cpu.execute(0x6114, 0);
    cpu.execute(0x8125, 0);
    assert_eq!(cpu.register(1), 10);
    assert_eq!(cpu.register(0xF), 1);
}

#[test]
fn reverse_subtract() {
    let mut cpu = Cpu::new();
    cpu.execute(0x6105, 0);
    cpu.execute(0x620A, 0);
    cpu.execute(0x8127, 0);
    assert_eq!(cpu.register(1), 5);
    assert_eq!(cpu.register(0xF), 1);
    cpu.execute(0x6114, 0);
    cpu.execute(0x8127, 0);
    assert_eq!(cpu.register(1), 246);
    assert_eq!(cpu.register(0xF), 0);
}

#[test]
fn shifts_report_bit_shifted_out() {
    let mut cpu = Cpu::new();
    cpu.execute(0x6181, 0);
    cpu.execute(0x8106, 0);
    assert_eq!(cpu.register(1), 0x40);
    assert_eq!(cpu.register(0xF), 1);
    cpu.execute(0x8106, 0);
    assert_eq!(cpu.register(1), 0x20);
    assert_eq!(cpu.register(0xF), 0);
    cpu.execute(0x6181, 0);
    cpu.execute(0x810E, 0);
    assert_eq!(cpu.register(1), 0x02);
    assert_eq!(cpu.register(0xF), 1);
    cpu.execute(0x810E, 0);
    assert_eq!(cpu.register(1), 0x04);
    assert_eq!(cpu.register(0xF), 0);
}

#[test]
fn bitwise_and_copy() {
    let mut cpu = Cpu::new();
    cpu.execute(0x61CC, 0);
    cpu.execute(0x62AA, 0);
    cpu.execute(0x8311, 0);
    cpu.execute(0x8321, 0);
    assert_eq!(cpu.register(3), 0xEE);
    cpu.execute(0x8310, 0);
    cpu.execute(0x8322, 0);
    assert_eq!(cpu.register(3), 0x88);
    cpu.execute(0x8310, 0);
    cpu.execute(0x8323, 0);
    assert_eq!(cpu.register(3), 0x66);
}

#[test]
fn draw_twice_restores_screen_and_reports_collision() {
    let mut cpu = Cpu::new();
    cpu.execute(0x6103, 0);
    cpu.execute(0x6207, 0);
    cpu.execute(0xA000, 0);
    cpu.screen[0] = true;
    let before = *cpu.get_display();
    cpu.execute(0xD125, 0);
    assert_eq!(cpu.register(0xF), 0);
    assert_ne!(*cpu.get_display(), before);
    assert!(cpu.get_display()[3 + 7 * 64]);
    cpu.execute(0xD125, 0);
    assert_eq!(*cpu.get_display(), before);
    assert_eq!(cpu.register(0xF), 1);
}

#[test]
fn draw_on_lit_pixel_clears_it_and_sets_flag() {
    let mut cpu = Cpu::new();
    cpu.execute(0xA000, 0);
    cpu.screen[1] = true;
    cpu.execute(0xD001, 0);
    assert!(!cpu.get_display()[1]);
    assert!(cpu.get_display()[0]);
    assert_eq!(cpu.register(0xF), 1);
}

#[test]
fn sprite_wraps_around_right_edge() {
    let mut rom = vec![0u8; 0x101];
    rom[0x100] = 0xFF;
    let mut cpu = cpu_with(&rom);
    cpu.execute(0x603C, 0); // x = 60
    cpu.execute(0x6100, 0);
    cpu.execute(0xA300, 0);
    cpu.execute(0xD011, 0);
    let screen = cpu.get_display();
    for col in 0..64 {
        assert_eq!(screen[col], col >= 60 || col < 4, "column {}", col);
    }
    assert!(screen[64..].iter().all(|p| !*p));
    assert_eq!(cpu.register(0xF), 0);
}

#[test]
fn sprite_wraps_around_bottom_edge() {
    let mut cpu = Cpu::new();
    cpu.execute(0x6000, 0);
    cpu.execute(0x611F, 0); // y = 31
    cpu.execute(0xA000, 0);
    cpu.execute(0xD012, 0); // rows 0xF0, 0x90
    let screen = cpu.get_display();
    assert!(screen[31 * 64] && screen[31 * 64 + 3] && !screen[31 * 64 + 4]);
    assert!(screen[0] && !screen[1] && screen[3]);
}

#[test]
fn call_then_return() {
    let mut rom = vec![0u8; 0x102];
    rom[0] = 0x23;
    rom[1] = 0x00;
    rom[0x100] = 0x00;
    rom[0x101] = 0xEE;
    let mut cpu = cpu_with(&rom);
    assert_eq!(cpu.tick(), Status::Executed);
    assert_eq!(cpu.program_counter(), 0x300);
    assert_eq!(cpu.stack_depth(), 1);
    assert_eq!(cpu.tick(), Status::Executed);
    assert_eq!(cpu.program_counter(), 0x202);
    assert_eq!(cpu.stack_depth(), 0);
}

#[test]
fn sixteen_nested_calls_then_overflow() {
    // A call to itself nests one level per tick.
    let mut cpu = cpu_with(&[0x22, 0x00]);
    for depth in 1..=16 {
        assert_eq!(cpu.tick(), Status::Executed);
        assert_eq!(cpu.stack_depth(), depth);
        assert_eq!(cpu.program_counter(), 0x200);
    }
    assert_eq!(cpu.tick(), Status::StackOverflow);
    assert_eq!(cpu.stack_depth(), 16);
    assert_eq!(cpu.program_counter(), 0x202);
}

#[test]
fn sixteen_returns_unwind_nesting() {
    let mut cpu = Cpu::new();
    for k in 0..16u16 {
        cpu.execute(0x2400 + 2 * k, 0);
    }
    assert_eq!(cpu.stack_depth(), 16);
    cpu.execute(0x00EE, 0);
    assert_eq!(cpu.program_counter(), 0x41C);
    for _ in 0..15 {
        assert_eq!(cpu.execute(0x00EE, 0), Status::Executed);
    }
    assert_eq!(cpu.program_counter(), 0x200);
    assert_eq!(cpu.execute(0x00EE, 0), Status::StackUnderflow);
}

#[test]
fn return_without_call_is_reported() {
    let mut cpu = cpu_with(&[0x00, 0xEE]);
    assert_eq!(cpu.tick(), Status::StackUnderflow);
    assert_eq!(cpu.program_counter(), 0x202);
    assert_eq!(cpu.stack_depth(), 0);
}

#[test]
fn unknown_opcodes_are_reported_and_skipped() {
    let mut cpu = cpu_with(&[0x01, 0x23, 0x80, 0x08, 0xE0, 0x00, 0xF0, 0xFF]);
    assert_eq!(cpu.tick(), Status::UnknownOpcode(0x0123));
    assert_eq!(cpu.tick(), Status::UnknownOpcode(0x8008));
    assert_eq!(cpu.tick(), Status::UnknownOpcode(0xE000));
    assert_eq!(cpu.tick(), Status::UnknownOpcode(0xF0FF));
    assert_eq!(cpu.program_counter(), 0x208);
}

#[test]
fn jumps() {
    let mut cpu = Cpu::new();
    cpu.execute(0x1ABC, 0);
    assert_eq!(cpu.program_counter(), 0xABC);
    cpu.execute(0x6004, 0);
    cpu.execute(0xB300, 0);
    assert_eq!(cpu.program_counter(), 0x304);
    cpu.execute(0x60FF, 0);
    cpu.execute(0xBFFF, 0);
    assert_eq!(cpu.program_counter(), 0x0FE);
}

#[test]
fn conditional_skips() {
    let mut cpu = Cpu::new();
    cpu.execute(0x6107, 0);
    cpu.execute(0x6207, 0);
    let pc = cpu.program_counter();
    cpu.execute(0x3107, 0);
    assert_eq!(cpu.program_counter(), pc + 2);
    cpu.execute(0x3108, 0);
    assert_eq!(cpu.program_counter(), pc + 2);
    cpu.execute(0x4108, 0);
    assert_eq!(cpu.program_counter(), pc + 4);
    cpu.execute(0x4107, 0);
    assert_eq!(cpu.program_counter(), pc + 4);
    cpu.execute(0x5120, 0);
    assert_eq!(cpu.program_counter(), pc + 6);
    cpu.execute(0x9120, 0);
    assert_eq!(cpu.program_counter(), pc + 6);
    cpu.execute(0x6208, 0);
    cpu.execute(0x9120, 0);
    assert_eq!(cpu.program_counter(), pc + 8);
}

#[test]
fn key_skips() {
    let mut cpu = Cpu::new();
    cpu.execute(0x6105, 0);
    let pc = cpu.program_counter();
    cpu.execute(0xE19E, 0);
    assert_eq!(cpu.program_counter(), pc);
    cpu.execute(0xE1A1, 0);
    assert_eq!(cpu.program_counter(), pc + 2);
    cpu.keypress(5, true);
    cpu.execute(0xE19E, 0);
    assert_eq!(cpu.program_counter(), pc + 4);
    cpu.execute(0xE1A1, 0);
    assert_eq!(cpu.program_counter(), pc + 4);
}

#[test]
fn wait_for_key_repeats_until_pressed() {
    let mut cpu = cpu_with(&[0xF3, 0x0A]);
    cpu.tick();
    assert_eq!(cpu.program_counter(), 0x200);
    cpu.tick();
    assert_eq!(cpu.program_counter(), 0x200);
    cpu.keypress(5, true);
    cpu.keypress(9, true);
    cpu.tick();
    assert_eq!(cpu.program_counter(), 0x202);
    assert_eq!(cpu.register(3), 9);
}

#[test]
fn timers_count_down_to_zero_and_stop() {
    let mut cpu = Cpu::new();
    cpu.execute(0x6003, 0);
    cpu.execute(0xF015, 0);
    cpu.execute(0x6102, 0);
    cpu.execute(0xF118, 0);
    assert_eq!(cpu.delay_timer(), 3);
    assert_eq!(cpu.sound_timer(), 2);
    cpu.timers();
    assert_eq!((cpu.delay_timer(), cpu.sound_timer()), (2, 1));
    cpu.timers();
    assert_eq!((cpu.delay_timer(), cpu.sound_timer()), (1, 0));
    for _ in 0..5 {
        cpu.timers();
    }
    assert_eq!((cpu.dt, cpu.st), (0, 0));
    cpu.execute(0xF207, 0);
    assert_eq!(cpu.register(2), 0);
}

#[test]
fn tick_counts_timers_down_once() {
    let mut cpu = cpu_with(&[0x60, 0x02, 0xF0, 0x15, 0xF1, 0x07, 0xF2, 0x07, 0xF3, 0x07]);
    cpu.tick();
    cpu.tick();
    assert_eq!(cpu.delay_timer(), 1);
    cpu.tick();
    assert_eq!(cpu.register(1), 1);
    cpu.tick();
    assert_eq!(cpu.register(2), 0);
    cpu.tick();
    assert_eq!(cpu.register(3), 0);
    assert_eq!(cpu.delay_timer(), 0);
}

#[test]
fn decimal_digits_stored_at_index() {
    let mut cpu = Cpu::new();
    cpu.execute(0x60FE, 0); // 254
    cpu.execute(0xA300, 0);
    cpu.execute(0xF033, 0);
    assert_eq!(
        (cpu.read_memory(0x300), cpu.read_memory(0x301), cpu.read_memory(0x302)),
        (2, 5, 4)
    );
    cpu.execute(0x6007, 0);
    cpu.execute(0xAFFF, 0);
    cpu.execute(0xF033, 0);
    assert_eq!((cpu.read_memory(0xFFF), cpu.read_memory(0), cpu.read_memory(1)), (0, 0, 7));
}

#[test]
fn store_and_load_registers_wrap_addresses() {
    let mut cpu = Cpu::new();
    cpu.execute(0x6011, 0);
    cpu.execute(0x6122, 0);
    cpu.execute(0x6233, 0);
    cpu.execute(0xAFFF, 0);
    cpu.execute(0xF155, 0);
    assert_eq!(cpu.read_memory(0xFFF), 0x11);
    assert_eq!(cpu.read_memory(0), 0x22);
    assert_eq!(cpu.read_memory(1), 0x90);
    assert_eq!(cpu.index_register(), 0xFFF);
    cpu.execute(0x6000, 0);
    cpu.execute(0x6100, 0);
    cpu.execute(0xF265, 0);
    assert_eq!((cpu.register(0), cpu.register(1), cpu.register(2)), (0x11, 0x22, 0x90));
}

#[test]
fn index_addition_wraps() {
    let mut cpu = Cpu::new();
    cpu.execute(0xAFFF, 0);
    cpu.execute(0x6002, 0);
    cpu.execute(0xF01E, 0);
    assert_eq!(cpu.index_register(), 1);
}

#[test]
fn random_byte_is_masked() {
    let mut cpu = Cpu::new();
    cpu.execute(0xC30F, 0xAB);
    assert_eq!(cpu.register(3), 0x0B);
    cpu.execute(0xC3F0, 0xAB);
    assert_eq!(cpu.register(3), 0xA0);
}

#[test]
fn drawn_random_byte_respects_mask() {
    let mut cpu = cpu_with(&[0xC4, 0x0F, 0xC5, 0x00]);
    assert_eq!(cpu.tick(), Status::Executed);
    assert!(cpu.register(4) < 16);
    cpu.tick();
    assert_eq!(cpu.register(5), 0);
}

#[test]
fn step_uses_given_random_byte() {
    let mut cpu = cpu_with(&[0xC6, 0xFF]);
    assert_eq!(cpu.step(0x5A), Status::Executed);
    assert_eq!(cpu.register(6), 0x5A);
    assert_eq!(cpu.program_counter(), 0x202);
}

#[test]
fn new_machine_state() {
    let cpu = Cpu::new();
    assert_eq!(cpu.program_counter(), 0x200);
    assert_eq!(cpu.index_register(), 0);
    assert_eq!(cpu.stack_depth(), 0);
    assert!((0..16).all(|k| cpu.register(k) == 0));
    assert_eq!(cpu.read_memory(0), 0xF0);
    assert_eq!(cpu.read_memory(5), 0x20);
    assert_eq!(cpu.read_memory(80), 0);
    assert!(cpu.get_display().iter().all(|p| !*p));
    assert!(cpu.get_last_buf().iter().all(|p| !*p));
    let d = Cpu::default();
    assert_eq!(d.read_memory(75), 0xF0);
}

#[test]
fn reset_restores_power_on_state() {
    let mut cpu = cpu_with(&[0x00, 0xE0, 0x61, 0x22]);
    cpu.tick();
    cpu.execute(0xA123, 0);
    cpu.execute(0x6009, 0);
    cpu.execute(0xF015, 0);
    cpu.execute(0x2500, 0);
    cpu.keypress(3, true);
    cpu.screen[10] = true;
    cpu.reset();
    assert_eq!(cpu.program_counter(), 0x200);
    assert_eq!(cpu.index_register(), 0);
    assert_eq!(cpu.stack_depth(), 0);
    assert_eq!(cpu.register(0), 0);
    assert_eq!(cpu.delay_timer(), 0);
    assert_eq!(cpu.read_memory(0x200), 0);
    assert_eq!(cpu.read_memory(0), 0xF0);
    assert!(cpu.get_display().iter().all(|p| !*p));
    // the key was released by the reset
    cpu.execute(0x6003, 0);
    cpu.execute(0xE0A1, 0);
    assert_eq!(cpu.program_counter(), 0x202);
}

#[test]
fn load_font_rewrites_glyphs_only() {
    let mut cpu = Cpu::new();
    cpu.execute(0x6077, 0);
    cpu.execute(0xA000, 0);
    cpu.execute(0xF055, 0);
    assert_eq!(cpu.read_memory(0), 0x77);
    cpu.load_font();
    assert_eq!(cpu.read_memory(0), 0xF0);
    assert_eq!(cpu.read_memory(0x200), 0);
}

#[test]
fn load_copies_image_at_program_start() {
    let rom: Vec<u8> = (0..=255u8).collect();
    let cpu = cpu_with(&rom);
    assert_eq!(cpu.read_memory(0x1FF), 0);
    assert_eq!(cpu.read_memory(0x200), 0);
    assert_eq!(cpu.read_memory(0x2FF), 255);
    assert_eq!(cpu.read_memory(0x300), 0);
    let big = vec![7u8; 4096 - 0x200];
    let cpu = cpu_with(&big);
    assert_eq!(cpu.read_memory(0xFFF), 7);
}

#[test]
fn fetch_wraps_at_end_of_memory() {
    let mut cpu = Cpu::new();
    cpu.execute(0x1FFE, 0);
    cpu.tick();
    assert_eq!(cpu.program_counter(), 0);
}
