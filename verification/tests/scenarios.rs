use chip8::{Fault, Flow, Input, LoadError, Processor};

// --- program loading ---

#[test]
fn load_places_bytes_at_base() {
    let mut p = Processor::new();
    let rom = vec![0x12, 0x34, 0x56];
    assert_eq!(p.load(&rom), Ok(()));
    assert_eq!(&p.ram[0x200..0x203], &[0x12, 0x34, 0x56]);
    assert_eq!(p.ram[0x203], 0);
    assert_eq!(p.pc, 0x200);
}

#[test]
fn load_accepts_exactly_full_capacity() {
    let mut p = Processor::new();
    let rom = vec![0xAB; 4096 - 0x200];
    assert_eq!(p.load(&rom), Ok(()));
    assert_eq!(p.ram[0x200], 0xAB);
    assert_eq!(p.ram[4095], 0xAB);
}

#[test]
fn load_rejects_oversize_rom_whole() {
    let mut p = Processor::new();
    let rom = vec![0xAB; 4096 - 0x200 + 1];
    assert_eq!(p.load(&rom), Err(LoadError::TooLarge));
    // nothing was copied: no silent truncation
    assert!(p.ram[0x200..].iter().all(|&b| b == 0));
}

// --- concrete scenarios ---

#[test]
fn scenario_add_program() {
    // load 5 into v0, 3 into v1, add v1 into v0
    let mut p = Processor::new();
    let rom = vec![0x60, 0x05, 0x61, 0x03, 0x80, 0x14];
    assert_eq!(p.load(&rom), Ok(()));
    for _ in 0..3 {
        assert!(p.cycle().is_ok());
    }
    assert_eq!(p.v[0], 8);
    assert_eq!(p.v[1], 3);
    assert_eq!(p.v[15], 0);
    assert_eq!(p.pc, 0x206);
}

#[test]
fn scenario_self_jump() {
    // jump to 0x200: an infinite self-loop that must keep the counter
    // exactly at 0x200, never at 0x1FE or wrapped
    let mut p = Processor::new();
    let rom = vec![0x12, 0x00];
    assert_eq!(p.load(&rom), Ok(()));
    assert_eq!(p.cycle(), Ok(Flow::Jump));
    assert_eq!(p.pc, 0x200);
    assert_eq!(p.cycle(), Ok(Flow::Jump));
    assert_eq!(p.pc, 0x200);
}

// --- stack bounds ---

#[test]
fn sixteen_nested_calls_succeed_and_seventeenth_overflows() {
    let mut p = Processor::new();
    // a chain of 17 call instructions, each calling the next
    let mut rom: Vec<u8> = Vec::new();
    for k in 0..17u16 {
        let target = 0x202 + 2 * k;
        let op = 0x2000 | target;
        rom.push((op >> 8) as u8);
        rom.push((op & 0xFF) as u8);
    }
    assert_eq!(p.load(&rom), Ok(()));
    for k in 0..16u16 {
        assert_eq!(p.cycle(), Ok(Flow::Jump), "call {k}");
        assert_eq!(p.sp, (k + 1) as usize);
    }
    assert_eq!(p.pc, 0x220);
    assert_eq!(
        p.cycle(),
        Err(Fault::StackOverflow { pc: 0x220, depth: 16 })
    );
    // the fault leaves the stack and counter unchanged
    assert_eq!(p.sp, 16);
    assert_eq!(p.pc, 0x220);
}

#[test]
fn return_with_empty_stack_underflows() {
    let mut p = Processor::new();
    let rom = vec![0x00, 0xEE];
    assert_eq!(p.load(&rom), Ok(()));
    assert_eq!(
        p.cycle(),
        Err(Fault::StackUnderflow { pc: 0x200, depth: 0 })
    );
    assert_eq!(p.pc, 0x200);
    assert_eq!(p.sp, 0);
}

// --- timers ---

#[test]
fn timers_tick_down_and_stop_at_zero() {
    let mut p = Processor::new();
    p.delay_timer = 2;
    p.sound_timer = 1;
    p.tick_timers();
    assert_eq!(p.delay_timer, 1);
    assert_eq!(p.sound_timer, 0);
    p.tick_timers();
    assert_eq!(p.delay_timer, 0);
    assert_eq!(p.sound_timer, 0);
    p.tick_timers();
    assert_eq!(p.delay_timer, 0);
    assert_eq!(p.sound_timer, 0);
}

// --- drawing ---

#[test]
fn draw_same_sprite_twice_clears_and_collides() {
    // an 8x1 all-set sprite at (0,0), drawn twice: first draw sets the
    // pixels with flag 0, the second clears them all with flag 1
    let mut p = Processor::new();
    p.ram[0x300] = 0xFF;
    p.i = 0x300;
    assert!(p.process_opcode(0xD011).is_ok());
    assert!(p.vram_dirty);
    assert_eq!(&p.vram[0..8], &[1, 1, 1, 1, 1, 1, 1, 1]);
    assert_eq!(p.v[15], 0);
    assert!(p.process_opcode(0xD011).is_ok());
    assert_eq!(&p.vram[0..8], &[0, 0, 0, 0, 0, 0, 0, 0]);
    assert!(p.vram[8..].iter().all(|&b| b == 0));
    assert_eq!(p.v[15], 1);
}

#[test]
fn draw_reads_sprite_rows_and_detects_partial_collision() {
    let mut p = Processor::new();
    p.ram[0x300] = 0b1010_0000;
    p.ram[0x301] = 0b0000_0001;
    p.i = 0x300;
    p.v[0] = 8; // x
    p.v[1] = 4; // y
    assert!(p.process_opcode(0xD012).is_ok());
    assert_eq!(p.vram[4 * 64 + 8], 1);
    assert_eq!(p.vram[4 * 64 + 9], 0);
    assert_eq!(p.vram[4 * 64 + 10], 1);
    assert_eq!(p.vram[5 * 64 + 15], 1);
    assert_eq!(p.v[15], 0);
    // overlap only one pixel: it clears, the others toggle, flag reports it
    p.ram[0x300] = 0b1000_0000;
    p.ram[0x301] = 0;
    assert!(p.process_opcode(0xD012).is_ok());
    assert_eq!(p.vram[4 * 64 + 8], 0);
    assert_eq!(p.vram[4 * 64 + 10], 1);
    assert_eq!(p.v[15], 1);
}

#[test]
fn draw_wraps_coordinates_modulo_screen() {
    let mut p = Processor::new();
    p.ram[0x300] = 0xFF;
    p.i = 0x300;
    p.v[0] = 62; // two columns before the right edge
    p.v[1] = 33; // one row past the bottom, wraps to row 1
    assert!(p.process_opcode(0xD011).is_ok());
    assert_eq!(p.vram[1 * 64 + 62], 1);
    assert_eq!(p.vram[1 * 64 + 63], 1);
    for c in 0..6 {
        assert_eq!(p.vram[1 * 64 + c], 1);
    }
    assert_eq!(p.vram[1 * 64 + 6], 0);
}

#[test]
fn clear_screen_zeroes_framebuffer_and_marks_dirty() {
    let mut p = Processor::new();
    p.vram[100] = 1;
    p.vram_dirty = false;
    assert_eq!(p.process_opcode(0x00E0), Ok(Flow::Advance));
    assert!(p.vram.iter().all(|&b| b == 0));
    assert!(p.vram_dirty);
    assert_eq!(p.pc, 0x202);
}

// --- keys ---

#[test]
fn key_snapshot_rebuilt_each_poll() {
    let mut p = Processor::new();
    p.set_keys(Some(Input::Key(5)));
    let mut expected = vec![0u8; 16];
    expected[5] = 1;
    assert_eq!(p.keypad, expected);
    // the snapshot does not persist: the next poll with no event clears it
    p.set_keys(None);
    assert_eq!(p.keypad, vec![0u8; 16]);
    assert!(!p.halt);
}

#[test]
fn quit_signal_sets_halt() {
    let mut p = Processor::new();
    p.set_keys(Some(Input::Quit));
    assert!(p.halt);
    assert_eq!(p.keypad, vec![0u8; 16]);
    assert!(!p.should_run());
}

#[test]
fn skip_on_key_pressed_and_not_pressed() {
    let mut p = Processor::new();
    p.v[0] = 0xB;
    p.set_keys(Some(Input::Key(0xB)));
    assert!(p.process_opcode(0xE09E).is_ok());
    assert_eq!(p.pc, 0x204); // pressed: skip taken
    assert!(p.process_opcode(0xE0A1).is_ok());
    assert_eq!(p.pc, 0x206); // not-pressed skip not taken
    p.set_keys(None);
    assert!(p.process_opcode(0xE09E).is_ok());
    assert_eq!(p.pc, 0x208); // released: no skip
    assert!(p.process_opcode(0xE0A1).is_ok());
    assert_eq!(p.pc, 0x20C); // released: skip taken
}

#[test]
fn wait_for_key_suspends_then_stores() {
    let mut p = Processor::new();
    let rom = vec![0xF3, 0x0A];
    assert_eq!(p.load(&rom), Ok(()));
    assert_eq!(p.cycle(), Ok(Flow::AwaitKey(3)));
    assert_eq!(p.pc, 0x202);
    p.complete_wait_key(3, Input::Key(0xC));
    assert_eq!(p.v[3], 0xC);
    assert!(!p.halt);
}

#[test]
fn wait_for_key_quit_halts() {
    let mut p = Processor::new();
    let rom = vec![0xF3, 0x0A];
    assert_eq!(p.load(&rom), Ok(()));
    assert_eq!(p.cycle(), Ok(Flow::AwaitKey(3)));
    p.complete_wait_key(3, Input::Quit);
    assert!(p.halt);
    assert_eq!(p.v[3], 0);
    assert!(!p.should_run());
}

// --- run gate ---

#[test]
fn should_run_checks_halt_and_counter_bounds() {
    let mut p = Processor::new();
    assert!(p.should_run());
    p.pc = 4094;
    assert!(p.should_run());
    p.pc = 4095;
    assert!(!p.should_run());
    p.pc = 0x200;
    p.halt = true;
    assert!(!p.should_run());
}
