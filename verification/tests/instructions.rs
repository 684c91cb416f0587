use chip8::{Fault, Flow, Processor};

// --- construction ---

#[test]
fn new_processor_start_state() {
    let p = Processor::new();
    assert_eq!(p.pc, 0x200);
    assert_eq!(p.sp, 0);
    assert_eq!(p.i, 0);
    assert_eq!(p.delay_timer, 0);
    assert_eq!(p.sound_timer, 0);
    assert!(!p.halt);
    assert!(!p.vram_dirty);
    assert_eq!(p.ram.len(), 4096);
    assert_eq!(p.v, vec![0u8; 16]);
    assert_eq!(p.stack, vec![0u16; 16]);
    assert_eq!(p.vram, vec![0u8; 2048]);
    assert_eq!(p.keypad, vec![0u8; 16]);
    // memory zero outside the font region
    assert!(p.ram[..0x50].iter().all(|&b| b == 0));
    assert!(p.ram[0xA0..].iter().all(|&b| b == 0));
    // font glyph for 0 and for F
    assert_eq!(&p.ram[0x50..0x55], &[0xF0, 0x90, 0x90, 0x90, 0xF0]);
    assert_eq!(&p.ram[0x9B..0xA0], &[0xF0, 0x80, 0xF0, 0x80, 0x80]);
}

// --- loads, stores, arithmetic ---

#[test]
fn load_immediate_and_add_immediate() {
    let mut p = Processor::new();
    assert!(p.process_opcode(0x63AB).is_ok());
    assert_eq!(p.v[3], 0xAB);
    assert_eq!(p.pc, 0x202);
    assert!(p.process_opcode(0x7310).is_ok());
    assert_eq!(p.v[3], 0xBB);
    // immediate add wraps without touching the flag
    assert!(p.process_opcode(0x73FF).is_ok());
    assert_eq!(p.v[3], 0xBA);
    assert_eq!(p.v[15], 0);
}

#[test]
fn register_move_and_bitwise_ops() {
    let mut p = Processor::new();
    p.v[1] = 0b1100_1010;
    p.v[2] = 0b1010_0101;
    assert_eq!(p.process_opcode(0x8010), Ok(Flow::Advance)); // v0 = v1
    assert_eq!(p.v[0], 0b1100_1010);
    assert_eq!(p.process_opcode(0x8021), Ok(Flow::Advance)); // v0 |= v2
    assert_eq!(p.v[0], 0b1110_1111);
    p.v[0] = 0b1100_1010;
    assert_eq!(p.process_opcode(0x8022), Ok(Flow::Advance)); // v0 &= v2
    assert_eq!(p.v[0], 0b1000_0000);
    p.v[0] = 0b1100_1010;
    assert_eq!(p.process_opcode(0x8023), Ok(Flow::Advance)); // v0 ^= v2
    assert_eq!(p.v[0], 0b0110_1111);
    // none of the three touched the flag register
    assert_eq!(p.v[15], 0);
}

#[test]
fn add_with_carry_boundaries() {
    // 255 + 1 wraps to 0 and carries
    let mut p = Processor::new();
    p.v[0] = 255;
    p.v[1] = 1;
    assert!(p.process_opcode(0x8014).is_ok());
    assert_eq!(p.v[0], 0);
    assert_eq!(p.v[15], 1);
    // 254 + 1 does not carry
    p.v[0] = 254;
    assert!(p.process_opcode(0x8014).is_ok());
    assert_eq!(p.v[0], 255);
    assert_eq!(p.v[15], 0);
}

#[test]
fn sub_with_borrow_boundaries() {
    // 0 - 1 wraps to 255; a borrow occurred, so the flag is 0
    let mut p = Processor::new();
    p.v[0] = 0;
    p.v[1] = 1;
    assert!(p.process_opcode(0x8015).is_ok());
    assert_eq!(p.v[0], 255);
    assert_eq!(p.v[15], 0);
    // 5 - 5: no borrow, flag is 1
    p.v[0] = 5;
    p.v[1] = 5;
    assert!(p.process_opcode(0x8015).is_ok());
    assert_eq!(p.v[0], 0);
    assert_eq!(p.v[15], 1);
}

#[test]
fn reverse_sub_borrow_polarity() {
    // v0 = v1 - v0 with v1 >= v0: no borrow, flag 1
    let mut p = Processor::new();
    p.v[0] = 3;
    p.v[1] = 10;
    assert!(p.process_opcode(0x8017).is_ok());
    assert_eq!(p.v[0], 7);
    assert_eq!(p.v[15], 1);
    // v1 < v0: borrow, flag 0, wrapped difference
    p.v[0] = 10;
    p.v[1] = 3;
    assert!(p.process_opcode(0x8017).is_ok());
    assert_eq!(p.v[0], 249);
    assert_eq!(p.v[15], 0);
}

#[test]
fn shift_right_flag_is_low_bit() {
    let mut p = Processor::new();
    p.v[4] = 0x81;
    assert!(p.process_opcode(0x8406).is_ok());
    assert_eq!(p.v[4], 0x40);
    assert_eq!(p.v[15], 1);
    assert!(p.process_opcode(0x8406).is_ok());
    assert_eq!(p.v[4], 0x20);
    assert_eq!(p.v[15], 0);
}

#[test]
fn shift_left_flag_is_normalized_high_bit() {
    let mut p = Processor::new();
    // high bit set: the flag must be exactly 1, not the raw mask 0x80
    p.v[4] = 0x80;
    assert!(p.process_opcode(0x840E).is_ok());
    assert_eq!(p.v[4], 0x00);
    assert_eq!(p.v[15], 1);
    // high bit clear: flag exactly 0
    p.v[4] = 0x41;
    assert!(p.process_opcode(0x840E).is_ok());
    assert_eq!(p.v[4], 0x82);
    assert_eq!(p.v[15], 0);
}

#[test]
fn shifts_with_flag_register_as_target() {
    // when the destination is the flag register itself, the flag write and
    // the value write collide: the flag lands first and is then shifted
    let mut p = Processor::new();
    p.v[15] = 0xFF;
    assert!(p.process_opcode(0x8F06).is_ok());
    assert_eq!(p.v[15], 0); // (0xFF & 1) >> 1
    p.v[15] = 0xFF;
    assert!(p.process_opcode(0x8F0E).is_ok());
    assert_eq!(p.v[15], 2); // (0xFF >> 7) << 1
}

// --- control flow ---

#[test]
fn jump_lands_exactly() {
    let mut p = Processor::new();
    assert_eq!(p.process_opcode(0x1ABC), Ok(Flow::Jump));
    assert_eq!(p.pc, 0xABC);
    // jump to address 0 must not underflow
    assert_eq!(p.process_opcode(0x1000), Ok(Flow::Jump));
    assert_eq!(p.pc, 0x000);
}

#[test]
fn jump_plus_v0() {
    let mut p = Processor::new();
    p.v[0] = 0x10;
    assert_eq!(p.process_opcode(0xB300), Ok(Flow::Jump));
    assert_eq!(p.pc, 0x310);
}

#[test]
fn call_and_return_round_trip() {
    let mut p = Processor::new();
    assert_eq!(p.process_opcode(0x2400), Ok(Flow::Jump));
    assert_eq!(p.pc, 0x400);
    assert_eq!(p.sp, 1);
    assert_eq!(p.stack[0], 0x202);
    assert_eq!(p.process_opcode(0x00EE), Ok(Flow::Jump));
    // the counter resumes at the instruction after the call
    assert_eq!(p.pc, 0x202);
    assert_eq!(p.sp, 0);
}

#[test]
fn skip_equal_immediate() {
    let mut p = Processor::new();
    p.v[2] = 0x42;
    assert!(p.process_opcode(0x3242).is_ok());
    assert_eq!(p.pc, 0x204); // taken: skips the following instruction
    assert!(p.process_opcode(0x3241).is_ok());
    assert_eq!(p.pc, 0x206); // not taken
}

#[test]
fn skip_not_equal_immediate() {
    let mut p = Processor::new();
    p.v[2] = 0x42;
    assert!(p.process_opcode(0x4242).is_ok());
    assert_eq!(p.pc, 0x202); // not taken
    assert!(p.process_opcode(0x4241).is_ok());
    assert_eq!(p.pc, 0x206); // taken
}

#[test]
fn skip_register_compares() {
    let mut p = Processor::new();
    p.v[1] = 7;
    p.v[2] = 7;
    assert!(p.process_opcode(0x5120).is_ok());
    assert_eq!(p.pc, 0x204); // equal: taken
    assert!(p.process_opcode(0x9120).is_ok());
    assert_eq!(p.pc, 0x206); // not-equal: not taken
    p.v[2] = 8;
    assert!(p.process_opcode(0x5120).is_ok());
    assert_eq!(p.pc, 0x208); // equal: not taken
    assert!(p.process_opcode(0x9120).is_ok());
    assert_eq!(p.pc, 0x20C); // not-equal: taken
}

// --- index register and memory ---

#[test]
fn set_index_and_add_to_index() {
    let mut p = Processor::new();
    assert!(p.process_opcode(0xA123).is_ok());
    assert_eq!(p.i, 0x123);
    p.v[6] = 0x10;
    assert!(p.process_opcode(0xF61E).is_ok());
    assert_eq!(p.i, 0x133);
    // the index stays within the 12-bit address space
    p.i = 0xFFF;
    p.v[6] = 5;
    assert!(p.process_opcode(0xF61E).is_ok());
    assert_eq!(p.i, 4);
}

#[test]
fn font_glyph_address() {
    let mut p = Processor::new();
    p.v[3] = 0xA;
    assert!(p.process_opcode(0xF329).is_ok());
    assert_eq!(p.i, 0x50 + 0xA * 5);
}

#[test]
fn bcd_decomposition() {
    let mut p = Processor::new();
    p.v[7] = 254;
    p.i = 0x300;
    assert!(p.process_opcode(0xF733).is_ok());
    assert_eq!(p.ram[0x300], 2);
    assert_eq!(p.ram[0x301], 5);
    assert_eq!(p.ram[0x302], 4);
}

#[test]
fn register_block_store_and_load() {
    let mut p = Processor::new();
    for k in 0..=5u8 {
        p.v[k as usize] = 10 + k;
    }
    p.i = 0x320;
    assert!(p.process_opcode(0xF555).is_ok()); // store v0..=v5
    for k in 0..=5usize {
        assert_eq!(p.ram[0x320 + k], 10 + k as u8);
    }
    assert_eq!(p.ram[0x326], 0); // one past the block untouched
    let mut q = Processor::new();
    q.i = 0x320;
    q.ram[0x320..0x326].copy_from_slice(&[9, 8, 7, 6, 5, 4]);
    assert!(q.process_opcode(0xF565).is_ok()); // load v0..=v5
    assert_eq!(&q.v[0..6], &[9, 8, 7, 6, 5, 4]);
    assert_eq!(q.v[6], 0);
}

// --- timers ---

#[test]
fn timer_instructions() {
    let mut p = Processor::new();
    p.v[2] = 60;
    assert!(p.process_opcode(0xF215).is_ok());
    assert_eq!(p.delay_timer, 60);
    assert!(p.process_opcode(0xF218).is_ok());
    assert_eq!(p.sound_timer, 60);
    p.delay_timer = 42;
    assert!(p.process_opcode(0xF307).is_ok());
    assert_eq!(p.v[3], 42);
}

// --- random ---

#[test]
fn random_byte_respects_mask() {
    let mut p = Processor::new();
    for _ in 0..50 {
        assert!(p.process_opcode(0xC50F).is_ok());
        assert_eq!(p.v[5] & 0xF0, 0);
    }
    // a zero mask forces zero whatever the generator gave
    p.v[5] = 0xFF;
    assert!(p.process_opcode(0xC500).is_ok());
    assert_eq!(p.v[5], 0);
}

// --- decode errors ---

#[test]
fn unknown_opcodes_are_decode_errors() {
    for op in [0x0000u16, 0x00E1, 0x5121, 0x8008, 0x800F, 0x9005, 0xE000, 0xE0A2, 0xF000, 0xF1FF]
    {
        let mut p = Processor::new();
        assert_eq!(
            p.process_opcode(op),
            Err(Fault::Decode { pc: 0x200, opcode: op }),
            "opcode {op:#06X}"
        );
        // a fault leaves the machine untouched
        assert_eq!(p.pc, 0x200);
        assert_eq!(p.v, vec![0u8; 16]);
    }
}
