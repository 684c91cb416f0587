use vstd::prelude::*;

verus! {

/// Number of addressable memory bytes.
pub const RAM_SIZE: usize = 4096;

/// First address of the program region; the program counter starts here.
pub const BASE_ADDR: usize = 0x200;

/// Address at which the font glyphs are preloaded.
pub const FONTS_ADDR: usize = 0x050;

/// Capacity of the call stack, in return addresses.
pub const STACK_SIZE: usize = 16;

/// Framebuffer width in pixels.
pub const SCREEN_WIDTH: usize = 64;

/// Framebuffer height in pixels.
pub const SCREEN_HEIGHT: usize = 32;

/// Number of framebuffer bytes (one byte, 0 or 1, per pixel).
pub const VRAM_SIZE: usize = 2048;

/// Mathematical model of the whole architectural state. Every contract of
/// `Processor` is stated over this view.
#[verifier::ext_equal]
pub ghost struct State {
    /// Main memory, `RAM_SIZE` bytes.
    pub ram: Seq<u8>,
    /// The 16 general-purpose 8-bit registers; index 15 doubles as the flag
    /// register.
    pub v: Seq<u8>,
    /// Index register, kept within the 12-bit address space.
    pub i: u16,
    /// Program counter.
    pub pc: u16,
    /// Stack pointer: number of return addresses currently on the stack.
    pub sp: int,
    /// Call stack storage; only the first `sp` slots are live.
    pub stack: Seq<u16>,
    /// Delay timer, decremented at most once per timer tick.
    pub delay_timer: u8,
    /// Sound timer, decremented at most once per timer tick.
    pub sound_timer: u8,
    /// Framebuffer, `VRAM_SIZE` bytes, each 0 or 1.
    pub vram: Seq<u8>,
    /// Set when a draw or clear changed the framebuffer; cleared once rendered.
    pub vram_dirty: bool,
    /// Pressed/not-pressed snapshot of the 16 keys, each entry 0 or 1.
    pub keypad: Seq<u8>,
    /// Set by a quit signal; the run loop stops at its next check.
    pub halt: bool,
}

impl State {
    /// Well-formedness of the architectural state: all storage has its fixed
    /// size, the stack pointer stays within capacity, the index register
    /// stays inside the address space, and framebuffer and key snapshot hold
    /// only 0/1 entries.
    pub open spec fn wf(self) -> bool {
        &&& self.ram.len() == RAM_SIZE
        &&& self.v.len() == 16
        &&& self.stack.len() == STACK_SIZE
        &&& 0 <= self.sp <= STACK_SIZE
        &&& self.i < RAM_SIZE
        &&& self.vram.len() == VRAM_SIZE
        &&& self.keypad.len() == 16
        &&& forall|p: int| 0 <= p < VRAM_SIZE ==> self.vram[p] == 0 || self.vram[p] == 1
        &&& forall|k: int| 0 <= k < 16 ==> self.keypad[k] == 0 || self.keypad[k] == 1
    }
}

/// 8-bit addition wrapping modulo 256.
pub open spec fn wrap_add(a: u8, b: u8) -> u8 {
    if a + b < 256 {
        (a + b) as u8
    } else {
        (a + b - 256) as u8
    }
}

/// 8-bit subtraction wrapping modulo 256.
pub open spec fn wrap_sub(a: u8, b: u8) -> u8 {
    if a >= b {
        (a - b) as u8
    } else {
        (a - b + 256) as u8
    }
}

/// The 16 five-byte font glyphs for the hex digits 0-F, preloaded at
/// `FONTS_ADDR` when the processor is built.
pub open spec fn font_set() -> Seq<u8> {
    seq![
        0xF0u8, 0x90u8, 0x90u8, 0x90u8, 0xF0u8, // 0
        0x20u8, 0x60u8, 0x20u8, 0x20u8, 0x70u8, // 1
        0xF0u8, 0x10u8, 0xF0u8, 0x80u8, 0xF0u8, // 2
        0xF0u8, 0x10u8, 0xF0u8, 0x10u8, 0xF0u8, // 3
        0x90u8, 0x90u8, 0xF0u8, 0x10u8, 0x10u8, // 4
        0xF0u8, 0x80u8, 0xF0u8, 0x10u8, 0xF0u8, // 5
        0xF0u8, 0x80u8, 0xF0u8, 0x90u8, 0xF0u8, // 6
        0xF0u8, 0x10u8, 0x20u8, 0x40u8, 0x40u8, // 7
        0xF0u8, 0x90u8, 0xF0u8, 0x90u8, 0xF0u8, // 8
        0xF0u8, 0x90u8, 0xF0u8, 0x10u8, 0xF0u8, // 9
        0xF0u8, 0x90u8, 0xF0u8, 0x90u8, 0x90u8, // A
        0xE0u8, 0x90u8, 0xE0u8, 0x90u8, 0xE0u8, // B
        0xF0u8, 0x80u8, 0x80u8, 0x80u8, 0xF0u8, // C
        0xE0u8, 0x90u8, 0x90u8, 0x90u8, 0xE0u8, // D
        0xF0u8, 0x80u8, 0xF0u8, 0x80u8, 0xF0u8, // E
        0xF0u8, 0x80u8, 0xF0u8, 0x80u8, 0x80u8, // F
    ]
}

/// The state a freshly built processor is in: memory zeroed except for the
/// font glyphs, registers, stack, timers and framebuffer zeroed, the program
/// counter at `BASE_ADDR`.
pub open spec fn init_state() -> State {
    State {
        ram: Seq::new(
            RAM_SIZE as nat,
            |a: int|
                if FONTS_ADDR <= a < FONTS_ADDR + 80 {
                    font_set()[a - FONTS_ADDR]
                } else {
                    0u8
                },
        ),
        v: Seq::new(16, |k: int| 0u8),
        i: 0,
        pc: BASE_ADDR as u16,
        sp: 0,
        stack: Seq::new(STACK_SIZE as nat, |k: int| 0u16),
        delay_timer: 0,
        sound_timer: 0,
        vram: Seq::new(VRAM_SIZE as nat, |p: int| 0u8),
        vram_dirty: false,
        keypad: Seq::new(16, |k: int| 0u8),
        halt: false,
    }
}

} // verus!
