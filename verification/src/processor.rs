use vstd::prelude::*;

use crate::keypad::Input;
use crate::state::{
    font_set, init_state, State, BASE_ADDR, FONTS_ADDR, RAM_SIZE, SCREEN_HEIGHT, SCREEN_WIDTH,
    STACK_SIZE, VRAM_SIZE,
};
use crate::step::{
    col_weight, draw_row, draw_rows, draw_spec, fetch_spec, load_regs, step_rel, store_regs,
    Fault, Flow,
};
use rand::Rng;

verus! {

/// Loading a program can fail in exactly one way: the byte sequence does not
/// fit in the memory left above the program region's base address.
#[derive(Clone, Copy, Debug, PartialEq, Eq, Structural)]
pub enum LoadError {
    /// The program is longer than `RAM_SIZE - BASE_ADDR` bytes.
    TooLarge,
}

/// The interpreter core: owns every piece of architectural state. The run
/// loop around it calls `cycle` while `should_run` holds, renders the
/// framebuffer when `vram_dirty` is set, refreshes the key snapshot with
/// `set_keys` once per cycle, and applies `tick_timers` once per elapsed
/// timer interval.
pub struct Processor {
    /// Delay timer.
    pub delay_timer: u8,
    /// Set by a quit signal; makes `should_run` false.
    pub halt: bool,
    /// Index register.
    pub i: u16,
    /// Pressed/not-pressed snapshot of the 16 keys (entries 0 or 1).
    pub keypad: Vec<u8>,
    /// Program counter.
    pub pc: u16,
    /// Main memory, `RAM_SIZE` bytes.
    pub ram: Vec<u8>,
    /// Sound timer.
    pub sound_timer: u8,
    /// Stack pointer: number of live return addresses.
    pub sp: usize,
    /// Call stack storage, `STACK_SIZE` slots.
    pub stack: Vec<u16>,
    /// The 16 general registers; index 15 is the flag register.
    pub v: Vec<u8>,
    /// Framebuffer, `VRAM_SIZE` bytes (entries 0 or 1).
    pub vram: Vec<u8>,
    /// Set when a draw or clear changed the framebuffer.
    pub vram_dirty: bool,
}

impl View for Processor {
    type V = State;

    open spec fn view(&self) -> State {
        State {
            ram: self.ram@,
            v: self.v@,
            i: self.i,
            pc: self.pc,
            sp: self.sp as int,
            stack: self.stack@,
            delay_timer: self.delay_timer,
            sound_timer: self.sound_timer,
            vram: self.vram@,
            vram_dirty: self.vram_dirty,
            keypad: self.keypad@,
            halt: self.halt,
        }
    }
}

/// A vector of `n` zero bytes.
fn zero_bytes(n: usize) -> (r: Vec<u8>)
    ensures
        r@ == Seq::new(n as nat, |k: int| 0u8),
{
    let mut r: Vec<u8> = Vec::new();
    let mut k: usize = 0;
    while k < n
        invariant
            k <= n,
            r@ =~= Seq::new(k as nat, |j: int| 0u8),
        decreases n - k,
    {
        r.push(0);
        k = k + 1;
    }
    proof {
        assert(r@ =~= Seq::new(n as nat, |k: int| 0u8));
    }
    r
}

/// The font glyph bytes, in the order they are preloaded into memory.
fn font_bytes() -> (r: Vec<u8>)
    ensures
        r@ == font_set(),
{
    let r: Vec<u8> = vec![
        0xF0, 0x90, 0x90, 0x90, 0xF0, // 0
        0x20, 0x60, 0x20, 0x20, 0x70, // 1
        0xF0, 0x10, 0xF0, 0x80, 0xF0, // 2
        0xF0, 0x10, 0xF0, 0x10, 0xF0, // 3
        0x90, 0x90, 0xF0, 0x10, 0x10, // 4
        0xF0, 0x80, 0xF0, 0x10, 0xF0, // 5
        0xF0, 0x80, 0xF0, 0x90, 0xF0, // 6
        0xF0, 0x10, 0x20, 0x40, 0x40, // 7
        0xF0, 0x90, 0xF0, 0x90, 0xF0, // 8
        0xF0, 0x90, 0xF0, 0x10, 0xF0, // 9
        0xF0, 0x90, 0xF0, 0x90, 0x90, // A
        0xE0, 0x90, 0xE0, 0x90, 0xE0, // B
        0xF0, 0x80, 0x80, 0x80, 0xF0, // C
        0xE0, 0x90, 0x90, 0x90, 0xE0, // D
        0xF0, 0x80, 0xF0, 0x80, 0xF0, // E
        0xF0, 0x80, 0xF0, 0x80, 0x80, // F
    ];
    proof {
        assert(r@ =~= font_set());
    }
    r
}

/// What `load` guarantees: an oversize program is rejected with the state
/// unchanged; otherwise the bytes land verbatim at `BASE_ADDR` and the rest
/// of the state is untouched.
pub open spec fn load_rel(
    pre: State,
    data: Seq<u8>,
    r: Result<(), LoadError>,
    post: State,
) -> bool {
    if data.len() > RAM_SIZE - BASE_ADDR {
        r == Err::<(), LoadError>(LoadError::TooLarge) && post == pre
    } else {
        r == Ok::<(), LoadError>(()) && post == State {
            ram: Seq::new(
                RAM_SIZE as nat,
                |a: int|
                    if BASE_ADDR <= a < BASE_ADDR + data.len() {
                        data[a - BASE_ADDR]
                    } else {
                        pre.ram[a]
                    },
            ),
            ..pre
        }
    }
}

impl Processor {
    /// Build a processor in its start-up state: memory zeroed except for the
    /// font glyphs at `FONTS_ADDR`, all registers, stack, timers and
    /// framebuffer zeroed, and the counter at the program region's base.
    pub fn new() -> (p: Processor)
        ensures
            p@ == init_state(),
            p@.wf(),
    {
        let mut ram = zero_bytes(RAM_SIZE);
        let font = font_bytes();
        let mut k: usize = 0;
        while k < 80
            invariant
                k <= 80,
                ram@.len() == RAM_SIZE,
                font@ == font_set(),
                forall|a: int|
                    0 <= a < RAM_SIZE ==> ram@[a] == if FONTS_ADDR <= a < FONTS_ADDR + k {
                        font_set()[a - FONTS_ADDR]
                    } else {
                        0u8
                    },
            decreases 80 - k,
        {
            ram[FONTS_ADDR + k] = font[k];
            k = k + 1;
        }
        let p = Processor {
            delay_timer: 0,
            halt: false,
            i: 0,
            keypad: zero_bytes(16),
            pc: BASE_ADDR as u16,
            ram,
            sound_timer: 0,
            sp: 0,
            stack: zero_u16(STACK_SIZE),
            v: zero_bytes(16),
            vram: zero_bytes(VRAM_SIZE),
            vram_dirty: false,
        };
        proof {
            assert(p@.ram =~= init_state().ram);
            assert(p@ =~= init_state());
        }
        p
    }

    /// Copy a program verbatim into memory starting at `BASE_ADDR`. A
    /// sequence longer than the memory above that address is rejected whole,
    /// leaving the state unchanged, so that no byte is ever silently lost.
    pub fn load(&mut self, data: &Vec<u8>) -> (r: Result<(), LoadError>)
        requires
            old(self)@.wf(),
        ensures
            final(self)@.wf(),
            load_rel(old(self)@, data@, r, final(self)@),
    {
        if data.len() > RAM_SIZE - BASE_ADDR {
            return Err(LoadError::TooLarge);
        }
        let ghost pre = self@;
        let mut k: usize = 0;
        while k < data.len()
            invariant
                self@.wf(),
                k <= data@.len(),
                data@.len() <= RAM_SIZE - BASE_ADDR,
                self@ == (State { ram: self@.ram, ..pre }),
                self@.ram.len() == RAM_SIZE,
                forall|a: int|
                    0 <= a < RAM_SIZE ==> self@.ram[a] == if BASE_ADDR <= a < BASE_ADDR + k {
                        data@[a - BASE_ADDR]
                    } else {
                        pre.ram[a]
                    },
            decreases data@.len() - k,
        {
            self.ram[BASE_ADDR + k] = data[k];
            k = k + 1;
        }
        proof {
            assert(self@.ram =~= Seq::new(
                RAM_SIZE as nat,
                |a: int|
                    if BASE_ADDR <= a < BASE_ADDR + data@.len() {
                        data@[a - BASE_ADDR]
                    } else {
                        pre.ram[a]
                    },
            ));
            assert(self@ =~= State {
                ram: Seq::new(
                    RAM_SIZE as nat,
                    |a: int|
                        if BASE_ADDR <= a < BASE_ADDR + data@.len() {
                            data@[a - BASE_ADDR]
                        } else {
                            pre.ram[a]
                        },
                ),
                ..pre
            });
        }
        Ok(())
    }

    /// Read the two memory bytes at the counter as one opcode, most
    /// significant byte first.
    pub fn fetch_instruction(&self) -> (op: u16)
        requires
            self@.wf(),
            self.pc + 1 < RAM_SIZE,
        ensures
            op == fetch_spec(self@),
    {
        let hi = self.ram[self.pc as usize];
        let lo = self.ram[self.pc as usize + 1];
        (hi as u16) * 256 + (lo as u16)
    }
}

/// What `set_keys` guarantees: the snapshot is rebuilt from scratch for this
/// cycle — all keys unpressed, then the polled key (if any) marked pressed —
/// and a quit signal sets the halt flag instead.
pub open spec fn keys_rel(pre: State, input: Option<Input>, post: State) -> bool {
    let cleared = Seq::new(16, |k: int| 0u8);
    match input {
        Some(Input::Key(k)) => post == State { keypad: cleared.update(k as int, 1u8), ..pre },
        Some(Input::Quit) => post == State { keypad: cleared, halt: true, ..pre },
        None => post == State { keypad: cleared, ..pre },
    }
}

/// What `tick_timers` guarantees: each timer goes down by exactly one unless
/// it already reached zero, where it stays; nothing else changes.
pub open spec fn tick_rel(pre: State, post: State) -> bool {
    post == State {
        delay_timer: if pre.delay_timer > 0 {
            (pre.delay_timer - 1) as u8
        } else {
            0u8
        },
        sound_timer: if pre.sound_timer > 0 {
            (pre.sound_timer - 1) as u8
        } else {
            0u8
        },
        ..pre
    }
}

/// What `complete_wait_key` guarantees: a key stores its code in the waiting
/// register, a quit signal sets the halt flag instead.
pub open spec fn wait_key_rel(pre: State, x: int, input: Input, post: State) -> bool {
    match input {
        Input::Key(k) => post == State { v: pre.v.update(x, k), ..pre },
        Input::Quit => post == State { halt: true, ..pre },
    }
}

/// Relies on `rand::thread_rng` and `rand::Rng::gen::<u8>`: one byte from
/// the thread-local generator. Nothing is promised of its value.
#[verifier::external_body]
fn random_byte() -> u8 {
    rand::thread_rng().gen::<u8>()
}

/// Weight of sprite column `c` as an executable value: 128 for the leftmost
/// bit down to 1 for the rightmost.
fn col_mask(c: usize) -> (w: u8)
    requires
        c < 8,
    ensures
        w as int == col_weight(c as int),
        w > 0,
{
    match c {
        0 => 128,
        1 => 64,
        2 => 32,
        3 => 16,
        4 => 8,
        5 => 4,
        6 => 2,
        _ => 1,
    }
}

impl Processor {
    /// Draw the `n`-row sprite at memory address `i` at pixel
    /// (`v[x]`, `v[y]`), wrapping coordinates modulo the screen size,
    /// combining by exclusive-or, and leaving the collision flag in `v[15]`.
    fn draw_sprite(&mut self, x: usize, y: usize, n: usize)
        requires
            old(self)@.wf(),
            x < 16,
            y < 16,
            n < 16,
        ensures
            final(self)@.wf(),
            ({
                let dr = draw_spec(
                    old(self)@.vram,
                    old(self)@.ram,
                    old(self)@.i as int,
                    old(self)@.v[x as int] as int,
                    old(self)@.v[y as int] as int,
                    n as int,
                );
                final(self)@ == (State {
                    vram: dr.0,
                    v: old(self)@.v.update(
                        15,
                        if dr.1 {
                            1u8
                        } else {
                            0u8
                        },
                    ),
                    vram_dirty: true,
                    ..old(self)@
                })
            }),
    {
        let ghost pre = self@;
        let x0 = self.v[x] as usize;
        let y0 = self.v[y] as usize;
        let mut collision: bool = false;
        let mut r: usize = 0;
        while r < n
            invariant
                pre.wf(),
                x < 16,
                y < 16,
                n < 16,
                r <= n,
                x0 == pre.v[x as int] as usize,
                y0 == pre.v[y as int] as usize,
                self@ == (State { vram: self.vram@, ..pre }),
                self.vram@.len() == VRAM_SIZE,
                forall|p: int| 0 <= p < VRAM_SIZE ==> self.vram@[p] == 0 || self.vram@[p] == 1,
                self.vram@ == draw_rows(
                    (pre.vram, false),
                    pre.ram,
                    pre.i as int,
                    x0 as int,
                    y0 as int,
                    r as int,
                ).0,
                collision == draw_rows(
                    (pre.vram, false),
                    pre.ram,
                    pre.i as int,
                    x0 as int,
                    y0 as int,
                    r as int,
                ).1,
            decreases n - r,
        {
            let row_byte = self.ram[(self.i as usize + r) % RAM_SIZE];
            let mut c: usize = 0;
            while c < 8
                invariant
                    pre.wf(),
                    x < 16,
                    y < 16,
                    n < 16,
                    r < n,
                    c <= 8,
                    x0 == pre.v[x as int] as usize,
                    y0 == pre.v[y as int] as usize,
                    row_byte == pre.ram[(pre.i + r) % (RAM_SIZE as int)],
                    self@ == (State { vram: self.vram@, ..pre }),
                    self.vram@.len() == VRAM_SIZE,
                    forall|p: int|
                        0 <= p < VRAM_SIZE ==> self.vram@[p] == 0 || self.vram@[p] == 1,
                    self.vram@ == draw_row(
                        draw_rows(
                            (pre.vram, false),
                            pre.ram,
                            pre.i as int,
                            x0 as int,
                            y0 as int,
                            r as int,
                        ),
                        x0 as int,
                        y0 as int,
                        row_byte,
                        r as int,
                        c as int,
                    ).0,
                    collision == draw_row(
                        draw_rows(
                            (pre.vram, false),
                            pre.ram,
                            pre.i as int,
                            x0 as int,
                            y0 as int,
                            r as int,
                        ),
                        x0 as int,
                        y0 as int,
                        row_byte,
                        r as int,
                        c as int,
                    ).1,
                decreases 8 - c,
            {
                let w = col_mask(c);
                let bit = (row_byte / w) % 2;
                let px = (x0 + c) % SCREEN_WIDTH;
                let py = (y0 + r) % SCREEN_HEIGHT;
                let pos = py * SCREEN_WIDTH + px;
                let old_pix = self.vram[pos];
                if old_pix == 1 && bit == 1 {
                    collision = true;
                }
                self.vram[pos] = (old_pix + bit) % 2;
                c = c + 1;
            }
            r = r + 1;
        }
        self.v[0xF] = if collision {
            1
        } else {
            0
        };
        self.vram_dirty = true;
        proof {
            let dr = draw_spec(
                pre.vram,
                pre.ram,
                pre.i as int,
                pre.v[x as int] as int,
                pre.v[y as int] as int,
                n as int,
            );
            assert(self@ =~= State {
                vram: dr.0,
                v: pre.v.update(
                    15,
                    if dr.1 {
                        1u8
                    } else {
                        0u8
                    },
                ),
                vram_dirty: true,
                ..pre
            });
        }
    }

    /// Block-copy registers `v[0]..=v[x]` to memory starting at `i`.
    fn dump_registers(&mut self, x: usize)
        requires
            old(self)@.wf(),
            x < 16,
        ensures
            final(self)@.wf(),
            final(self)@ == (State {
                ram: store_regs(old(self)@.ram, old(self)@.v, old(self)@.i as int, x as int + 1),
                ..old(self)@
            }),
    {
        let ghost pre = self@;
        let mut k: usize = 0;
        while k <= x
            invariant
                pre.wf(),
                x < 16,
                k <= x + 1,
                self@ == (State { ram: self.ram@, ..pre }),
                self.ram@.len() == RAM_SIZE,
                self.ram@ == store_regs(pre.ram, pre.v, pre.i as int, k as int),
            decreases x + 1 - k,
        {
            let addr = (self.i as usize + k) % RAM_SIZE;
            let value = self.v[k];
            self.ram[addr] = value;
            k = k + 1;
        }
    }

    /// Block-load registers `v[0]..=v[x]` from memory starting at `i`.
    fn load_registers(&mut self, x: usize)
        requires
            old(self)@.wf(),
            x < 16,
        ensures
            final(self)@.wf(),
            final(self)@ == (State {
                v: load_regs(old(self)@.ram, old(self)@.v, old(self)@.i as int, x as int + 1),
                ..old(self)@
            }),
    {
        let ghost pre = self@;
        let mut k: usize = 0;
        while k <= x
            invariant
                pre.wf(),
                x < 16,
                k <= x + 1,
                self@ == (State { v: self.v@, ..pre }),
                self.v@.len() == 16,
                self.v@ == load_regs(pre.ram, pre.v, pre.i as int, k as int),
            decreases x + 1 - k,
        {
            let addr = (self.i as usize + k) % RAM_SIZE;
            let value = self.ram[addr];
            self.v[k] = value;
            k = k + 1;
        }
    }

    /// Decode and execute one opcode, leaving the counter on the next
    /// instruction to run: two past this one (four when a skip was taken),
    /// or exactly on the target of a jump, call or return. The returned
    /// `Flow` tells the run loop whether to carry on or wait for a key; a
    /// `Fault` reports an unknown opcode or a stack violation with the state
    /// unchanged. The whole effect is pinned down by `step_rel`.
    #[verifier::rlimit(50)]
    pub fn process_opcode(&mut self, opcode: u16) -> (r: Result<Flow, Fault>)
        requires
            old(self)@.wf(),
            old(self).pc + 1 < RAM_SIZE,
        ensures
            final(self)@.wf(),
            step_rel(old(self)@, opcode, r, final(self)@),
    {
        let x = ((opcode / 0x100) % 16) as usize;
        let y = ((opcode / 16) % 16) as usize;
        let n = (opcode % 16) as usize;
        let nn = (opcode % 256) as u8;
        let nnn = opcode % 0x1000;
        let fam = opcode / 0x1000;
        let low = opcode % 256;
        let flow: Flow = match fam {
            0x0 => {
                if opcode == 0x00E0 {
                    self.vram = zero_bytes(VRAM_SIZE);
                    self.vram_dirty = true;
                    Flow::Advance
                } else if opcode == 0x00EE {
                    if self.sp == 0 {
                        return Err(Fault::StackUnderflow { pc: self.pc, depth: 0 });
                    }
                    self.sp = self.sp - 1;
                    self.pc = self.stack[self.sp];
                    Flow::Jump
                } else {
                    return Err(Fault::Decode { pc: self.pc, opcode });
                }
            },
            0x1 => {
                self.pc = nnn;
                Flow::Jump
            },
            0x2 => {
                if self.sp == STACK_SIZE {
                    return Err(Fault::StackOverflow { pc: self.pc, depth: STACK_SIZE });
                }
                let ret = self.pc + 2;
                self.stack[self.sp] = ret;
                self.sp = self.sp + 1;
                self.pc = nnn;
                Flow::Jump
            },
            0x3 => {
                if self.v[x] == nn {
                    self.pc = self.pc + 2;
                }
                Flow::Advance
            },
            0x4 => {
                if self.v[x] != nn {
                    self.pc = self.pc + 2;
                }
                Flow::Advance
            },
            0x5 => {
                if opcode % 16 != 0 {
                    return Err(Fault::Decode { pc: self.pc, opcode });
                }
                if self.v[x] == self.v[y] {
                    self.pc = self.pc + 2;
                }
                Flow::Advance
            },
            0x6 => {
                self.v[x] = nn;
                Flow::Advance
            },
            0x7 => {
                let a = self.v[x];
                let sum = a as u16 + nn as u16;
                self.v[x] = if sum < 256 {
                    sum as u8
                } else {
                    (sum - 256) as u8
                };
                Flow::Advance
            },
            0x8 => {
                let d = opcode % 16;
                if d == 0x0 {
                    let b = self.v[y];
                    self.v[x] = b;
                    Flow::Advance
                } else if d == 0x1 {
                    let a = self.v[x];
                    let b = self.v[y];
                    self.v[x] = a | b;
                    Flow::Advance
                } else if d == 0x2 {
                    let a = self.v[x];
                    let b = self.v[y];
                    self.v[x] = a & b;
                    Flow::Advance
                } else if d == 0x3 {
                    let a = self.v[x];
                    let b = self.v[y];
                    self.v[x] = a ^ b;
                    Flow::Advance
                } else if d == 0x4 {
                    let a = self.v[x];
                    let b = self.v[y];
                    let sum = a as u16 + b as u16;
                    self.v[x] = if sum < 256 {
                        sum as u8
                    } else {
                        (sum - 256) as u8
                    };
                    self.v[0xF] = if sum > 255 {
                        1
                    } else {
                        0
                    };
                    Flow::Advance
                } else if d == 0x5 {
                    let a = self.v[x];
                    let b = self.v[y];
                    self.v[x] = if a >= b {
                        a - b
                    } else {
                        (a as u16 + 256 - b as u16) as u8
                    };
                    self.v[0xF] = if a >= b {
                        1
                    } else {
                        0
                    };
                    Flow::Advance
                } else if d == 0x6 {
                    let a = self.v[x];
                    self.v[0xF] = a % 2;
                    let s = self.v[x];
                    self.v[x] = s / 2;
                    Flow::Advance
                } else if d == 0x7 {
                    let a = self.v[x];
                    let b = self.v[y];
                    self.v[0xF] = if b < a {
                        0
                    } else {
                        1
                    };
                    let b2 = self.v[y];
                    let a2 = self.v[x];
                    self.v[x] = if b2 >= a2 {
                        b2 - a2
                    } else {
                        (b2 as u16 + 256 - a2 as u16) as u8
                    };
                    Flow::Advance
                } else if d == 0xE {
                    let a = self.v[x];
                    self.v[0xF] = a / 128;
                    let s = self.v[x];
                    self.v[x] = if s < 128 {
                        s * 2
                    } else {
                        (s as u16 * 2 - 256) as u8
                    };
                    Flow::Advance
                } else {
                    return Err(Fault::Decode { pc: self.pc, opcode });
                }
            },
            0x9 => {
                if opcode % 16 != 0 {
                    return Err(Fault::Decode { pc: self.pc, opcode });
                }
                if self.v[x] != self.v[y] {
                    self.pc = self.pc + 2;
                }
                Flow::Advance
            },
            0xA => {
                self.i = nnn;
                Flow::Advance
            },
            0xB => {
                self.pc = nnn + self.v[0] as u16;
                Flow::Jump
            },
            0xC => {
                let ghost pre = self@;
                self.randomize_register(x, nn);
                let ghost mid = self@;
                self.pc = self.pc + 2;
                proof {
                    let b0 = choose|b: u8|
                        mid == (State {
                            v: pre.v.update(x as int, #[trigger] (b & nn)),
                            ..pre
                        });
                    assert(self@ == (State {
                        v: pre.v.update(x as int, b0 & nn),
                        pc: (pre.pc + 2) as u16,
                        ..pre
                    }));
                }
                return Ok(Flow::Advance);
            },
            0xD => {
                self.draw_sprite(x, y, n);
                Flow::Advance
            },
            0xE => {
                if low == 0x9E {
                    let key = (self.v[x] % 16) as usize;
                    if self.keypad[key] != 0 {
                        self.pc = self.pc + 2;
                    }
                    Flow::Advance
                } else if low == 0xA1 {
                    let key = (self.v[x] % 16) as usize;
                    if self.keypad[key] == 0 {
                        self.pc = self.pc + 2;
                    }
                    Flow::Advance
                } else {
                    return Err(Fault::Decode { pc: self.pc, opcode });
                }
            },
            0xF => {
                if low == 0x07 {
                    let t = self.delay_timer;
                    self.v[x] = t;
                    Flow::Advance
                } else if low == 0x0A {
                    Flow::AwaitKey(x as u8)
                } else if low == 0x15 {
                    self.delay_timer = self.v[x];
                    Flow::Advance
                } else if low == 0x18 {
                    self.sound_timer = self.v[x];
                    Flow::Advance
                } else if low == 0x1E {
                    self.i = ((self.i as usize + self.v[x] as usize) % RAM_SIZE) as u16;
                    Flow::Advance
                } else if low == 0x29 {
                    self.i = FONTS_ADDR as u16 + (self.v[x] as u16) * 5;
                    Flow::Advance
                } else if low == 0x33 {
                    let a = self.v[x];
                    let i0 = self.i as usize;
                    self.ram[i0] = a / 100;
                    self.ram[(i0 + 1) % RAM_SIZE] = (a % 100) / 10;
                    self.ram[(i0 + 2) % RAM_SIZE] = a % 10;
                    Flow::Advance
                } else if low == 0x55 {
                    self.dump_registers(x);
                    Flow::Advance
                } else if low == 0x65 {
                    self.load_registers(x);
                    Flow::Advance
                } else {
                    return Err(Fault::Decode { pc: self.pc, opcode });
                }
            },
            _ => {
                return Err(Fault::Decode { pc: self.pc, opcode });
            },
        };
        match flow {
            Flow::Jump => {},
            _ => {
                self.pc = self.pc + 2;
            },
        }
        Ok(flow)
    }

    /// Fetch the opcode at the counter and execute it: one full instruction
    /// cycle apart from rendering, input polling and the timer tick, which
    /// the run loop does around it.
    pub fn cycle(&mut self) -> (r: Result<Flow, Fault>)
        requires
            old(self)@.wf(),
            old(self).pc + 1 < RAM_SIZE,
        ensures
            final(self)@.wf(),
            step_rel(old(self)@, fetch_spec(old(self)@), r, final(self)@),
    {
        let opcode = self.fetch_instruction();
        self.process_opcode(opcode)
    }

    /// Rebuild the key snapshot for this cycle from one non-blocking poll
    /// result: no event leaves every key unpressed, a key event marks that
    /// key alone as pressed, a quit signal sets the halt flag.
    pub fn set_keys(&mut self, input: Option<Input>)
        requires
            old(self)@.wf(),
            input matches Some(Input::Key(k)) ==> k < 16,
        ensures
            final(self)@.wf(),
            keys_rel(old(self)@, input, final(self)@),
    {
        let ghost pre = self@;
        self.keypad = zero_bytes(16);
        match input {
            Some(Input::Key(k)) => {
                self.keypad[k as usize] = 1;
                proof {
                    assert(self@ =~= State {
                        keypad: Seq::new(16, |j: int| 0u8).update(k as int, 1u8),
                        ..pre
                    });
                }
            },
            Some(Input::Quit) => {
                self.halt = true;
                proof {
                    assert(self@ =~= State {
                        keypad: Seq::new(16, |j: int| 0u8),
                        halt: true,
                        ..pre
                    });
                }
            },
            None => {
                proof {
                    assert(self@ =~= State { keypad: Seq::new(16, |j: int| 0u8), ..pre });
                }
            },
        }
    }

    /// Apply one timer tick: each timer counts down by one and stops at
    /// zero. The run loop calls this at most once per elapsed timer
    /// interval, so the timers never fall faster than that cadence.
    pub fn tick_timers(&mut self)
        requires
            old(self)@.wf(),
        ensures
            final(self)@.wf(),
            tick_rel(old(self)@, final(self)@),
    {
        if self.delay_timer > 0 {
            self.delay_timer = self.delay_timer - 1;
        }
        if self.sound_timer > 0 {
            self.sound_timer = self.sound_timer - 1;
        }
    }

    /// Finish a key-wait suspension (`Flow::AwaitKey`): store the key code
    /// in the waiting register, or set the halt flag on a quit signal.
    pub fn complete_wait_key(&mut self, x: u8, input: Input)
        requires
            old(self)@.wf(),
            x < 16,
        ensures
            final(self)@.wf(),
            wait_key_rel(old(self)@, x as int, input, final(self)@),
    {
        match input {
            Input::Key(k) => {
                self.v[x as usize] = k;
            },
            Input::Quit => {
                self.halt = true;
            },
        }
    }

    /// Whether the run loop should execute another cycle: no halt was
    /// requested and the counter still references a whole instruction
    /// inside memory.
    pub fn should_run(&self) -> (r: bool)
        ensures
            r == (!self@.halt && self@.pc + 1 < RAM_SIZE),
    {
        !self.halt && (self.pc as usize) + 1 < RAM_SIZE
    }

    /// Store a fresh random byte, masked by `nn`, into `v[x]`.
    fn randomize_register(&mut self, x: usize, nn: u8)
        requires
            old(self)@.wf(),
            x < 16,
        ensures
            final(self)@.wf(),
            exists|b: u8|
                final(self)@ == (State {
                    v: old(self)@.v.update(x as int, #[trigger] (b & nn)),
                    ..old(self)@
                }),
    {
        let b = random_byte();
        let masked = b & nn;
        self.v[x] = masked;
        proof {
            assert(self@ =~= State { v: old(self)@.v.update(x as int, b & nn), ..old(self)@ });
        }
    }
}

/// A vector of `n` zeroed 16-bit words.
fn zero_u16(n: usize) -> (r: Vec<u16>)
    ensures
        r@ == Seq::new(n as nat, |k: int| 0u16),
{
    let mut r: Vec<u16> = Vec::new();
    let mut k: usize = 0;
    while k < n
        invariant
            k <= n,
            r@ =~= Seq::new(k as nat, |j: int| 0u16),
        decreases n - k,
    {
        r.push(0);
        k = k + 1;
    }
    proof {
        assert(r@ =~= Seq::new(n as nat, |k: int| 0u16));
    }
    r
}

} // verus!
