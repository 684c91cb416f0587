use vstd::prelude::*;

use crate::state::{
    State, wrap_add, wrap_sub, FONTS_ADDR, RAM_SIZE, SCREEN_HEIGHT, SCREEN_WIDTH, STACK_SIZE,
    VRAM_SIZE,
};

verus! {

/// What the run loop must do after one instruction: carry on at the already
/// advanced counter, carry on at a jump target (no extra advance), or suspend
/// until a key event arrives and store its code in the named register.
#[derive(Clone, Copy, Debug, PartialEq, Eq, Structural)]
pub enum Flow {
    /// The counter was advanced past the instruction (including a taken skip).
    Advance,
    /// A jump, call or return placed the counter exactly on its target.
    Jump,
    /// Execution is suspended until a key event arrives; its code goes into
    /// the register with this index.
    AwaitKey(u8),
}

/// A fatal condition: the machine must halt and surface it to the caller.
#[derive(Clone, Copy, Debug, PartialEq, Eq, Structural)]
pub enum Fault {
    /// The opcode matches no documented instruction.
    Decode { pc: u16, opcode: u16 },
    /// A call was attempted with the call stack already full.
    StackOverflow { pc: u16, depth: usize },
    /// A return was attempted with the call stack empty.
    StackUnderflow { pc: u16, depth: usize },
}

/// The successful outcome `f`, with the result type pinned down.
pub open spec fn ok_flow(f: Flow) -> Result<Flow, Fault> {
    Ok(f)
}

/// The fatal outcome `f`, with the result type pinned down.
pub open spec fn fault(f: Fault) -> Result<Flow, Fault> {
    Err(f)
}

/// Top nibble of an opcode: the instruction family.
pub open spec fn op_fam(op: u16) -> int {
    op as int / 0x1000
}

/// Register index operand `x` (bits 8-11).
pub open spec fn op_x(op: u16) -> int {
    (op as int / 0x100) % 16
}

/// Register index operand `y` (bits 4-7).
pub open spec fn op_y(op: u16) -> int {
    (op as int / 16) % 16
}

/// 4-bit immediate `n` (bits 0-3).
pub open spec fn op_n(op: u16) -> int {
    op as int % 16
}

/// 8-bit immediate `nn` (low byte).
pub open spec fn op_nn(op: u16) -> u8 {
    (op as int % 256) as u8
}

/// Low byte of the opcode as a plain integer, used to tell the `Ex` and `Fx`
/// variants apart.
pub open spec fn op_low(op: u16) -> int {
    op as int % 256
}

/// 12-bit address operand `nnn`.
pub open spec fn op_nnn(op: u16) -> u16 {
    (op as int % 0x1000) as u16
}

/// The 16-bit opcode fetched at the counter: most-significant byte first.
pub open spec fn fetch_spec(s: State) -> u16 {
    (s.ram[s.pc as int] * 256 + s.ram[s.pc as int + 1]) as u16
}

/// The counter after a conditional skip: two bytes past the instruction, or
/// four when the condition made it skip the following instruction as well.
pub open spec fn skip_pc(pc: u16, cond: bool) -> u16 {
    if cond {
        (pc + 4) as u16
    } else {
        (pc + 2) as u16
    }
}

/// Weight of sprite column `c` within a row byte: column 0 is the
/// most-significant bit.
pub open spec fn col_weight(c: int) -> int {
    if c == 0 {
        128
    } else if c == 1 {
        64
    } else if c == 2 {
        32
    } else if c == 3 {
        16
    } else if c == 4 {
        8
    } else if c == 5 {
        4
    } else if c == 6 {
        2
    } else {
        1
    }
}

/// Bit of sprite row byte `b` at column `c` (0 = leftmost), as 0 or 1.
pub open spec fn sprite_bit(b: u8, c: int) -> u8 {
    ((b as int / col_weight(c)) % 2) as u8
}

/// Index of the framebuffer byte for pixel (`col`, `row`).
pub open spec fn pix(row: int, col: int) -> int {
    row * (SCREEN_WIDTH as int) + col
}

/// Framebuffer and collision flag after drawing the first `c` columns of one
/// sprite row: each source bit is combined into the (coordinate-wrapped)
/// target pixel by exclusive-or, and a collision is any set pixel flipped to
/// unset.
pub open spec fn draw_row(
    st: (Seq<u8>, bool),
    x0: int,
    y0: int,
    row_byte: u8,
    r: int,
    c: int,
) -> (Seq<u8>, bool)
    decreases c,
{
    if c <= 0 {
        st
    } else {
        let prev = draw_row(st, x0, y0, row_byte, r, c - 1);
        let p = pix((y0 + r) % (SCREEN_HEIGHT as int), (x0 + c - 1) % (SCREEN_WIDTH as int));
        let bit = sprite_bit(row_byte, c - 1);
        (
            prev.0.update(p, ((prev.0[p] + bit) % 2) as u8),
            prev.1 || (prev.0[p] == 1 && bit == 1),
        )
    }
}

/// Framebuffer and collision flag after drawing the first `r` rows of a
/// sprite read from memory at `i`, eight columns per row.
pub open spec fn draw_rows(
    st: (Seq<u8>, bool),
    ram: Seq<u8>,
    i: int,
    x0: int,
    y0: int,
    r: int,
) -> (Seq<u8>, bool)
    decreases r,
{
    if r <= 0 {
        st
    } else {
        let prev = draw_rows(st, ram, i, x0, y0, r - 1);
        draw_row(prev, x0, y0, ram[(i + r - 1) % (RAM_SIZE as int)], r - 1, 8)
    }
}

/// Effect of a full `n`-row sprite draw at pixel (`x0`, `y0`): the new
/// framebuffer and whether any collision occurred.
pub open spec fn draw_spec(
    vram: Seq<u8>,
    ram: Seq<u8>,
    i: int,
    x0: int,
    y0: int,
    n: int,
) -> (Seq<u8>, bool) {
    draw_rows((vram, false), ram, i, x0, y0, n)
}

/// Memory after block-copying registers 0 up to (exclusive) `k` to the
/// addresses starting at `i`, wrapped within the address space.
pub open spec fn store_regs(ram: Seq<u8>, v: Seq<u8>, i: int, k: int) -> Seq<u8>
    decreases k,
{
    if k <= 0 {
        ram
    } else {
        store_regs(ram, v, i, k - 1).update((i + k - 1) % (RAM_SIZE as int), v[k - 1])
    }
}

/// Registers after block-loading registers 0 up to (exclusive) `k` from the
/// addresses starting at `i`, wrapped within the address space.
pub open spec fn load_regs(ram: Seq<u8>, v: Seq<u8>, i: int, k: int) -> Seq<u8>
    decreases k,
{
    if k <= 0 {
        v
    } else {
        load_regs(ram, v, i, k - 1).update(k - 1, ram[(i + k - 1) % (RAM_SIZE as int)])
    }
}

/// The dispatch relation: how one decoded instruction takes the machine from
/// `pre` to `post`, and what it returns. It is total over all 16-bit opcodes;
/// any opcode outside the documented instruction set yields a decode fault
/// carrying the faulting counter and the raw opcode, with the state
/// unchanged, and so does a call past the stack capacity or a return with an
/// empty stack.
pub open spec fn step_rel(pre: State, op: u16, r: Result<Flow, Fault>, post: State) -> bool {
    let x = op_x(op);
    let y = op_y(op);
    let n = op_n(op);
    let nn = op_nn(op);
    let nnn = op_nnn(op);
    let low = op_low(op);
    let fam = op_fam(op);
    let d = op_n(op);
    if op == 0x00E0 {
        // clear the framebuffer and mark it dirty
        r == ok_flow(Flow::Advance) && post == State {
            vram: Seq::new(VRAM_SIZE as nat, |p: int| 0u8),
            vram_dirty: true,
            pc: (pre.pc + 2) as u16,
            ..pre
        }
    } else if op == 0x00EE {
        // return from subroutine
        if pre.sp == 0 {
            r == fault(Fault::StackUnderflow { pc: pre.pc, depth: 0 }) && post == pre
        } else {
            r == ok_flow(Flow::Jump) && post == State {
                sp: pre.sp - 1,
                pc: pre.stack[pre.sp - 1],
                ..pre
            }
        }
    } else if fam == 0x1 {
        // jump to nnn
        r == ok_flow(Flow::Jump) && post == State { pc: nnn, ..pre }
    } else if fam == 0x2 {
        // call subroutine at nnn, pushing the address of the next instruction
        if pre.sp == STACK_SIZE {
            r == fault(Fault::StackOverflow { pc: pre.pc, depth: STACK_SIZE as usize }) && post
                == pre
        } else {
            r == ok_flow(Flow::Jump) && post == State {
                stack: pre.stack.update(pre.sp, (pre.pc + 2) as u16),
                sp: pre.sp + 1,
                pc: nnn,
                ..pre
            }
        }
    } else if fam == 0x3 {
        // skip next if v[x] == nn
        r == ok_flow(Flow::Advance) && post == State { pc: skip_pc(pre.pc, pre.v[x] == nn), ..pre }
    } else if fam == 0x4 {
        // skip next if v[x] != nn
        r == ok_flow(Flow::Advance) && post == State { pc: skip_pc(pre.pc, pre.v[x] != nn), ..pre }
    } else if fam == 0x5 {
        // skip next if v[x] == v[y]
        if d == 0 {
            r == ok_flow(Flow::Advance) && post == State {
                pc: skip_pc(pre.pc, pre.v[x] == pre.v[y]),
                ..pre
            }
        } else {
            r == fault(Fault::Decode { pc: pre.pc, opcode: op }) && post == pre
        }
    } else if fam == 0x6 {
        // v[x] = nn
        r == ok_flow(Flow::Advance) && post == State {
            v: pre.v.update(x, nn),
            pc: (pre.pc + 2) as u16,
            ..pre
        }
    } else if fam == 0x7 {
        // v[x] += nn, wrapping, no flag effect
        r == ok_flow(Flow::Advance) && post == State {
            v: pre.v.update(x, wrap_add(pre.v[x], nn)),
            pc: (pre.pc + 2) as u16,
            ..pre
        }
    } else if fam == 0x8 {
        if d == 0x0 {
            // v[x] = v[y]
            r == ok_flow(Flow::Advance) && post == State {
                v: pre.v.update(x, pre.v[y]),
                pc: (pre.pc + 2) as u16,
                ..pre
            }
        } else if d == 0x1 {
            // v[x] |= v[y], flag untouched
            r == ok_flow(Flow::Advance) && post == State {
                v: pre.v.update(x, pre.v[x] | pre.v[y]),
                pc: (pre.pc + 2) as u16,
                ..pre
            }
        } else if d == 0x2 {
            // v[x] &= v[y], flag untouched
            r == ok_flow(Flow::Advance) && post == State {
                v: pre.v.update(x, pre.v[x] & pre.v[y]),
                pc: (pre.pc + 2) as u16,
                ..pre
            }
        } else if d == 0x3 {
            // v[x] ^= v[y], flag untouched
            r == ok_flow(Flow::Advance) && post == State {
                v: pre.v.update(x, pre.v[x] ^ pre.v[y]),
                pc: (pre.pc + 2) as u16,
                ..pre
            }
        } else if d == 0x4 {
            // v[x] += v[y]; flag = 1 exactly when the unwrapped sum exceeds
            // 255 (the flag write comes second, so it wins when x is 15)
            r == ok_flow(Flow::Advance) && post == State {
                v: pre.v.update(x, wrap_add(pre.v[x], pre.v[y])).update(
                    15,
                    if pre.v[x] + pre.v[y] > 255 {
                        1u8
                    } else {
                        0u8
                    },
                ),
                pc: (pre.pc + 2) as u16,
                ..pre
            }
        } else if d == 0x5 {
            // v[x] -= v[y]; flag = 1 exactly when no borrow occurred
            r == ok_flow(Flow::Advance) && post == State {
                v: pre.v.update(x, wrap_sub(pre.v[x], pre.v[y])).update(
                    15,
                    if pre.v[x] >= pre.v[y] {
                        1u8
                    } else {
                        0u8
                    },
                ),
                pc: (pre.pc + 2) as u16,
                ..pre
            }
        } else if d == 0x6 {
            // shift right; flag = bit 0 of the operand before shifting,
            // written first, so the value shifted is read after that write
            r == ok_flow(Flow::Advance) && post == State {
                v: ({
                    let v1 = pre.v.update(15, (pre.v[x] % 2) as u8);
                    v1.update(x, (v1[x] / 2) as u8)
                }),
                pc: (pre.pc + 2) as u16,
                ..pre
            }
        } else if d == 0x7 {
            // v[x] = v[y] - v[x]; flag = 1 exactly when no borrow occurred,
            // written first
            r == ok_flow(Flow::Advance) && post == State {
                v: ({
                    let v1 = pre.v.update(
                        15,
                        if pre.v[y] < pre.v[x] {
                            0u8
                        } else {
                            1u8
                        },
                    );
                    v1.update(x, wrap_sub(v1[y], v1[x]))
                }),
                pc: (pre.pc + 2) as u16,
                ..pre
            }
        } else if d == 0xE {
            // shift left; flag = bit 7 of the operand before shifting,
            // normalized to 0 or 1 and written first
            r == ok_flow(Flow::Advance) && post == State {
                v: ({
                    let v1 = pre.v.update(15, (pre.v[x] / 128) as u8);
                    v1.update(
                        x,
                        if v1[x] < 128 {
                            (v1[x] * 2) as u8
                        } else {
                            (v1[x] * 2 - 256) as u8
                        },
                    )
                }),
                pc: (pre.pc + 2) as u16,
                ..pre
            }
        } else {
            r == fault(Fault::Decode { pc: pre.pc, opcode: op }) && post == pre
        }
    } else if fam == 0x9 {
        // skip next if v[x] != v[y]
        if d == 0 {
            r == ok_flow(Flow::Advance) && post == State {
                pc: skip_pc(pre.pc, pre.v[x] != pre.v[y]),
                ..pre
            }
        } else {
            r == fault(Fault::Decode { pc: pre.pc, opcode: op }) && post == pre
        }
    } else if fam == 0xA {
        // i = nnn
        r == ok_flow(Flow::Advance) && post == State { i: nnn, pc: (pre.pc + 2) as u16, ..pre }
    } else if fam == 0xB {
        // jump to nnn + v[0]
        r == ok_flow(Flow::Jump) && post == State { pc: (nnn + pre.v[0]) as u16, ..pre }
    } else if fam == 0xC {
        // v[x] = random byte & nn: some byte, whichever the generator gave
        r == ok_flow(Flow::Advance) && exists|b: u8|
            post == State { v: pre.v.update(x, b & nn), pc: (pre.pc + 2) as u16, ..pre }
    } else if fam == 0xD {
        // draw an n-row sprite from memory at i, at pixel (v[x], v[y]);
        // flag = 1 exactly when a set pixel was flipped to unset
        let dr = draw_spec(pre.vram, pre.ram, pre.i as int, pre.v[x] as int, pre.v[y] as int, n);
        r == ok_flow(Flow::Advance) && post == State {
            vram: dr.0,
            v: pre.v.update(
                15,
                if dr.1 {
                    1u8
                } else {
                    0u8
                },
            ),
            vram_dirty: true,
            pc: (pre.pc + 2) as u16,
            ..pre
        }
    } else if fam == 0xE {
        if low == 0x9E {
            // skip next if key v[x] is pressed
            r == ok_flow(Flow::Advance) && post == State {
                pc: skip_pc(pre.pc, pre.keypad[pre.v[x] as int % 16] == 1),
                ..pre
            }
        } else if low == 0xA1 {
            // skip next if key v[x] is not pressed
            r == ok_flow(Flow::Advance) && post == State {
                pc: skip_pc(pre.pc, pre.keypad[pre.v[x] as int % 16] != 1),
                ..pre
            }
        } else {
            r == fault(Fault::Decode { pc: pre.pc, opcode: op }) && post == pre
        }
    } else if fam == 0xF {
        if low == 0x07 {
            // v[x] = delay timer
            r == ok_flow(Flow::Advance) && post == State {
                v: pre.v.update(x, pre.delay_timer),
                pc: (pre.pc + 2) as u16,
                ..pre
            }
        } else if low == 0x0A {
            // suspend until a key press, which will be stored in v[x]
            r == ok_flow(Flow::AwaitKey(x as u8)) && post == State { pc: (pre.pc + 2) as u16, ..pre }
        } else if low == 0x15 {
            // delay timer = v[x]
            r == ok_flow(Flow::Advance) && post == State {
                delay_timer: pre.v[x],
                pc: (pre.pc + 2) as u16,
                ..pre
            }
        } else if low == 0x18 {
            // sound timer = v[x]
            r == ok_flow(Flow::Advance) && post == State {
                sound_timer: pre.v[x],
                pc: (pre.pc + 2) as u16,
                ..pre
            }
        } else if low == 0x1E {
            // i += v[x], kept within the 12-bit address space
            r == ok_flow(Flow::Advance) && post == State {
                i: ((pre.i + pre.v[x]) % (RAM_SIZE as int)) as u16,
                pc: (pre.pc + 2) as u16,
                ..pre
            }
        } else if low == 0x29 {
            // i = address of the font glyph for the hex digit v[x]
            r == ok_flow(Flow::Advance) && post == State {
                i: (FONTS_ADDR + pre.v[x] * 5) as u16,
                pc: (pre.pc + 2) as u16,
                ..pre
            }
        } else if low == 0x33 {
            // decompose v[x] into three decimal digits at i, i+1, i+2
            r == ok_flow(Flow::Advance) && post == State {
                ram: pre.ram.update(pre.i as int, (pre.v[x] / 100) as u8).update(
                    (pre.i + 1) % (RAM_SIZE as int),
                    ((pre.v[x] % 100) / 10) as u8,
                ).update((pre.i + 2) % (RAM_SIZE as int), (pre.v[x] % 10) as u8),
                pc: (pre.pc + 2) as u16,
                ..pre
            }
        } else if low == 0x55 {
            // block-copy registers v[0]..=v[x] to memory at i
            r == ok_flow(Flow::Advance) && post == State {
                ram: store_regs(pre.ram, pre.v, pre.i as int, x + 1),
                pc: (pre.pc + 2) as u16,
                ..pre
            }
        } else if low == 0x65 {
            // block-load registers v[0]..=v[x] from memory at i
            r == ok_flow(Flow::Advance) && post == State {
                v: load_regs(pre.ram, pre.v, pre.i as int, x + 1),
                pc: (pre.pc + 2) as u16,
                ..pre
            }
        } else {
            r == fault(Fault::Decode { pc: pre.pc, opcode: op }) && post == pre
        }
    } else {
        r == fault(Fault::Decode { pc: pre.pc, opcode: op }) && post == pre
    }
}

} // verus!
