use vstd::prelude::*;

use crate::processor::tick_rel;
use crate::state::{wrap_add, wrap_sub, State, RAM_SIZE, STACK_SIZE};
use crate::step::{fault, ok_flow, op_fam, op_low, op_n, op_x, op_y, step_rel, Fault, Flow};

verus! {

/// Carry law of the register-register add (`8xy4`): the flag register ends
/// up exactly 1 when the unwrapped sum exceeds 255 and exactly 0 otherwise
/// (the flag write comes second, so this holds even when `x` is 15), and any
/// other destination register receives the sum wrapped modulo 256.
pub proof fn lemma_add_carry_flag(pre: State, op: u16, r: Result<Flow, Fault>, post: State)
    requires
        pre.wf(),
        op_fam(op) == 0x8,
        op_n(op) == 0x4,
        step_rel(pre, op, r, post),
    ensures
        r == ok_flow(Flow::Advance),
        post.v[15] == (if pre.v[op_x(op)] + pre.v[op_y(op)] > 255 {
            1u8
        } else {
            0u8
        }),
        op_x(op) != 15 ==> post.v[op_x(op)] == wrap_add(pre.v[op_x(op)], pre.v[op_y(op)]),
{
}

/// Borrow law of the register-register subtract (`8xy5`): the flag register
/// ends up exactly 1 when no borrow occurred (`v[x] >= v[y]`) and exactly 0
/// otherwise — the inverse of the usual carry polarity — and any other
/// destination register receives the difference wrapped modulo 256.
pub proof fn lemma_sub_borrow_flag(pre: State, op: u16, r: Result<Flow, Fault>, post: State)
    requires
        pre.wf(),
        op_fam(op) == 0x8,
        op_n(op) == 0x5,
        step_rel(pre, op, r, post),
    ensures
        r == ok_flow(Flow::Advance),
        post.v[15] == (if pre.v[op_x(op)] >= pre.v[op_y(op)] {
            1u8
        } else {
            0u8
        }),
        op_x(op) != 15 ==> post.v[op_x(op)] == wrap_sub(pre.v[op_x(op)], pre.v[op_y(op)]),
{
}

/// Normalization law of the shifts (`8xy6`, `8xyE`): the flag register ends
/// up exactly 0 or 1, never a raw masked byte such as 0x80. For the left
/// shift this holds when the destination is not the flag register itself;
/// with `x` equal to 15 the shifted value overwrites the flag there.
pub proof fn lemma_shift_flag_normalized(pre: State, op: u16, r: Result<Flow, Fault>, post: State)
    requires
        pre.wf(),
        op_fam(op) == 0x8,
        op_n(op) == 0x6 || (op_n(op) == 0xE && op_x(op) != 15),
        step_rel(pre, op, r, post),
    ensures
        r == ok_flow(Flow::Advance),
        post.v[15] == 0 || post.v[15] == 1,
{
}

/// Stack round-trip law: a call followed immediately by a return leaves the
/// counter exactly two bytes past the call instruction — the address of the
/// instruction after it — and restores the stack depth, registers and
/// memory.
pub proof fn lemma_call_return_roundtrip(
    pre: State,
    call_op: u16,
    r1: Result<Flow, Fault>,
    mid: State,
    r2: Result<Flow, Fault>,
    post: State,
)
    requires
        pre.wf(),
        pre.pc + 1 < RAM_SIZE,
        op_fam(call_op) == 0x2,
        pre.sp < STACK_SIZE,
        step_rel(pre, call_op, r1, mid),
        step_rel(mid, 0x00EE, r2, post),
    ensures
        r1 == ok_flow(Flow::Jump),
        r2 == ok_flow(Flow::Jump),
        post.pc == pre.pc + 2,
        post.sp == pre.sp,
        post.v == pre.v,
        post.ram == pre.ram,
{
}

/// Stack bound law, overflow side: a call with all 16 stack slots in use is
/// a fatal overflow that reports the operation's counter and the full depth,
/// and leaves the state unchanged.
pub proof fn lemma_stack_overflow(pre: State, op: u16, r: Result<Flow, Fault>, post: State)
    requires
        pre.wf(),
        op_fam(op) == 0x2,
        pre.sp == STACK_SIZE,
        step_rel(pre, op, r, post),
    ensures
        r == fault(Fault::StackOverflow { pc: pre.pc, depth: STACK_SIZE }),
        post == pre,
{
}

/// Stack bound law, underflow side: a return with an empty stack is a fatal
/// underflow that reports the operation's counter and depth zero, and
/// leaves the state unchanged.
pub proof fn lemma_stack_underflow(pre: State, r: Result<Flow, Fault>, post: State)
    requires
        pre.wf(),
        pre.sp == 0,
        step_rel(pre, 0x00EE, r, post),
    ensures
        r == fault(Fault::StackUnderflow { pc: pre.pc, depth: 0 }),
        post == pre,
{
}

/// Fault exactness law: whenever dispatch reports a fault, the machine state
/// is left untouched, and a decode fault carries exactly the counter it
/// happened at and the raw opcode that matched no instruction.
pub proof fn lemma_fault_preserves_state(pre: State, op: u16, r: Result<Flow, Fault>, post: State)
    requires
        step_rel(pre, op, r, post),
    ensures
        r matches Err(f) ==> post == pre,
        r matches Err(Fault::Decode { pc, opcode }) ==> pc == pre.pc && opcode == op,
{
}

/// Timer isolation law: no instruction other than the explicit timer writes
/// (`Fx15`, `Fx18`) ever changes a timer. Together with the tick law below,
/// across any execution window free of timer writes the timers only fall,
/// and only as often as the run loop applies a tick.
pub proof fn lemma_instructions_do_not_tick(
    pre: State,
    op: u16,
    r: Result<Flow, Fault>,
    post: State,
)
    requires
        step_rel(pre, op, r, post),
        !(op_fam(op) == 0xF && (op_low(op) == 0x15 || op_low(op) == 0x18)),
    ensures
        post.delay_timer == pre.delay_timer,
        post.sound_timer == pre.sound_timer,
{
}

/// Timer monotonicity law: one tick never raises a timer, lowers it by at
/// most one, and a timer at zero stays at zero. The run loop applies at most
/// one tick per elapsed timer interval, so across any window the timers only
/// fall, and by no more than the number of elapsed intervals.
pub proof fn lemma_timer_monotonic(pre: State, post: State)
    requires
        tick_rel(pre, post),
    ensures
        post.delay_timer <= pre.delay_timer,
        post.sound_timer <= pre.sound_timer,
        pre.delay_timer - post.delay_timer <= 1,
        pre.sound_timer - post.sound_timer <= 1,
        pre.delay_timer == 0 ==> post.delay_timer == 0,
        pre.sound_timer == 0 ==> post.sound_timer == 0,
{
}

} // verus!
