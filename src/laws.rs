//! Properties that relate several operations of the machine, stated over the
//! same specifications that the operations' contracts use, and proved.

use vstd::prelude::*;
use crate::engine::{
    executes, fault_of, fetched, is_first_pressed, reg, rewind_pc, sprite_bit, sprite_covers, steps,
    word_at,
};
use crate::fault::Fault;
use crate::instr::{decode_spec, Instr};
use crate::lcg::lcg_bytes;
use crate::machine::{C8Emulator, KEYS_SIZE, RAM_SIZE, SCREEN_HEIGHT, SCREEN_SIZE, SCREEN_WIDTH};
use crate::stack::STACK_SIZE;

verus! {

/// Reset restores the construction-time state: a machine that `reset` left
/// and one that `new` built agree on the program counter, all of memory, the
/// stack, every register, the timers, the display and the keys, and their
/// generators draw the same bytes from then on.
pub proof fn lemma_reset_is_construction_state(reset: C8Emulator, fresh: C8Emulator, n: nat)
    requires
        reset.is_initial(),
        fresh.is_initial(),
    ensures
        reset.pc == fresh.pc,
        reset.ram@ == fresh.ram@,
        reset.stack@ == fresh.stack@,
        reset.v_regs@ == fresh.v_regs@,
        reset.i_reg == fresh.i_reg,
        reset.delay_t == fresh.delay_t,
        reset.sound_t == fresh.sound_t,
        reset.screen@ == fresh.screen@,
        reset.keys@ == fresh.keys@,
        lcg_bytes(reset.rand_gen@, n) == lcg_bytes(fresh.rand_gen@, n),
{
}

/// The stack contents after pushing `vals` in order onto contents `s`,
/// each push appending as `Stack::push` does.
pub open spec fn push_all(s: Seq<u16>, vals: Seq<u16>) -> Seq<u16>
    decreases vals.len(),
{
    if vals.len() == 0 {
        s
    } else {
        push_all(s.push(vals[0]), vals.drop_first())
    }
}

/// Popping `k` addresses from contents `s`, each pop taking the last as
/// `Stack::pop` does: the contents left and the addresses in the order
/// they came out.
pub open spec fn pop_n(s: Seq<u16>, k: nat) -> (Seq<u16>, Seq<u16>)
    decreases k,
{
    if k == 0 || s.len() == 0 {
        (s, Seq::empty())
    } else {
        let (rest, out) = pop_n(s.drop_last(), (k - 1) as nat);
        (rest, seq![s.last()] + out)
    }
}

proof fn lemma_push_all_appends(s: Seq<u16>, vals: Seq<u16>)
    ensures
        push_all(s, vals) == s + vals,
    decreases vals.len(),
{
    if vals.len() > 0 {
        lemma_push_all_appends(s.push(vals[0]), vals.drop_first());
        assert(s.push(vals[0]) + vals.drop_first() =~= s + vals);
    }
}

proof fn lemma_pop_n_appended(s: Seq<u16>, vals: Seq<u16>)
    ensures
        pop_n(s + vals, vals.len()) == (s, vals.reverse()),
    decreases vals.len(),
{
    if vals.len() == 0 {
        assert(s + vals =~= s);
    } else {
        let init = vals.drop_last();
        assert((s + vals).drop_last() =~= s + init);
        lemma_pop_n_appended(s, init);
        assert(seq![vals.last()] + init.reverse() =~= vals.reverse());
    }
}

/// The stack is last-in first-out and exactly balanced: pushing `vals` onto
/// a stack with room for them and then popping as many addresses returns
/// them in reverse order and leaves the stack as it was.
pub proof fn lemma_stack_lifo(s: Seq<u16>, vals: Seq<u16>)
    requires
        s.len() + vals.len() <= STACK_SIZE,
    ensures
        push_all(s, vals).len() <= STACK_SIZE,
        pop_n(push_all(s, vals), vals.len()) == (s, vals.reverse()),
{
    lemma_push_all_appends(s, vals);
    lemma_pop_n_appended(s, vals);
}

/// The instructions that jump or skip.
pub open spec fn is_jump_or_skip(ins: Instr) -> bool {
    match ins {
        Instr::Jump { .. } | Instr::JumpV0 { .. } | Instr::SkipEqImm { .. }
        | Instr::SkipNeImm { .. } | Instr::SkipEqReg { .. } | Instr::SkipNeReg { .. }
        | Instr::SkipKey { .. } | Instr::SkipNoKey { .. } => true,
        _ => false,
    }
}

/// A jump or skip changes the program counter and nothing else: no
/// register, memory, the stack, the display, the timers or the generator.
pub proof fn lemma_jump_skip_only_pc(pre: C8Emulator, post: C8Emulator, op: u16, r: Result<(), Fault>)
    requires
        steps(pre, post, op, r),
        decode_spec(op) matches Some(ins) && is_jump_or_skip(ins),
    ensures
        post == (C8Emulator { pc: post.pc, ..pre }),
{
}

/// The key-wait instruction busy-polls. With no key pressed a cycle leaves
/// the machine as it was, the program counter on the same instruction; with
/// a key pressed it moves past the instruction and puts the lowest index of
/// a pressed key in VX.
pub proof fn lemma_wait_key_polls(pre: C8Emulator, post: C8Emulator, x: u8, r: Result<(), Fault>)
    requires
        pre.pc + 1 < RAM_SIZE,
        decode_spec(word_at(pre.ram@, pre.pc as int)) == Some(Instr::WaitKey { x }),
        steps(fetched(pre), post, word_at(pre.ram@, pre.pc as int), r),
    ensures
        r is Ok,
        (forall|k: int| 0 <= k < KEYS_SIZE ==> !pre.keys@[k]) ==> post == pre,
        (exists|k: int| 0 <= k < KEYS_SIZE && pre.keys@[k]) ==> {
            &&& post.pc == pre.pc + 2
            &&& is_first_pressed(pre.keys@, reg(post, x) as int)
        },
{
    assert(rewind_pc(fetched(pre).pc) == pre.pc);
}

/// The display pixel that bit `col` of row `row` of a sprite drawn at
/// `(vx, vy)` lands on.
pub open spec fn sprite_pixel(vx: int, vy: int, row: int, col: int) -> int {
    (vx + col) % (SCREEN_WIDTH as int) + SCREEN_WIDTH * ((vy + row) % (SCREEN_HEIGHT as int))
}

proof fn lemma_bit_covers_pixel(ram: Seq<u8>, i: int, n: int, vx: int, vy: int, row: int, col: int)
    requires
        0 <= vx < 256,
        0 <= vy < 256,
        0 <= row < n < 16,
        0 <= col < 8,
        sprite_bit(ram[i + row], col),
    ensures
        0 <= sprite_pixel(vx, vy, row, col) < SCREEN_SIZE,
        sprite_covers(ram, i, n, vx, vy, sprite_pixel(vx, vy, row, col)),
{
    reveal(sprite_covers);
    let px = (vx + col) % 64;
    let py = (vy + row) % 32;
    let p = sprite_pixel(vx, vy, row, col);
    assert(p / 64 == py && p % 64 == px) by (nonlinear_arith)
        requires p == px + 64 * py, 0 <= px < 64, 0 <= py < 32;
    assert((py - vy) % 32 == row) by (nonlinear_arith)
        requires py == (vy + row) % 32, 0 <= row < 32, 0 <= vy;
    assert((px - vx) % 64 == col) by (nonlinear_arith)
        requires px == (vx + col) % 64, 0 <= col < 64, 0 <= vx;
}

/// Drawing a sprite twice at the same place, nothing in between, with VX
/// and VY other than VF: when the sprite has a set bit, the second drawing
/// reports a collision in VF, and it leaves the display as the first one
/// left it, every pixel the sprite lands on on.
pub proof fn lemma_redraw_collides(
    s0: C8Emulator,
    s1: C8Emulator,
    s2: C8Emulator,
    x: u8,
    y: u8,
    n: u8,
    row: int,
    col: int,
)
    requires
        (Instr::Draw { x, y, n }).wf(),
        x != 0xF,
        y != 0xF,
        fault_of(s0, Instr::Draw { x, y, n }) is None,
        executes(s0, s1, Instr::Draw { x, y, n }),
        executes(s1, s2, Instr::Draw { x, y, n }),
        0 <= row < n,
        0 <= col < 8,
        sprite_bit(s0.ram@[s0.i_reg + row], col),
    ensures
        fault_of(s1, Instr::Draw { x, y, n }) is None,
        reg(s2, 0xF) == 1,
        s2.screen@ == s1.screen@,
        s2.screen@[sprite_pixel(reg(s0, x) as int, reg(s0, y) as int, row, col)],
{
    let (i, vx, vy) = (s0.i_reg as int, reg(s0, x) as int, reg(s0, y) as int);
    assert(reg(s1, x) == reg(s0, x) && reg(s1, y) == reg(s0, y));
    let p = sprite_pixel(vx, vy, row, col);
    lemma_bit_covers_pixel(s0.ram@, i, n as int, vx, vy, row, col);
    assert(s1.screen@[p]);
    assert(s2.screen@ =~= s1.screen@);
}

} // verus!
