//! The execution engine: fetch, decode and execute, and the timer tick.

use vstd::prelude::*;
use crate::fault::Fault;
use crate::instr::{decode, decode_spec, Instr};
use crate::lcg::{lcg_byte, lcg_next};
use crate::machine::{
    C8Emulator, KEYS_SIZE, RAM_SIZE, SCREEN_HEIGHT, SCREEN_SIZE, SCREEN_WIDTH,
};
use crate::stack::STACK_SIZE;

verus! {

/// The instruction word at `pc`: the bytes at `pc` and `pc + 1`, big-endian.
pub open spec fn word_at(ram: Seq<u8>, pc: int) -> u16 {
    (ram[pc] as int * 0x100 + ram[pc + 1] as int) as u16
}

/// Register `x` of `s`.
pub open spec fn reg(s: C8Emulator, x: u8) -> u8 {
    s.v_regs@[x as int]
}

/// `pc` moved past the next instruction where `cond` holds, 16-bit wrapping.
pub open spec fn skip_pc(pc: u16, cond: bool) -> u16 {
    if cond {
        ((pc + 2) % 0x10000) as u16
    } else {
        pc
    }
}

/// `pc` moved back onto the instruction just fetched, 16-bit wrapping.
pub open spec fn rewind_pc(pc: u16) -> u16 {
    ((pc + 0x10000 - 2) % 0x10000) as u16
}

/// `post` is `pre` with the registers replaced by `regs`.
pub open spec fn sets_regs(pre: C8Emulator, post: C8Emulator, regs: Seq<u8>) -> bool {
    &&& post.v_regs@ == regs
    &&& post == (C8Emulator { v_regs: post.v_regs, ..pre })
}

/// `post` is `pre` with register `x` set to `v`.
pub open spec fn sets_reg(pre: C8Emulator, post: C8Emulator, x: u8, v: u8) -> bool {
    sets_regs(pre, post, pre.v_regs@.update(x as int, v))
}

/// `post` is `pre` with register `x` set to `v` and then VF to `f`.
pub open spec fn sets_reg_flag(pre: C8Emulator, post: C8Emulator, x: u8, v: u8, f: u8) -> bool {
    sets_regs(pre, post, pre.v_regs@.update(x as int, v).update(0xF, f))
}

/// Bit `col` of a sprite row, counted from the most significant bit.
pub open spec fn sprite_bit(byte: u8, col: int) -> bool {
    (byte >> ((7 - col) as u8)) & 1u8 == 1u8
}

/// The sprite column that falls on display column `px` when the sprite's
/// left edge is at `vx`, the display wrapping around horizontally.
pub open spec fn sprite_col(vx: int, px: int) -> int {
    (px - vx) % (SCREEN_WIDTH as int)
}

/// The sprite row that falls on display row `py` when the sprite's top
/// edge is at `vy`, the display wrapping around vertically.
pub open spec fn sprite_row(vy: int, py: int) -> int {
    (py - vy) % (SCREEN_HEIGHT as int)
}

/// Whether a set bit of the `n`-row sprite at `i`, drawn at `(vx, vy)`,
/// lands on display pixel `p`.
#[verifier::opaque]
pub open spec fn sprite_covers(ram: Seq<u8>, i: int, n: int, vx: int, vy: int, p: int) -> bool {
    let row = sprite_row(vy, p / (SCREEN_WIDTH as int));
    let col = sprite_col(vx, p % (SCREEN_WIDTH as int));
    row < n && col < 8 && sprite_bit(ram[i + row], col)
}

/// The display after drawing the `n`-row sprite at `i` at `(vx, vy)` onto
/// `screen`: each pixel a set sprite bit lands on is turned on.
pub open spec fn drawn(
    screen: Seq<bool>,
    ram: Seq<u8>,
    i: int,
    n: int,
    vx: int,
    vy: int,
) -> Seq<bool> {
    Seq::new(
        SCREEN_SIZE as nat,
        |p: int| screen[p] || sprite_covers(ram, i, n, vx, vy, p),
    )
}

/// Whether the sprite lands a set bit on a pixel of `screen` that is on.
pub open spec fn collides(
    screen: Seq<bool>,
    ram: Seq<u8>,
    i: int,
    n: int,
    vx: int,
    vy: int,
) -> bool {
    exists|p: int| 0 <= p < SCREEN_SIZE && screen[p] && sprite_covers(ram, i, n, vx, vy, p)
}

/// `k` is the lowest index of a pressed key.
pub open spec fn is_first_pressed(keys: Seq<bool>, k: int) -> bool {
    &&& 0 <= k < keys.len()
    &&& keys[k]
    &&& forall|j: int| 0 <= j < k ==> !keys[j]
}

/// The fault, if any, that executing `ins` in state `s` runs into.
pub open spec fn fault_of(s: C8Emulator, ins: Instr) -> Option<Fault> {
    match ins {
        Instr::Return => if s.stack@.len() == 0 {
            Some(Fault::StackUnderflow)
        } else {
            None
        },
        Instr::Call { .. } => if s.stack@.len() >= STACK_SIZE {
            Some(Fault::StackOverflow)
        } else {
            None
        },
        Instr::Draw { n, .. } => if s.i_reg + n > RAM_SIZE {
            Some(Fault::MemoryOutOfRange { addr: s.i_reg as usize, len: n as usize })
        } else {
            None
        },
        Instr::SkipKey { x } | Instr::SkipNoKey { x } => if reg(s, x) >= KEYS_SIZE {
            Some(Fault::KeyOutOfRange { index: reg(s, x) as usize })
        } else {
            None
        },
        Instr::Bcd { .. } => if s.i_reg + 3 > RAM_SIZE {
            Some(Fault::MemoryOutOfRange { addr: s.i_reg as usize, len: 3 })
        } else {
            None
        },
        Instr::StoreRegs { x } | Instr::LoadRegs { x } => if s.i_reg + x + 1 > RAM_SIZE {
            Some(Fault::MemoryOutOfRange { addr: s.i_reg as usize, len: (x + 1) as usize })
        } else {
            None
        },
        _ => None,
    }
}

/// `post` is the state that executing `ins` in state `pre` produces, where
/// `fault_of(pre, ins)` is `None`. The program counter is the one after
/// the fetch.
pub open spec fn executes(pre: C8Emulator, post: C8Emulator, ins: Instr) -> bool {
    match ins {
        Instr::Nop => post == pre,
        Instr::ClearScreen => {
            &&& post.screen@ == Seq::new(SCREEN_SIZE as nat, |p: int| false)
            &&& post == (C8Emulator { screen: post.screen, ..pre })
        },
        Instr::Return => {
            &&& post.stack@ == pre.stack@.drop_last()
            &&& post == (C8Emulator { pc: pre.stack@.last(), stack: post.stack, ..pre })
        },
        Instr::Jump { nnn } => post == (C8Emulator { pc: nnn, ..pre }),
        Instr::Call { nnn } => {
            &&& post.stack@ == pre.stack@.push(pre.pc)
            &&& post == (C8Emulator { pc: nnn, stack: post.stack, ..pre })
        },
        Instr::SkipEqImm { x, nn } => post == (C8Emulator {
            pc: skip_pc(pre.pc, reg(pre, x) == nn),
            ..pre
        }),
        Instr::SkipNeImm { x, nn } => post == (C8Emulator {
            pc: skip_pc(pre.pc, reg(pre, x) != nn),
            ..pre
        }),
        Instr::SkipEqReg { x, y } => post == (C8Emulator {
            pc: skip_pc(pre.pc, reg(pre, x) == reg(pre, y)),
            ..pre
        }),
        Instr::LoadImm { x, nn } => sets_reg(pre, post, x, nn),
        Instr::AddImm { x, nn } => sets_reg(pre, post, x, ((reg(pre, x) + nn) % 0x100) as u8),
        Instr::Move { x, y } => sets_reg(pre, post, x, reg(pre, y)),
        Instr::Or { x, y } => sets_reg(pre, post, x, reg(pre, x) | reg(pre, y)),
        Instr::And { x, y } => sets_reg(pre, post, x, reg(pre, x) & reg(pre, y)),
        Instr::Xor { x, y } => sets_reg(pre, post, x, reg(pre, x) ^ reg(pre, y)),
        Instr::AddReg { x, y } => {
            let sum = reg(pre, x) + reg(pre, y);
            sets_reg_flag(pre, post, x, (sum % 0x100) as u8, if sum > 0xFF { 1 } else { 0 })
        },
        Instr::SubReg { x, y } => {
            let (vx, vy) = (reg(pre, x), reg(pre, y));
            sets_reg_flag(pre, post, x, ((vx - vy + 0x100) % 0x100) as u8, if vx < vy { 0 } else { 1 })
        },
        Instr::ShiftRight { x } => {
            let vx = reg(pre, x);
            sets_reg_flag(pre, post, x, vx >> 1u8, vx & 1u8)
        },
        Instr::SubRev { x, y } => {
            let (vx, vy) = (reg(pre, x), reg(pre, y));
            sets_reg_flag(pre, post, x, ((vy - vx + 0x100) % 0x100) as u8, if vy < vx { 0 } else { 1 })
        },
        Instr::ShiftLeft { x } => {
            let vx = reg(pre, x);
            sets_reg_flag(pre, post, x, vx << 1u8, (vx >> 7u8) & 1u8)
        },
        Instr::SkipNeReg { x, y } => post == (C8Emulator {
            pc: skip_pc(pre.pc, reg(pre, x) != reg(pre, y)),
            ..pre
        }),
        Instr::SetI { nnn } => post == (C8Emulator { i_reg: nnn, ..pre }),
        Instr::JumpV0 { nnn } => post == (C8Emulator { pc: (reg(pre, 0) + nnn) as u16, ..pre }),
        Instr::Rand { x, nn } => {
            &&& post.rand_gen@ == lcg_next(pre.rand_gen@)
            &&& post.v_regs@ == pre.v_regs@.update(x as int, lcg_byte(pre.rand_gen@) & nn)
            &&& post == (C8Emulator { v_regs: post.v_regs, rand_gen: post.rand_gen, ..pre })
        },
        Instr::Draw { x, y, n } => {
            let (i, vx, vy) = (pre.i_reg as int, reg(pre, x) as int, reg(pre, y) as int);
            let f: u8 = if collides(pre.screen@, pre.ram@, i, n as int, vx, vy) { 1 } else { 0 };
            &&& post.screen@ == drawn(pre.screen@, pre.ram@, i, n as int, vx, vy)
            &&& post.v_regs@ == pre.v_regs@.update(0xF, f)
            &&& post == (C8Emulator { screen: post.screen, v_regs: post.v_regs, ..pre })
        },
        Instr::SkipKey { x } => post == (C8Emulator {
            pc: skip_pc(pre.pc, pre.keys@[reg(pre, x) as int]),
            ..pre
        }),
        Instr::SkipNoKey { x } => post == (C8Emulator {
            pc: skip_pc(pre.pc, !pre.keys@[reg(pre, x) as int]),
            ..pre
        }),
        Instr::GetDelay { x } => sets_reg(pre, post, x, pre.delay_t),
        Instr::WaitKey { x } => if exists|k: int| 0 <= k < KEYS_SIZE && pre.keys@[k] {
            &&& sets_reg(pre, post, x, reg(post, x))
            &&& is_first_pressed(pre.keys@, reg(post, x) as int)
        } else {
            post == (C8Emulator { pc: rewind_pc(pre.pc), ..pre })
        },
        Instr::SetDelay { x } => post == (C8Emulator { delay_t: reg(pre, x), ..pre }),
        Instr::SetSound { x } => post == (C8Emulator { sound_t: reg(pre, x), ..pre }),
        Instr::AddI { x } => post == (C8Emulator {
            i_reg: ((pre.i_reg + reg(pre, x)) % 0x10000) as u16,
            ..pre
        }),
        Instr::Glyph { x } => post == (C8Emulator { i_reg: (reg(pre, x) * 5) as u16, ..pre }),
        Instr::Bcd { x } => {
            let (i, vx) = (pre.i_reg as int, reg(pre, x));
            &&& post.ram@ == pre.ram@.update(i, vx / 100).update(i + 1, (vx % 100) / 10).update(
                i + 2,
                vx % 10,
            )
            &&& post == (C8Emulator { ram: post.ram, ..pre })
        },
        Instr::StoreRegs { x } => {
            let i = pre.i_reg as int;
            &&& post.ram@ == Seq::new(
                RAM_SIZE as nat,
                |a: int|
                    if i <= a <= i + x {
                        pre.v_regs@[a - i]
                    } else {
                        pre.ram@[a]
                    },
            )
            &&& post == (C8Emulator { ram: post.ram, ..pre })
        },
        Instr::LoadRegs { x } => {
            let i = pre.i_reg as int;
            sets_regs(
                pre,
                post,
                Seq::new(
                    16,
                    |j: int|
                        if j <= x {
                            pre.ram@[i + j]
                        } else {
                            pre.v_regs@[j]
                        },
                ),
            )
        },
    }
}

/// What one decode-and-execute of `op` in state `pre` yields: the state
/// `post` and the result `r`. A fault leaves the state as it was.
pub open spec fn steps(pre: C8Emulator, post: C8Emulator, op: u16, r: Result<(), Fault>) -> bool {
    match decode_spec(op) {
        None => r == Err::<(), Fault>(Fault::Unimplemented { opcode: op }) && post == pre,
        Some(ins) => match fault_of(pre, ins) {
            Some(f) => r == Err::<(), Fault>(f) && post == pre,
            None => r == Ok::<(), Fault>(()) && executes(pre, post, ins),
        },
    }
}

/// `s` with the program counter moved past the instruction word at it.
pub open spec fn fetched(s: C8Emulator) -> C8Emulator {
    C8Emulator { pc: (s.pc + 2) as u16, ..s }
}

/// Whether a set bit of the `n`-row sprite at `i`, drawn at `(vx, vy)`,
/// lands on display pixel `p`: the sprite row and column that fall on the
/// pixel, the display wrapping around in each axis, and that row's bit.
fn sprite_hits(ram: &[u8; RAM_SIZE], i: usize, n: usize, vx: usize, vy: usize, p: usize) -> (r: bool)
    requires
        i + n <= RAM_SIZE,
        n < 16,
        vx < 256,
        vy < 256,
        p < SCREEN_SIZE,
    ensures
        r == sprite_covers(ram@, i as int, n as int, vx as int, vy as int, p as int),
{
    reveal(sprite_covers);
    let row = (p / SCREEN_WIDTH + SCREEN_HEIGHT - vy % SCREEN_HEIGHT) % SCREEN_HEIGHT;
    let col = (p % SCREEN_WIDTH + SCREEN_WIDTH - vx % SCREEN_WIDTH) % SCREEN_WIDTH;
    assert(row == sprite_row(vy as int, p as int / SCREEN_WIDTH as int));
    assert(col == sprite_col(vx as int, p as int % SCREEN_WIDTH as int));
    if row < n && col < 8 {
        (ram[i + row] >> ((7 - col) as u8)) & 1u8 == 1u8
    } else {
        false
    }
}

impl C8Emulator {
    /// DXYN: turns on each pixel a set bit of the sprite lands on and sets
    /// VF to whether one of them was on already.
    fn draw_sprite(&mut self, x: u8, y: u8, n: u8) -> (r: Result<(), Fault>)
        requires
            x < 16,
            y < 16,
            n < 16,
        ensures
            match fault_of(*old(self), Instr::Draw { x, y, n }) {
                Some(f) => r == Err::<(), Fault>(f) && *final(self) == *old(self),
                None => r == Ok::<(), Fault>(()) && executes(
                    *old(self),
                    *final(self),
                    Instr::Draw { x, y, n },
                ),
            },
    {
        let i = self.i_reg as usize;
        if i + n as usize > RAM_SIZE {
            return Err(Fault::MemoryOutOfRange { addr: i, len: n as usize });
        }
        let vx = self.v_regs[x as usize] as usize;
        let vy = self.v_regs[y as usize] as usize;
        let ghost pre = *old(self);
        let mut screen = self.screen;
        let mut collided = false;
        let mut p: usize = 0;
        while p < SCREEN_SIZE
            invariant
                p <= SCREEN_SIZE,
                n < 16,
                i + n <= RAM_SIZE,
                i == pre.i_reg,
                vx == reg(pre, x),
                vy == reg(pre, y),
                screen@.len() == SCREEN_SIZE,
                *self == pre,
                forall|q: int|
                    0 <= q < p ==> screen@[q] == (pre.screen@[q] || sprite_covers(
                        pre.ram@,
                        i as int,
                        n as int,
                        vx as int,
                        vy as int,
                        q,
                    )),
                forall|q: int| p <= q < SCREEN_SIZE ==> screen@[q] == pre.screen@[q],
                collided == exists|q: int|
                    0 <= q < p && pre.screen@[q] && sprite_covers(
                        pre.ram@,
                        i as int,
                        n as int,
                        vx as int,
                        vy as int,
                        q,
                    ),
            decreases SCREEN_SIZE - p,
        {
            let hit = sprite_hits(&self.ram, i, n as usize, vx, vy, p);
            if hit {
                if screen[p] {
                    collided = true;
                }
                screen[p] = true;
            }
            p += 1;
        }
        assert(screen@ =~= drawn(pre.screen@, pre.ram@, i as int, n as int, vx as int, vy as int));
        self.screen = screen;
        self.v_regs[0xF] = if collided { 1 } else { 0 };
        Ok(())
    }

    /// FX0A: puts the lowest index of a pressed key in VX, or, with no key
    /// pressed, moves the program counter back onto this instruction.
    fn wait_key(&mut self, x: u8)
        requires
            x < 16,
        ensures
            executes(*old(self), *final(self), Instr::WaitKey { x }),
    {
        let mut k: usize = 0;
        while k < KEYS_SIZE
            invariant
                k <= KEYS_SIZE,
                x < 16,
                forall|j: int| 0 <= j < k ==> !self.keys@[j],
                *self == *old(self),
            decreases KEYS_SIZE - k,
        {
            if self.keys[k] {
                self.v_regs[x as usize] = k as u8;
                assert(old(self).keys@[k as int]);
                return;
            }
            k += 1;
        }
        self.pc = self.pc.wrapping_sub(2);
    }

    /// FX55: stores V0..=VX at I onward.
    fn store_regs(&mut self, x: u8) -> (r: Result<(), Fault>)
        requires
            x < 16,
        ensures
            match fault_of(*old(self), Instr::StoreRegs { x }) {
                Some(f) => r == Err::<(), Fault>(f) && *final(self) == *old(self),
                None => r == Ok::<(), Fault>(()) && executes(
                    *old(self),
                    *final(self),
                    Instr::StoreRegs { x },
                ),
            },
    {
        let i = self.i_reg as usize;
        if i + x as usize + 1 > RAM_SIZE {
            return Err(Fault::MemoryOutOfRange { addr: i, len: x as usize + 1 });
        }
        let ghost pre = *old(self);
        let mut idx: usize = 0;
        while idx <= x as usize
            invariant
                idx <= x + 1,
                i + x + 1 <= RAM_SIZE,
                i == pre.i_reg,
                x < 16,
                self.ram@.len() == RAM_SIZE,
                forall|a: int|
                    0 <= a < RAM_SIZE ==> self.ram@[a] == if i <= a < i + idx {
                        pre.v_regs@[a - i]
                    } else {
                        pre.ram@[a]
                    },
                *self == (C8Emulator { ram: self.ram, ..pre }),
            decreases x + 1 - idx,
        {
            self.ram[i + idx] = self.v_regs[idx];
            idx += 1;
        }
        assert(self.ram@ =~= Seq::new(
            RAM_SIZE as nat,
            |a: int|
                if i <= a <= i + x {
                    pre.v_regs@[a - i]
                } else {
                    pre.ram@[a]
                },
        ));
        Ok(())
    }

    /// FX65: loads V0..=VX from I onward.
    fn load_regs(&mut self, x: u8) -> (r: Result<(), Fault>)
        requires
            x < 16,
        ensures
            match fault_of(*old(self), Instr::LoadRegs { x }) {
                Some(f) => r == Err::<(), Fault>(f) && *final(self) == *old(self),
                None => r == Ok::<(), Fault>(()) && executes(
                    *old(self),
                    *final(self),
                    Instr::LoadRegs { x },
                ),
            },
    {
        let i = self.i_reg as usize;
        if i + x as usize + 1 > RAM_SIZE {
            return Err(Fault::MemoryOutOfRange { addr: i, len: x as usize + 1 });
        }
        let ghost pre = *old(self);
        let mut idx: usize = 0;
        while idx <= x as usize
            invariant
                idx <= x + 1,
                i + x + 1 <= RAM_SIZE,
                i == pre.i_reg,
                x < 16,
                self.v_regs@.len() == 16,
                forall|j: int|
                    0 <= j < 16 ==> self.v_regs@[j] == if j < idx {
                        pre.ram@[i + j]
                    } else {
                        pre.v_regs@[j]
                    },
                *self == (C8Emulator { v_regs: self.v_regs, ..pre }),
            decreases x + 1 - idx,
        {
            self.v_regs[idx] = self.ram[i + idx];
            idx += 1;
        }
        assert(self.v_regs@ =~= Seq::new(
            16,
            |j: int|
                if j <= x {
                    pre.ram@[i + j]
                } else {
                    pre.v_regs@[j]
                },
        ));
        Ok(())
    }

    /// Executes one decoded instruction. On a fault nothing changes.
    fn execute(&mut self, ins: Instr) -> (r: Result<(), Fault>)
        requires
            ins.wf(),
        ensures
            match fault_of(*old(self), ins) {
                Some(f) => r == Err::<(), Fault>(f) && *final(self) == *old(self),
                None => r == Ok::<(), Fault>(()) && executes(*old(self), *final(self), ins),
            },
    {
        match ins {
            Instr::Nop => {},
            Instr::ClearScreen => {
                self.screen = [false; SCREEN_SIZE];
                assert(self.screen@ =~= Seq::new(SCREEN_SIZE as nat, |p: int| false));
            },
            Instr::Return => {
                match self.stack.pop() {
                    Ok(ret_addr) => {
                        self.pc = ret_addr;
                    },
                    Err(f) => {
                        return Err(f);
                    },
                }
            },
            Instr::Jump { nnn } => {
                self.pc = nnn;
            },
            Instr::Call { nnn } => {
                let pushed = self.stack.push(self.pc);
                if let Err(f) = pushed {
                    return Err(f);
                }
                self.pc = nnn;
            },
            Instr::SkipEqImm { x, nn } => {
                if self.v_regs[x as usize] == nn {
                    self.pc = self.pc.wrapping_add(2);
                }
            },
            Instr::SkipNeImm { x, nn } => {
                if self.v_regs[x as usize] != nn {
                    self.pc = self.pc.wrapping_add(2);
                }
            },
            Instr::SkipEqReg { x, y } => {
                if self.v_regs[x as usize] == self.v_regs[y as usize] {
                    self.pc = self.pc.wrapping_add(2);
                }
            },
            Instr::LoadImm { x, nn } => {
                self.v_regs[x as usize] = nn;
            },
            Instr::AddImm { x, nn } => {
                self.v_regs[x as usize] = self.v_regs[x as usize].wrapping_add(nn);
            },
            Instr::Move { x, y } => {
                self.v_regs[x as usize] = self.v_regs[y as usize];
            },
            Instr::Or { x, y } => {
                self.v_regs[x as usize] = self.v_regs[x as usize] | self.v_regs[y as usize];
            },
            Instr::And { x, y } => {
                self.v_regs[x as usize] = self.v_regs[x as usize] & self.v_regs[y as usize];
            },
            Instr::Xor { x, y } => {
                self.v_regs[x as usize] = self.v_regs[x as usize] ^ self.v_regs[y as usize];
            },
            Instr::AddReg { x, y } => {
                let vx = self.v_regs[x as usize];
                let vy = self.v_regs[y as usize];
                let carry = vx as u16 + vy as u16 > 0xFF;
                self.v_regs[x as usize] = vx.wrapping_add(vy);
                self.v_regs[0xF] = if carry { 1 } else { 0 };
            },
            Instr::SubReg { x, y } => {
                let vx = self.v_regs[x as usize];
                let vy = self.v_regs[y as usize];
                self.v_regs[x as usize] = vx.wrapping_sub(vy);
                self.v_regs[0xF] = if vx < vy { 0 } else { 1 };
            },
            Instr::ShiftRight { x } => {
                let vx = self.v_regs[x as usize];
                self.v_regs[x as usize] = vx >> 1u8;
                self.v_regs[0xF] = vx & 1u8;
            },
            Instr::SubRev { x, y } => {
                let vx = self.v_regs[x as usize];
                let vy = self.v_regs[y as usize];
                self.v_regs[x as usize] = vy.wrapping_sub(vx);
                self.v_regs[0xF] = if vy < vx { 0 } else { 1 };
            },
            Instr::ShiftLeft { x } => {
                let vx = self.v_regs[x as usize];
                self.v_regs[x as usize] = vx << 1u8;
                self.v_regs[0xF] = (vx >> 7u8) & 1u8;
            },
            Instr::SkipNeReg { x, y } => {
                if self.v_regs[x as usize] != self.v_regs[y as usize] {
                    self.pc = self.pc.wrapping_add(2);
                }
            },
            Instr::SetI { nnn } => {
                self.i_reg = nnn;
            },
            Instr::JumpV0 { nnn } => {
                self.pc = self.v_regs[0] as u16 + nnn;
            },
            Instr::Rand { x, nn } => {
                let rand = self.rand_gen.rand_u8();
                self.v_regs[x as usize] = rand & nn;
            },
            Instr::Draw { x, y, n } => {
                return self.draw_sprite(x, y, n);
            },
            Instr::SkipKey { x } => {
                let vx = self.v_regs[x as usize] as usize;
                if vx >= KEYS_SIZE {
                    return Err(Fault::KeyOutOfRange { index: vx });
                }
                if self.keys[vx] {
                    self.pc = self.pc.wrapping_add(2);
                }
            },
            Instr::SkipNoKey { x } => {
                let vx = self.v_regs[x as usize] as usize;
                if vx >= KEYS_SIZE {
                    return Err(Fault::KeyOutOfRange { index: vx });
                }
                if !self.keys[vx] {
                    self.pc = self.pc.wrapping_add(2);
                }
            },
            Instr::GetDelay { x } => {
                self.v_regs[x as usize] = self.delay_t;
            },
            Instr::WaitKey { x } => {
                self.wait_key(x);
            },
            Instr::SetDelay { x } => {
                self.delay_t = self.v_regs[x as usize];
            },
            Instr::SetSound { x } => {
                self.sound_t = self.v_regs[x as usize];
            },
            Instr::AddI { x } => {
                self.i_reg = self.i_reg.wrapping_add(self.v_regs[x as usize] as u16);
            },
            Instr::Glyph { x } => {
                // each glyph is five bytes long, the table starting at 0
                self.i_reg = self.v_regs[x as usize] as u16 * 5;
            },
            Instr::Bcd { x } => {
                let i = self.i_reg as usize;
                if i + 3 > RAM_SIZE {
                    return Err(Fault::MemoryOutOfRange { addr: i, len: 3 });
                }
                let vx = self.v_regs[x as usize];
                self.ram[i] = vx / 100;
                self.ram[i + 1] = (vx % 100) / 10;
                self.ram[i + 2] = vx % 10;
            },
            Instr::StoreRegs { x } => {
                return self.store_regs(x);
            },
            Instr::LoadRegs { x } => {
                return self.load_regs(x);
            },
        }
        Ok(())
    }
}

impl C8Emulator {
    /// Reads the instruction word at `pc`, big-endian, and moves `pc` past
    /// it. A word that does not lie wholly inside memory is a fault and
    /// changes nothing.
    pub fn fetch(&mut self) -> (r: Result<u16, Fault>)
        ensures
            old(self).pc + 1 >= RAM_SIZE ==> r == Err::<u16, Fault>(
                Fault::PcOutOfRange { pc: old(self).pc },
            ) && *final(self) == *old(self),
            old(self).pc + 1 < RAM_SIZE ==> r == Ok::<u16, Fault>(
                word_at(old(self).ram@, old(self).pc as int),
            ) && *final(self) == fetched(*old(self)),
    {
        let addr = self.pc as usize;
        if addr + 1 >= RAM_SIZE {
            return Err(Fault::PcOutOfRange { pc: self.pc });
        }
        let hi = self.ram[addr];
        let lo = self.ram[addr + 1];
        let op = (hi as u16) << 8u16 | lo as u16;
        assert(((hi as u16) << 8u16 | lo as u16) == hi as u16 * 0x100 + lo as u16) by (bit_vector);
        self.pc += 2;
        Ok(op)
    }

    /// Decodes `op` and executes it. A word that encodes no instruction, or
    /// an instruction that faults, changes nothing.
    pub fn decode_and_execute(&mut self, op: u16) -> (r: Result<(), Fault>)
        ensures
            steps(*old(self), *final(self), op, r),
    {
        match decode(op) {
            Some(ins) => self.execute(ins),
            None => Err(Fault::Unimplemented { opcode: op }),
        }
    }

    /// One fetch-decode-execute cycle. A fault in the fetch changes nothing;
    /// one in decoding or executing leaves `pc` past the fetched word.
    pub fn cpu_cycle(&mut self) -> (r: Result<(), Fault>)
        ensures
            old(self).pc + 1 >= RAM_SIZE ==> r == Err::<(), Fault>(
                Fault::PcOutOfRange { pc: old(self).pc },
            ) && *final(self) == *old(self),
            old(self).pc + 1 < RAM_SIZE ==> steps(
                fetched(*old(self)),
                *final(self),
                word_at(old(self).ram@, old(self).pc as int),
                r,
            ),
    {
        match self.fetch() {
            Ok(op_code) => self.decode_and_execute(op_code),
            Err(f) => Err(f),
        }
    }

    /// One timer tick: each of the delay and sound timers counts down by one
    /// unless it is already zero.
    pub fn frame_cycle(&mut self)
        ensures
            *final(self) == (C8Emulator {
                delay_t: if old(self).delay_t > 0 { (old(self).delay_t - 1) as u8 } else { 0 },
                sound_t: if old(self).sound_t > 0 { (old(self).sound_t - 1) as u8 } else { 0 },
                ..*old(self)
            }),
    {
        if self.delay_t > 0 {
            self.delay_t -= 1;
        }
        if self.sound_t > 0 {
            self.sound_t -= 1;
        }
    }
}

} // verus!
