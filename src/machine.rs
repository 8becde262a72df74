//! The machine state: memory, registers, stack, display, keypad, timers and
//! the pseudo-random source, with the operations a host uses on it.

use vstd::prelude::*;
use crate::fault::Fault;
use crate::lcg::{LCG, DEFAULT_SEED};
use crate::stack::Stack;

verus! {

pub const SCREEN_WIDTH: usize = 64;
pub const SCREEN_HEIGHT: usize = 32;
pub const SCREEN_SIZE: usize = SCREEN_WIDTH * SCREEN_HEIGHT;
pub const KEYS_SIZE: usize = 16;
pub const RAM_SIZE: usize = 4096;
pub const V_REGS_NUM: usize = 16;
pub const FONTSET_SIZE: usize = 16 * 5;

/// Programs are loaded from this address on; the memory below it is reserved
/// and holds the glyph table at its start.
pub const START_ADDR: usize = 0x200;

/// The built-in sprites of the hexadecimal digits 0 to F, five rows each.
pub open spec fn glyph_table() -> Seq<u8> {
    seq![
        0xF0u8, 0x90, 0x90, 0x90, 0xF0, // 0
        0x20, 0x60, 0x20, 0x20, 0xF0, // 1
        0xF0, 0x10, 0xF0, 0x80, 0xF0, // 2
        0xF0, 0x10, 0xF0, 0x10, 0xF0, // 3
        0x80, 0x80, 0xF0, 0x10, 0x10, // 4
        0xF0, 0x80, 0xF0, 0x10, 0xF0, // 5
        0xF0, 0x80, 0xF0, 0x90, 0xF0, // 6
        0xF0, 0x10, 0x10, 0x10, 0x10, // 7
        0xF0, 0x90, 0xF0, 0x90, 0xF0, // 8
        0xF0, 0x90, 0xF0, 0x10, 0x10, // 9
        0xF0, 0x90, 0xF0, 0x90, 0x90, // A
        0xE0, 0x90, 0xE0, 0x90, 0xE0, // B
        0xF0, 0x80, 0x80, 0x80, 0xF0, // C
        0xE0, 0x90, 0x90, 0x90, 0xE0, // D
        0xF0, 0x80, 0xF0, 0x80, 0xF0, // E
        0xF0, 0x80, 0xF0, 0x80, 0x80, // F
    ]
}

/// The glyph table as bytes.
pub fn fontset() -> (r: [u8; FONTSET_SIZE])
    ensures
        r@ == glyph_table(),
{
    let r: [u8; FONTSET_SIZE] = [
        0xF0, 0x90, 0x90, 0x90, 0xF0, // 0
        0x20, 0x60, 0x20, 0x20, 0xF0, // 1
        0xF0, 0x10, 0xF0, 0x80, 0xF0, // 2
        0xF0, 0x10, 0xF0, 0x10, 0xF0, // 3
        0x80, 0x80, 0xF0, 0x10, 0x10, // 4
        0xF0, 0x80, 0xF0, 0x10, 0xF0, // 5
        0xF0, 0x80, 0xF0, 0x90, 0xF0, // 6
        0xF0, 0x10, 0x10, 0x10, 0x10, // 7
        0xF0, 0x90, 0xF0, 0x90, 0xF0, // 8
        0xF0, 0x90, 0xF0, 0x10, 0x10, // 9
        0xF0, 0x90, 0xF0, 0x90, 0x90, // A
        0xE0, 0x90, 0xE0, 0x90, 0xE0, // B
        0xF0, 0x80, 0x80, 0x80, 0xF0, // C
        0xE0, 0x90, 0x90, 0x90, 0xE0, // D
        0xF0, 0x80, 0xF0, 0x80, 0xF0, // E
        0xF0, 0x80, 0xF0, 0x80, 0x80, // F
    ];
    assert(r@ =~= glyph_table());
    r
}

/// The memory of a machine just built: the glyph table, then zeros.
pub open spec fn initial_ram() -> Seq<u8> {
    Seq::new(RAM_SIZE as nat, |i: int| if i < FONTSET_SIZE { glyph_table()[i] } else { 0u8 })
}

/// The whole state of one machine.
pub struct C8Emulator {
    /// Program counter.
    pub pc: u16,
    pub ram: [u8; RAM_SIZE],
    pub stack: Stack,
    /// The general registers V0 to VF.
    pub v_regs: [u8; V_REGS_NUM],
    /// The address register I.
    pub i_reg: u16,
    pub delay_t: u8,
    pub sound_t: u8,
    /// The display, row-major: pixel `(x, y)` at `x + SCREEN_WIDTH * y`.
    pub screen: [bool; SCREEN_SIZE],
    pub keys: [bool; KEYS_SIZE],
    pub rand_gen: LCG,
}

/// Copies the glyph table into the start of `ram`.
fn install_glyphs(ram: &mut [u8; RAM_SIZE])
    ensures
        final(ram)@ == glyph_table() + old(ram)@.subrange(FONTSET_SIZE as int, RAM_SIZE as int),
{
    let glyphs = fontset();
    let mut i: usize = 0;
    while i < FONTSET_SIZE
        invariant
            i <= FONTSET_SIZE,
            glyphs@ == glyph_table(),
            ram@.len() == RAM_SIZE,
            forall|j: int| 0 <= j < i ==> ram@[j] == glyph_table()[j],
            forall|j: int| i <= j < RAM_SIZE ==> ram@[j] == old(ram)@[j],
        decreases FONTSET_SIZE - i,
    {
        ram[i] = glyphs[i];
        i += 1;
    }
    assert(ram@ =~= glyph_table() + old(ram)@.subrange(FONTSET_SIZE as int, RAM_SIZE as int));
}

impl C8Emulator {
    /// The state of a machine just built or just reset.
    pub open spec fn is_initial(&self) -> bool {
        &&& self.pc == START_ADDR
        &&& self.ram@ == initial_ram()
        &&& self.stack@ == Seq::<u16>::empty()
        &&& self.v_regs@ == Seq::new(V_REGS_NUM as nat, |i: int| 0u8)
        &&& self.i_reg == 0
        &&& self.delay_t == 0
        &&& self.sound_t == 0
        &&& self.screen@ == Seq::new(SCREEN_SIZE as nat, |i: int| false)
        &&& self.keys@ == Seq::new(KEYS_SIZE as nat, |i: int| false)
        &&& self.rand_gen@ == DEFAULT_SEED
    }

    pub fn new() -> (r: Self)
        ensures
            r.is_initial(),
    {
        let mut c8_emulator = C8Emulator {
            pc: START_ADDR as u16,
            ram: [0; RAM_SIZE],
            stack: Stack::new(),
            v_regs: [0; V_REGS_NUM],
            i_reg: 0,
            delay_t: 0,
            sound_t: 0,
            screen: [false; SCREEN_SIZE],
            keys: [false; KEYS_SIZE],
            rand_gen: LCG::new(DEFAULT_SEED),
        };
        install_glyphs(&mut c8_emulator.ram);
        assert(c8_emulator.ram@ =~= initial_ram());
        assert(c8_emulator.v_regs@ =~= Seq::new(V_REGS_NUM as nat, |i: int| 0u8));
        assert(c8_emulator.screen@ =~= Seq::new(SCREEN_SIZE as nat, |i: int| false));
        assert(c8_emulator.keys@ =~= Seq::new(KEYS_SIZE as nat, |i: int| false));
        c8_emulator
    }

    /// Puts the machine back into the state that `new` builds.
    pub fn reset(&mut self)
        ensures
            final(self).is_initial(),
    {
        self.pc = START_ADDR as u16;
        self.ram = [0; RAM_SIZE];
        self.stack.reset();
        self.v_regs = [0; V_REGS_NUM];
        self.i_reg = 0;
        self.delay_t = 0;
        self.sound_t = 0;
        self.screen = [false; SCREEN_SIZE];
        self.keys = [false; KEYS_SIZE];
        install_glyphs(&mut self.ram);
        self.rand_gen.s_rand(DEFAULT_SEED);
        assert(self.ram@ =~= initial_ram());
        assert(self.v_regs@ =~= Seq::new(V_REGS_NUM as nat, |i: int| 0u8));
        assert(self.screen@ =~= Seq::new(SCREEN_SIZE as nat, |i: int| false));
        assert(self.keys@ =~= Seq::new(KEYS_SIZE as nat, |i: int| false));
    }

    /// The display, row-major.
    pub fn get_screen(&self) -> (r: &[bool])
        ensures
            r@ == self.screen@,
    {
        &self.screen
    }

    /// Sets the state of key `idx`; an index outside `0..16` is a fault and
    /// changes nothing.
    pub fn press_key(&mut self, idx: usize, pressed: bool) -> (r: Result<(), Fault>)
        ensures
            idx >= KEYS_SIZE ==> r == Err::<(), Fault>(Fault::KeyOutOfRange { index: idx })
                && *final(self) == *old(self),
            idx < KEYS_SIZE ==> r == Ok::<(), Fault>(())
                && final(self).keys@ == old(self).keys@.update(idx as int, pressed)
                && *final(self) == (C8Emulator { keys: final(self).keys, ..*old(self) }),
    {
        if idx >= KEYS_SIZE {
            return Err(Fault::KeyOutOfRange { index: idx });
        }
        self.keys[idx] = pressed;
        Ok(())
    }

    /// Copies a program image into memory from `START_ADDR` on. An image
    /// longer than the memory above `START_ADDR` is a fault and changes
    /// nothing.
    pub fn load(&mut self, data: &[u8]) -> (r: Result<(), Fault>)
        ensures
            data@.len() > RAM_SIZE - START_ADDR ==> r == Err::<(), Fault>(
                Fault::ImageTooLarge { len: data@.len() as usize },
            ) && *final(self) == *old(self),
            data@.len() <= RAM_SIZE - START_ADDR ==> r == Ok::<(), Fault>(())
                && final(self).ram@ == old(self).ram@.subrange(0, START_ADDR as int) + data@
                    + old(self).ram@.subrange(START_ADDR + data@.len(), RAM_SIZE as int)
                && *final(self) == (C8Emulator { ram: final(self).ram, ..*old(self) }),
    {
        if data.len() > RAM_SIZE - START_ADDR {
            return Err(Fault::ImageTooLarge { len: data.len() });
        }
        let mut i: usize = 0;
        while i < data.len()
            invariant
                i <= data@.len() <= RAM_SIZE - START_ADDR,
                self.ram@.len() == RAM_SIZE,
                forall|j: int| 0 <= j < i ==> self.ram@[START_ADDR + j] == data@[j],
                forall|j: int|
                    0 <= j < RAM_SIZE && !(START_ADDR <= j < START_ADDR + i) ==> self.ram@[j]
                        == old(self).ram@[j],
                *self == (C8Emulator { ram: self.ram, ..*old(self) }),
            decreases data@.len() - i,
        {
            self.ram[START_ADDR + i] = data[i];
            i += 1;
        }
        assert(self.ram@ =~= old(self).ram@.subrange(0, START_ADDR as int) + data@
            + old(self).ram@.subrange(START_ADDR + data@.len(), RAM_SIZE as int));
        Ok(())
    }
}

} // verus!
