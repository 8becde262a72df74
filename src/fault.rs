//! The conditions under which the machine cannot go on.

use vstd::prelude::*;

verus! {

/// An emulation fault. Each carries what identifies the failed access or
/// instruction.
#[derive(Debug, Clone, Copy, PartialEq, Eq, Structural)]
pub enum Fault {
    /// The instruction word at `pc` does not lie wholly inside memory.
    PcOutOfRange { pc: u16 },
    /// An access of `len` bytes at `addr` runs past the end of memory.
    MemoryOutOfRange { addr: usize, len: usize },
    /// A return with no address on the stack.
    StackUnderflow,
    /// A call with the stack full.
    StackOverflow,
    /// A key index outside `0..16`.
    KeyOutOfRange { index: usize },
    /// A program image of `len` bytes does not fit above the reserved area.
    ImageTooLarge { len: usize },
    /// An instruction word that no instruction matches.
    Unimplemented { opcode: u16 },
}

} // verus!
