//! Instructions and their decoding from 16-bit instruction words.

use vstd::prelude::*;

verus! {

/// One decoded instruction. `x` and `y` select registers, `n` is a 4-bit
/// count, `nn` an 8-bit immediate and `nnn` a 12-bit address.
#[derive(Debug, Clone, Copy, PartialEq, Eq, Structural)]
pub enum Instr {
    /// 0000: do nothing.
    Nop,
    /// 00E0: clear the display.
    ClearScreen,
    /// 00EE: return from a subroutine.
    Return,
    /// 1NNN: jump to NNN.
    Jump { nnn: u16 },
    /// 2NNN: call the subroutine at NNN.
    Call { nnn: u16 },
    /// 3XNN: skip the next instruction if VX == NN.
    SkipEqImm { x: u8, nn: u8 },
    /// 4XNN: skip the next instruction if VX != NN.
    SkipNeImm { x: u8, nn: u8 },
    /// 5XY0: skip the next instruction if VX == VY.
    SkipEqReg { x: u8, y: u8 },
    /// 6XNN: VX = NN.
    LoadImm { x: u8, nn: u8 },
    /// 7XNN: VX += NN, wrapping, VF untouched.
    AddImm { x: u8, nn: u8 },
    /// 8XY0: VX = VY.
    Move { x: u8, y: u8 },
    /// 8XY1: VX |= VY.
    Or { x: u8, y: u8 },
    /// 8XY2: VX &= VY.
    And { x: u8, y: u8 },
    /// 8XY3: VX ^= VY.
    Xor { x: u8, y: u8 },
    /// 8XY4: VX += VY, VF = carry.
    AddReg { x: u8, y: u8 },
    /// 8XY5: VX -= VY, VF = no borrow.
    SubReg { x: u8, y: u8 },
    /// 8XY6: VF = lowest bit of VX, VX >>= 1.
    ShiftRight { x: u8 },
    /// 8XY7: VX = VY - VX, VF = no borrow.
    SubRev { x: u8, y: u8 },
    /// 8XYE: VF = highest bit of VX, VX <<= 1.
    ShiftLeft { x: u8 },
    /// 9XY0: skip the next instruction if VX != VY.
    SkipNeReg { x: u8, y: u8 },
    /// ANNN: I = NNN.
    SetI { nnn: u16 },
    /// BNNN: jump to V0 + NNN.
    JumpV0 { nnn: u16 },
    /// CXNN: VX = random byte & NN.
    Rand { x: u8, nn: u8 },
    /// DXYN: draw the N-row sprite at I at (VX, VY).
    Draw { x: u8, y: u8, n: u8 },
    /// EX9E: skip the next instruction if key VX is pressed.
    SkipKey { x: u8 },
    /// EXA1: skip the next instruction if key VX is not pressed.
    SkipNoKey { x: u8 },
    /// FX07: VX = delay timer.
    GetDelay { x: u8 },
    /// FX0A: wait for a key press and put its index in VX.
    WaitKey { x: u8 },
    /// FX15: delay timer = VX.
    SetDelay { x: u8 },
    /// FX18: sound timer = VX.
    SetSound { x: u8 },
    /// FX1E: I += VX, wrapping.
    AddI { x: u8 },
    /// FX29: I = address of the glyph of digit VX.
    Glyph { x: u8 },
    /// FX33: store the three decimal digits of VX at I, I+1, I+2.
    Bcd { x: u8 },
    /// FX55: store V0..=VX at I onward.
    StoreRegs { x: u8 },
    /// FX65: load V0..=VX from I onward.
    LoadRegs { x: u8 },
}

impl Instr {
    /// Register indices name one of the 16 registers, counts and addresses
    /// fit their fields: what every decoded instruction meets.
    pub open spec fn wf(self) -> bool {
        match self {
            Instr::Jump { nnn } | Instr::Call { nnn } | Instr::SetI { nnn } | Instr::JumpV0 {
                nnn,
            } => nnn < 0x1000,
            Instr::SkipEqImm { x, nn } | Instr::SkipNeImm { x, nn } | Instr::LoadImm { x, nn }
            | Instr::AddImm { x, nn } | Instr::Rand { x, nn } => x < 16,
            Instr::SkipEqReg { x, y } | Instr::Move { x, y } | Instr::Or { x, y } | Instr::And {
                x,
                y,
            } | Instr::Xor { x, y } | Instr::AddReg { x, y } | Instr::SubReg { x, y }
            | Instr::SubRev { x, y } | Instr::SkipNeReg { x, y } => x < 16 && y < 16,
            Instr::Draw { x, y, n } => x < 16 && y < 16 && n < 16,
            Instr::ShiftRight { x } | Instr::ShiftLeft { x } | Instr::SkipKey { x }
            | Instr::SkipNoKey { x } | Instr::GetDelay { x } | Instr::WaitKey { x }
            | Instr::SetDelay { x } | Instr::SetSound { x } | Instr::AddI { x } | Instr::Glyph {
                x,
            } | Instr::Bcd { x } | Instr::StoreRegs { x } | Instr::LoadRegs { x } => x < 16,
            Instr::Nop | Instr::ClearScreen | Instr::Return => true,
        }
    }
}

/// The four nibbles of an instruction word, the most significant first.
pub open spec fn nibbles(op: u16) -> (u8, u8, u8, u8) {
    (
        (op / 0x1000) as u8,
        ((op / 0x100) % 0x10) as u8,
        ((op / 0x10) % 0x10) as u8,
        (op % 0x10) as u8,
    )
}

/// The instruction that `op` encodes, if any.
pub open spec fn decode_spec(op: u16) -> Option<Instr> {
    let (d1, x, y, n) = nibbles(op);
    let nn = (op % 0x100) as u8;
    let nnn = (op % 0x1000) as u16;
    if d1 == 0 {
        if op == 0x0000 {
            Some(Instr::Nop)
        } else if op == 0x00E0 {
            Some(Instr::ClearScreen)
        } else if op == 0x00EE {
            Some(Instr::Return)
        } else {
            None
        }
    } else if d1 == 1 {
        Some(Instr::Jump { nnn })
    } else if d1 == 2 {
        Some(Instr::Call { nnn })
    } else if d1 == 3 {
        Some(Instr::SkipEqImm { x, nn })
    } else if d1 == 4 {
        Some(Instr::SkipNeImm { x, nn })
    } else if d1 == 5 {
        if n == 0 { Some(Instr::SkipEqReg { x, y }) } else { None }
    } else if d1 == 6 {
        Some(Instr::LoadImm { x, nn })
    } else if d1 == 7 {
        Some(Instr::AddImm { x, nn })
    } else if d1 == 8 {
        if n == 0 {
            Some(Instr::Move { x, y })
        } else if n == 1 {
            Some(Instr::Or { x, y })
        } else if n == 2 {
            Some(Instr::And { x, y })
        } else if n == 3 {
            Some(Instr::Xor { x, y })
        } else if n == 4 {
            Some(Instr::AddReg { x, y })
        } else if n == 5 {
            Some(Instr::SubReg { x, y })
        } else if n == 6 {
            Some(Instr::ShiftRight { x })
        } else if n == 7 {
            Some(Instr::SubRev { x, y })
        } else if n == 0xE {
            Some(Instr::ShiftLeft { x })
        } else {
            None
        }
    } else if d1 == 9 {
        if n == 0 { Some(Instr::SkipNeReg { x, y }) } else { None }
    } else if d1 == 0xA {
        Some(Instr::SetI { nnn })
    } else if d1 == 0xB {
        Some(Instr::JumpV0 { nnn })
    } else if d1 == 0xC {
        Some(Instr::Rand { x, nn })
    } else if d1 == 0xD {
        Some(Instr::Draw { x, y, n })
    } else if d1 == 0xE {
        if nn == 0x9E {
            Some(Instr::SkipKey { x })
        } else if nn == 0xA1 {
            Some(Instr::SkipNoKey { x })
        } else {
            None
        }
    } else {
        if nn == 0x07 {
            Some(Instr::GetDelay { x })
        } else if nn == 0x0A {
            Some(Instr::WaitKey { x })
        } else if nn == 0x15 {
            Some(Instr::SetDelay { x })
        } else if nn == 0x18 {
            Some(Instr::SetSound { x })
        } else if nn == 0x1E {
            Some(Instr::AddI { x })
        } else if nn == 0x29 {
            Some(Instr::Glyph { x })
        } else if nn == 0x33 {
            Some(Instr::Bcd { x })
        } else if nn == 0x55 {
            Some(Instr::StoreRegs { x })
        } else if nn == 0x65 {
            Some(Instr::LoadRegs { x })
        } else {
            None
        }
    }
}

/// Splits `op` into its four nibbles and picks the instruction they encode:
/// by the first nibble, then where needed by the low ones.
pub fn decode(op: u16) -> (r: Option<Instr>)
    ensures
        r == decode_spec(op),
        r matches Some(ins) ==> ins.wf(),
{
    let d1 = (op / 0x1000) as u8;
    let x = ((op / 0x100) % 0x10) as u8;
    let y = ((op / 0x10) % 0x10) as u8;
    let n = (op % 0x10) as u8;
    let nn = (op % 0x100) as u8;
    let nnn = op % 0x1000;
    match d1 {
        0 => match op {
            0x0000 => Some(Instr::Nop),
            0x00E0 => Some(Instr::ClearScreen),
            0x00EE => Some(Instr::Return),
            _ => None,
        },
        1 => Some(Instr::Jump { nnn }),
        2 => Some(Instr::Call { nnn }),
        3 => Some(Instr::SkipEqImm { x, nn }),
        4 => Some(Instr::SkipNeImm { x, nn }),
        5 => match n {
            0 => Some(Instr::SkipEqReg { x, y }),
            _ => None,
        },
        6 => Some(Instr::LoadImm { x, nn }),
        7 => Some(Instr::AddImm { x, nn }),
        8 => match n {
            0 => Some(Instr::Move { x, y }),
            1 => Some(Instr::Or { x, y }),
            2 => Some(Instr::And { x, y }),
            3 => Some(Instr::Xor { x, y }),
            4 => Some(Instr::AddReg { x, y }),
            5 => Some(Instr::SubReg { x, y }),
            6 => Some(Instr::ShiftRight { x }),
            7 => Some(Instr::SubRev { x, y }),
            0xE => Some(Instr::ShiftLeft { x }),
            _ => None,
        },
        9 => match n {
            0 => Some(Instr::SkipNeReg { x, y }),
            _ => None,
        },
        0xA => Some(Instr::SetI { nnn }),
        0xB => Some(Instr::JumpV0 { nnn }),
        0xC => Some(Instr::Rand { x, nn }),
        0xD => Some(Instr::Draw { x, y, n }),
        0xE => match nn {
            0x9E => Some(Instr::SkipKey { x }),
            0xA1 => Some(Instr::SkipNoKey { x }),
            _ => None,
        },
        _ => match nn {
            0x07 => Some(Instr::GetDelay { x }),
            0x0A => Some(Instr::WaitKey { x }),
            0x15 => Some(Instr::SetDelay { x }),
            0x18 => Some(Instr::SetSound { x }),
            0x1E => Some(Instr::AddI { x }),
            0x29 => Some(Instr::Glyph { x }),
            0x33 => Some(Instr::Bcd { x }),
            0x55 => Some(Instr::StoreRegs { x }),
            0x65 => Some(Instr::LoadRegs { x }),
            _ => None,
        },
    }
}

} // verus!
