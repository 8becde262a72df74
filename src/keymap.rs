//! The usual layout of the sixteen keys on a QWERTY keyboard: the block
//! from `1` to `v` stands for the keypad
//!
//! ```text
//! 1 2 3 C      1 2 3 4
//! 4 5 6 D  <-  q w e r
//! 7 8 9 E      a s d f
//! A 0 B F      z x c v
//! ```

use vstd::prelude::*;

verus! {

/// The keypad index that keyboard character `c` stands for, if any.
pub open spec fn key_of(c: char) -> Option<u8> {
    if c == '1' {
        Some(0x1)
    } else if c == '2' {
        Some(0x2)
    } else if c == '3' {
        Some(0x3)
    } else if c == '4' {
        Some(0xC)
    } else if c == 'q' {
        Some(0x4)
    } else if c == 'w' {
        Some(0x5)
    } else if c == 'e' {
        Some(0x6)
    } else if c == 'r' {
        Some(0xD)
    } else if c == 'a' {
        Some(0x7)
    } else if c == 's' {
        Some(0x8)
    } else if c == 'd' {
        Some(0x9)
    } else if c == 'f' {
        Some(0xE)
    } else if c == 'z' {
        Some(0xA)
    } else if c == 'x' {
        Some(0x0)
    } else if c == 'c' {
        Some(0xB)
    } else if c == 'v' {
        Some(0xF)
    } else {
        None
    }
}

/// Maps a keyboard character to the keypad index it stands for.
pub fn map_ch8_key(chr: char) -> (r: Option<u8>)
    ensures
        r == key_of(chr),
        r matches Some(k) ==> k < 16,
{
    match chr {
        '1' => Some(0x1),
        '2' => Some(0x2),
        '3' => Some(0x3),
        '4' => Some(0xC),
        'q' => Some(0x4),
        'w' => Some(0x5),
        'e' => Some(0x6),
        'r' => Some(0xD),
        'a' => Some(0x7),
        's' => Some(0x8),
        'd' => Some(0x9),
        'f' => Some(0xE),
        'z' => Some(0xA),
        'x' => Some(0x0),
        'c' => Some(0xB),
        'v' => Some(0xF),
        _ => None,
    }
}

} // verus!
