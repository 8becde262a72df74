//! The pseudo-random source of the random-value instruction: a linear
//! congruential generator over a 32-bit state.

use vstd::prelude::*;

verus! {

/// The seed that a machine starts from and is reseeded with on reset.
pub const DEFAULT_SEED: u32 = 1;

/// The state that follows `s`: `s * 1103515245 + 12345` modulo 2^32.
pub open spec fn lcg_next(s: u32) -> u32 {
    ((s as nat * 1103515245 + 12345) % 0x1_0000_0000) as u32
}

/// The 15-bit value drawn when the state moves on to `lcg_next(s)`.
pub open spec fn lcg_value(s: u32) -> u32 {
    (lcg_next(s) >> 16u32) & 0x7FFFu32
}

/// The byte drawn when the state moves on to `lcg_next(s)`.
pub open spec fn lcg_byte(s: u32) -> u8 {
    (lcg_value(s) & 0xFFu32) as u8
}

/// The first `n` bytes that a generator in state `s` draws.
pub open spec fn lcg_bytes(s: u32, n: nat) -> Seq<u8>
    decreases n,
{
    if n == 0 {
        Seq::empty()
    } else {
        seq![lcg_byte(s)] + lcg_bytes(lcg_next(s), (n - 1) as nat)
    }
}

/// Linear congruential generator.
pub struct LCG {
    state: u32,
}

impl View for LCG {
    type V = u32;

    /// The generator is its state.
    closed spec fn view(&self) -> u32 {
        self.state
    }
}

impl LCG {
    pub fn new(seed: u32) -> (r: Self)
        ensures
            r@ == seed,
    {
        LCG { state: seed }
    }

    pub fn rand(&mut self) -> (r: u32)
        ensures
            final(self)@ == lcg_next(old(self)@),
            r == lcg_value(old(self)@),
    {
        self.state = self.state.wrapping_mul(1103515245).wrapping_add(12345);
        proof {
            let s = old(self)@ as nat;
            assert((s * 1103515245) % 0x1_0000_0000 + 12345 < 2 * 0x1_0000_0000) by (nonlinear_arith);
            assert(((s * 1103515245) % 0x1_0000_0000 + 12345) % 0x1_0000_0000
                == (s * 1103515245 + 12345) % 0x1_0000_0000) by (nonlinear_arith);
        }
        (self.state >> 16u32) & 0x7FFF
    }

    pub fn s_rand(&mut self, seed: u32)
        ensures
            final(self)@ == seed,
    {
        self.state = seed;
    }

    pub fn rand_u8(&mut self) -> (r: u8)
        ensures
            final(self)@ == lcg_next(old(self)@),
            r == lcg_byte(old(self)@),
    {
        (self.rand() & 0xFF) as u8
    }
}

} // verus!
