//! The call stack: a fixed number of 16-bit return addresses.

use vstd::prelude::*;
use crate::fault::Fault;

verus! {

/// How many return addresses the stack holds.
pub const STACK_SIZE: usize = 16;

/// A bounded stack of return addresses. Its view is the sequence of the
/// addresses it holds, the most recently pushed last.
pub struct Stack {
    arr: [u16; STACK_SIZE],
    sp: usize,
}

impl View for Stack {
    type V = Seq<u16>;

    closed spec fn view(&self) -> Seq<u16> {
        self.arr@.subrange(0, self.sp as int)
    }
}

impl Stack {
    #[verifier::type_invariant]
    spec fn inv(&self) -> bool {
        self.sp <= STACK_SIZE
    }

    pub fn new() -> (r: Self)
        ensures
            r@ == Seq::<u16>::empty(),
    {
        Stack { arr: [0; STACK_SIZE], sp: 0 }
    }

    pub fn reset(&mut self)
        ensures
            final(self)@ == Seq::<u16>::empty(),
    {
        *self = Stack { arr: [0; STACK_SIZE], sp: 0 };
    }

    /// Removes and returns the most recently pushed address; an empty stack
    /// underflows.
    pub fn pop(&mut self) -> (r: Result<u16, Fault>)
        ensures
            old(self)@.len() == 0 ==> r == Err::<u16, Fault>(Fault::StackUnderflow)
                && *final(self) == *old(self),
            old(self)@.len() > 0 ==> r == Ok::<u16, Fault>(old(self)@.last())
                && final(self)@ == old(self)@.drop_last(),
    {
        proof {
            use_type_invariant(&*self);
        }
        if self.sp == 0 {
            return Err(Fault::StackUnderflow);
        }
        self.sp -= 1;
        let v = self.arr[self.sp];
        assert(self@ =~= old(self)@.drop_last());
        Ok(v)
    }

    /// Pushes `val`; a full stack overflows.
    pub fn push(&mut self, val: u16) -> (r: Result<(), Fault>)
        ensures
            old(self)@.len() >= STACK_SIZE ==> r == Err::<(), Fault>(Fault::StackOverflow)
                && *final(self) == *old(self),
            old(self)@.len() < STACK_SIZE ==> r == Ok::<(), Fault>(())
                && final(self)@ == old(self)@.push(val),
    {
        proof {
            use_type_invariant(&*self);
        }
        if self.sp >= STACK_SIZE {
            return Err(Fault::StackOverflow);
        }
        self.arr[self.sp] = val;
        self.sp += 1;
        assert(self@ =~= old(self)@.push(val));
        Ok(())
    }

    /// How many addresses the stack holds.
    pub fn sp(&self) -> (r: usize)
        ensures
            r == self@.len(),
    {
        proof {
            use_type_invariant(self);
        }
        self.sp
    }

    /// How many addresses the stack can hold.
    pub fn capacity(&self) -> (r: usize)
        ensures
            r == STACK_SIZE,
    {
        self.arr.len()
    }
}

} // verus!
