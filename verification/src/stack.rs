//! The call stack: at most sixteen return addresses.

use vstd::prelude::*;

verus! {

/// The number of return addresses the stack can hold.
pub const STACK_DEPTH: usize = 16;

/// A bounded stack of return addresses. Its view is the sequence of the
/// addresses that are live, the most recent call last.
pub struct CallStack {
    slots: [u16; 16],
    depth: u8,
}

impl View for CallStack {
    type V = Seq<u16>;

    closed spec fn view(&self) -> Seq<u16> {
        self.slots@.take(if self.depth <= 16 { self.depth as int } else { 16 })
    }
}

impl CallStack {
    #[verifier::type_invariant]
    spec fn within_bounds(self) -> bool {
        self.depth <= 16
    }

    /// The view never holds more than sixteen addresses.
    pub proof fn lemma_bounded(self)
        ensures
            self@.len() <= STACK_DEPTH,
    {
    }

    /// An empty stack.
    pub fn new() -> (stack: CallStack)
        ensures
            stack@ == Seq::<u16>::empty(),
    {
        CallStack { slots: [0u16; 16], depth: 0 }
    }

    /// The number of live return addresses.
    pub fn len(&self) -> (n: u8)
        ensures
            n == self@.len(),
            n <= STACK_DEPTH,
    {
        proof {
            use_type_invariant(self);
        }
        self.depth
    }

    /// Pushes `addr`, unless the stack is full; says whether it did.
    pub fn push(&mut self, addr: u16) -> (pushed: bool)
        ensures
            pushed <==> old(self)@.len() < STACK_DEPTH,
            pushed ==> final(self)@ == old(self)@.push(addr),
            !pushed ==> final(self)@ == old(self)@,
    {
        proof {
            use_type_invariant(&*self);
        }
        if self.depth >= 16 {
            return false;
        }
        self.slots[self.depth as usize] = addr;
        self.depth = self.depth + 1;
        true
    }

    /// Pops the most recent return address, if there is one.
    pub fn pop(&mut self) -> (top: Option<u16>)
        ensures
            old(self)@.len() == 0 ==> top is None && final(self)@ == old(self)@,
            old(self)@.len() > 0 ==> top == Some(old(self)@.last()) && final(self)@
                == old(self)@.drop_last(),
    {
        proof {
            use_type_invariant(&*self);
        }
        if self.depth == 0 {
            return None;
        }
        self.depth = self.depth - 1;
        Some(self.slots[self.depth as usize])
    }

    /// The return address at position `i`, counted from the oldest call.
    pub fn get(&self, i: u8) -> (addr: Option<u16>)
        ensures
            addr == if i < self@.len() { Some(self@[i as int]) } else { None },
    {
        proof {
            use_type_invariant(self);
        }
        if i < self.depth {
            Some(self.slots[i as usize])
        } else {
            None
        }
    }
}

} // verus!
