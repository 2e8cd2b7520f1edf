//! Fixed-depth stack of 16-bit return addresses, used by the CALL and RET
//! instructions. The depth limit is 16; overflow and underflow are
//! programmer errors on the ROM's side and are excluded by precondition, so
//! the host aborts on them before calling.

use vstd::prelude::*;

verus! {

/// Number of return addresses the stack can hold.
pub const MAX_CAPACITY: usize = 16;

/// LIFO of 16-bit return addresses, depth 16.
pub struct Stack {
    index: usize,
    array: Vec<u16>,
}

impl Stack {
    /// The addresses currently held, bottom first.
    pub closed spec fn view(&self) -> Seq<u16> {
        self.array@.take(self.index as int)
    }

    /// The backing storage always holds exactly 16 slots and the write index
    /// stays within them.
    pub closed spec fn wf(&self) -> bool {
        self.array@.len() == MAX_CAPACITY && self.index <= MAX_CAPACITY
    }

    /// Creates an empty stack.
    pub fn new() -> (s: Stack)
        ensures
            s.wf(),
            s@ == Seq::<u16>::empty(),
    {
        let s = Stack { index: 0, array: vec![0u16; 16] };
        proof {
            assert(s@ =~= Seq::<u16>::empty());
        }
        s
    }

    /// How many addresses are stacked.
    pub fn len(&self) -> (n: usize)
        requires
            self.wf(),
        ensures
            n == self@.len(),
    {
        self.index
    }

    /// Removes and returns the most recently pushed address.
    /// Pulling from an empty stack is fatal; the caller rules it out.
    pub fn pull(&mut self) -> (value: u16)
        requires
            old(self).wf(),
            old(self)@.len() > 0,
        ensures
            final(self).wf(),
            value == old(self)@.last(),
            final(self)@ == old(self)@.drop_last(),
    {
        self.index = self.index - 1;
        let value = self.array[self.index];
        proof {
            assert(final(self)@ =~= old(self)@.drop_last());
        }
        value
    }

    /// Pushes an address on top. Pushing onto a full stack is fatal; the
    /// caller rules it out.
    pub fn push(&mut self, value: u16)
        requires
            old(self).wf(),
            old(self)@.len() < MAX_CAPACITY,
        ensures
            final(self).wf(),
            final(self)@ == old(self)@.push(value),
    {
        self.array.set(self.index, value);
        self.index = self.index + 1;
        proof {
            assert(final(self)@ =~= old(self)@.push(value));
        }
    }
}

/// The stack is last-in first-out: a push followed by a pull hands back
/// exactly the pushed value and leaves the earlier contents as they were,
/// whatever was stacked before.
pub proof fn lemma_push_pull(s: Seq<u16>, value: u16)
    ensures
        s.push(value).last() == value,
        s.push(value).drop_last() == s,
{
    assert(s.push(value).drop_last() =~= s);
}

} // verus!
