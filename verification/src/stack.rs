//! A stand-alone byte stack: last in, first out.

use vstd::prelude::*;

verus! {

/// A stack that keeps its items in a vector, the top last.
#[derive(Clone, Debug)]
pub struct Stack<T> {
    pub data: Vec<T>,
}

impl Stack<u8> {
    /// A stack of 255 zero bytes.
    pub fn new() -> (stack: Stack<u8>)
        ensures
            stack.data@ == Seq::new(0xFF, |i: int| 0u8),
    {
        let mut data: Vec<u8> = Vec::new();
        while data.len() < 0xFF
            invariant
                data@.len() <= 0xFF,
                data@ =~= Seq::new(data@.len(), |i: int| 0u8),
            decreases 0xFF - data@.len(),
        {
            data.push(0);
        }
        Stack { data }
    }

    /// Takes the top item off. The stack must not be empty.
    pub fn pop(&mut self) -> (value: u8)
        requires
            old(self).data@.len() > 0,
        ensures
            value == old(self).data@.last(),
            final(self).data@ == old(self).data@.drop_last(),
    {
        self.data.pop().unwrap()
    }

    /// The top item. The stack must not be empty.
    pub fn peek(&self) -> (value: u8)
        requires
            self.data@.len() > 0,
        ensures
            value == self.data@.last(),
    {
        self.data[self.data.len() - 1]
    }

    /// Puts `value` on top.
    pub fn push(&mut self, value: u8)
        ensures
            final(self).data@ == old(self).data@.push(value),
    {
        self.data.push(value);
    }
}

} // verus!
