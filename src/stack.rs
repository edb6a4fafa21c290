//! A last-in, first-out stack.
use vstd::prelude::*;

verus! {

pub struct Stack<T> {
    data: Vec<T>,
}

impl<T> View for Stack<T> {
    type V = Seq<T>;

    /// The elements, bottom first.
    closed spec fn view(&self) -> Seq<T> {
        self.data@
    }
}

impl<T> Stack<T> {
    /// An empty stack.
    pub fn new() -> (r: Self)
        ensures
            r@ == Seq::<T>::empty(),
    {
        Self { data: Vec::new() }
    }

    /// Puts `element` on top.
    pub fn push(&mut self, element: T)
        ensures
            final(self)@ == old(self)@.push(element),
    {
        self.data.push(element);
    }

    /// Takes the top element off; the stack must not be empty.
    pub fn pop(&mut self) -> (r: T)
        requires
            old(self)@.len() > 0,
        ensures
            r == old(self)@.last(),
            final(self)@ == old(self)@.drop_last(),
    {
        self.data.pop().unwrap()
    }

    /// Number of elements.
    pub fn len(&self) -> (r: usize)
        ensures
            r == self@.len(),
    {
        self.data.len()
    }
}

} // verus!
