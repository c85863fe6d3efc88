//! FIFO buffers between the transport and the tallies.
//!
//! The transport hands completed events (and received messages) to a
//! queue of their category; once per tick the application drains a queue
//! and feeds the drained values, in arrival order, to the tally. Draining
//! returns every value pushed since the previous drain, unchanged and in
//! push order, so a value delivered through a queue round-trips by value.

use vstd::prelude::*;

verus! {

/// An unbounded FIFO of values of one category, in arrival order.
pub struct Fifo<T> {
    items: Vec<T>,
}

impl<T> View for Fifo<T> {
    type V = Seq<T>;

    /// The queued values, oldest first.
    closed spec fn view(&self) -> Seq<T> {
        self.items@
    }
}

impl<T> Fifo<T> {
    /// An empty queue.
    pub fn new() -> (q: Fifo<T>)
        ensures
            q@ == Seq::<T>::empty(),
    {
        Fifo { items: Vec::new() }
    }

    /// Append one value at the back of the queue.
    pub fn push(&mut self, value: T)
        ensures
            final(self)@ == old(self)@.push(value),
    {
        self.items.push(value);
    }

    /// How many values are queued.
    pub fn len(&self) -> (n: usize)
        ensures
            n == self@.len(),
    {
        self.items.len()
    }

    /// Remove and return every queued value, oldest first, leaving the
    /// queue empty. Each value comes out exactly as it was pushed.
    pub fn drain(&mut self) -> (out: Vec<T>)
        ensures
            out@ == old(self)@,
            final(self)@ == Seq::<T>::empty(),
    {
        let mut out: Vec<T> = Vec::new();
        core::mem::swap(&mut out, &mut self.items);
        out
    }
}

} // verus!
