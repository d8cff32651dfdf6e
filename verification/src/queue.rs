//! A bounded FIFO queue model.
//!
//! The queues between the pipeline stages are bounded so that a slow
//! consumer makes the producer wait instead of letting latency accumulate.
//! This model carries that guarantee: a push on a full queue hands the
//! element back and leaves the queue untouched, so the queue never grows
//! beyond its bound.

use vstd::prelude::*;

verus! {

/// A first-in-first-out queue that never holds more than its capacity.
pub struct BoundedQueue<T> {
    items: Vec<T>,
    capacity: usize,
}

impl<T> View for BoundedQueue<T> {
    type V = Seq<T>;

    closed spec fn view(&self) -> Seq<T> {
        self.items@
    }
}

impl<T> BoundedQueue<T> {
    /// The bound the queue was created with.
    pub closed spec fn cap(&self) -> nat {
        self.capacity as nat
    }

    /// Well-formedness: the queue never exceeds its bound.
    pub open spec fn wf(&self) -> bool {
        1 <= self.cap() && self@.len() <= self.cap()
    }

    /// Create a queue bounded at `capacity` elements.
    pub fn new(capacity: usize) -> (q: Self)
        requires
            capacity >= 1,
        ensures
            q.wf(),
            q@ == Seq::<T>::empty(),
            q.cap() == capacity,
    {
        BoundedQueue { items: Vec::new(), capacity }
    }

    /// Number of queued elements.
    pub fn len(&self) -> (n: usize)
        ensures
            n == self@.len(),
    {
        self.items.len()
    }

    /// Append an element, or hand it back when the queue is full: the
    /// producer must wait, the queue never grows beyond its bound.
    pub fn push(&mut self, value: T) -> (r: Result<(), T>)
        requires
            old(self).wf(),
        ensures
            final(self).wf(),
            final(self).cap() == old(self).cap(),
            old(self)@.len() < old(self).cap() ==> r is Ok && final(self)@ == old(self)@.push(
                value,
            ),
            old(self)@.len() == old(self).cap() ==> r == Err::<(), T>(value) && final(self)@
                == old(self)@,
    {
        if self.items.len() == self.capacity {
            Err(value)
        } else {
            self.items.push(value);
            Ok(())
        }
    }

    /// Take the oldest element, if any.
    pub fn pop(&mut self) -> (r: Option<T>)
        requires
            old(self).wf(),
        ensures
            final(self).wf(),
            final(self).cap() == old(self).cap(),
            old(self)@.len() == 0 ==> r is None && final(self)@ == old(self)@,
            old(self)@.len() > 0 ==> r == Some(old(self)@.first()) && final(self)@ == old(
                self,
            )@.drop_first(),
    {
        if self.items.len() == 0 {
            None
        } else {
            let value = self.items.remove(0);
            proof {
                assert(self.items@ =~= old(self)@.drop_first());
            }
            Some(value)
        }
    }
}

} // verus!
