//! FIFO queue of planned trajectories: the planner pushes, the backend
//! executor pops.

use std::collections::VecDeque;
use vstd::prelude::*;

verus! {

#[derive(Debug)]
pub struct MotionQueue<T> {
    pending: VecDeque<T>,
}

impl<T> View for MotionQueue<T> {
    type V = Seq<T>;

    /// The pending items, oldest first.
    closed spec fn view(&self) -> Seq<T> {
        self.pending@
    }
}

impl<T> Default for MotionQueue<T> {
    fn default() -> (r: Self)
        ensures
            r@ == Seq::<T>::empty(),
    {
        MotionQueue { pending: VecDeque::new() }
    }
}

impl<T> MotionQueue<T> {
    pub fn new() -> (r: Self)
        ensures
            r@ == Seq::<T>::empty(),
    {
        MotionQueue { pending: VecDeque::new() }
    }

    /// Append at the back.
    pub fn push(&mut self, traj: T)
        ensures
            final(self)@ == old(self)@.push(traj),
    {
        self.pending.push_back(traj);
    }

    /// Take the oldest item, if any.
    pub fn pop(&mut self) -> (r: Option<T>)
        ensures
            old(self)@.len() == 0 ==> r is None && final(self)@ == old(self)@,
            old(self)@.len() > 0 ==> r == Some(old(self)@[0]) && final(self)@ == old(
                self,
            )@.drop_first(),
    {
        self.pending.pop_front()
    }

    /// The oldest item, if any, left in place.
    pub fn peek(&self) -> (r: Option<&T>)
        ensures
            self@.len() == 0 ==> r is None,
            self@.len() > 0 ==> r == Some(&self@[0]),
    {
        if self.pending.len() == 0 {
            None
        } else {
            Some(&self.pending[0])
        }
    }

    pub fn len(&self) -> (r: usize)
        ensures
            r == self@.len(),
    {
        self.pending.len()
    }

    pub fn is_empty(&self) -> (r: bool)
        ensures
            r == (self@.len() == 0),
    {
        self.pending.len() == 0
    }

    /// Discard all pending items (used on e-stop).
    pub fn clear(&mut self)
        ensures
            final(self)@ == Seq::<T>::empty(),
    {
        self.pending.clear();
    }
}

/// First in, first out: an item pushed onto a queue comes out only after
/// everything that was already pending, and what was pending comes out
/// in its original order.
pub proof fn lemma_fifo<T>(pending: Seq<T>, item: T)
    ensures
        pending.len() > 0 ==> pending.push(item)[0] == pending[0],
        pending.len() > 0 ==> pending.push(item).drop_first() == pending.drop_first().push(item),
        pending.len() == 0 ==> pending.push(item)[0] == item,
        pending.len() == 0 ==> pending.push(item).drop_first() == Seq::<T>::empty(),
{
    if pending.len() > 0 {
        assert(pending.push(item).drop_first() =~= pending.drop_first().push(item));
    } else {
        assert(pending.push(item).drop_first() =~= Seq::<T>::empty());
    }
}

} // verus!
