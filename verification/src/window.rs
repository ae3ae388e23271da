//! Bounded FIFO history: a rolling window of at most ten observations.

use std::collections::VecDeque;
use vstd::prelude::*;

verus! {

/// A window never holds more elements than this.
pub const WINDOW_CAPACITY: usize = 10;

/// The effect of appending to a bounded FIFO history: when the window is
/// full, strictly the oldest element is evicted first.
pub open spec fn push_evict<T>(s: Seq<T>, value: T) -> Seq<T> {
    if s.len() >= WINDOW_CAPACITY {
        s.drop_first().push(value)
    } else {
        s.push(value)
    }
}

/// The bound is invariant: appending to a history of at most ten
/// elements leaves at most ten, and appending to a full one evicts
/// strictly the oldest element.
pub proof fn lemma_push_evict_bounded<T>(s: Seq<T>, value: T)
    requires
        s.len() <= WINDOW_CAPACITY,
    ensures
        push_evict(s, value).len() <= WINDOW_CAPACITY,
        s.len() == WINDOW_CAPACITY ==> push_evict(s, value) == s.drop_first().push(value),
        s.len() < WINDOW_CAPACITY ==> push_evict(s, value) == s.push(value),
{
}

/// An ordered sequence of at most ten elements, growing by append and
/// shrinking only by FIFO eviction on overflow.
pub struct RollingWindow<T> {
    items: VecDeque<T>,
}

impl<T> View for RollingWindow<T> {
    type V = Seq<T>;

    closed spec fn view(&self) -> Seq<T> {
        self.items@
    }
}

impl<T> RollingWindow<T> {
    /// The window never exceeds its capacity.
    pub open spec fn wf(&self) -> bool {
        self@.len() <= WINDOW_CAPACITY
    }

    pub fn new() -> (w: Self)
        ensures
            w@ == Seq::<T>::empty(),
            w.wf(),
    {
        RollingWindow { items: VecDeque::new() }
    }

    pub fn len(&self) -> (n: usize)
        ensures
            n == self@.len(),
    {
        self.items.len()
    }

    pub fn get(&self, i: usize) -> (r: &T)
        requires
            i < self@.len(),
        ensures
            *r == self@[i as int],
    {
        &self.items[i]
    }

    /// Append `value`; when the window already holds ten elements, evict
    /// strictly the oldest first. This is the only mutation the window
    /// offers.
    pub fn push(&mut self, value: T)
        requires
            old(self).wf(),
        ensures
            final(self).wf(),
            final(self)@ == push_evict(old(self)@, value),
    {
        if self.items.len() == WINDOW_CAPACITY {
            let evicted = self.items.pop_front();
            proof {
                assert(evicted is Some);
            }
        }
        self.items.push_back(value);
        proof {
            assert(self@ =~= push_evict(old(self)@, value));
        }
    }
}

} // verus!
