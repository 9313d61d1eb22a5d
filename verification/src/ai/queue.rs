//! The bounded first-in, first-out queue between the requests and the worker.

use std::collections::VecDeque;
use vstd::prelude::*;

verus! {

/// Response texts waiting for the background worker, oldest first.
///
/// The queue never reorders and never drops: a text that does not fit is
/// handed back to the caller. Its view is the waiting texts, oldest first.
pub struct WorkQueue {
    items: VecDeque<String>,
    capacity: usize,
}

impl View for WorkQueue {
    type V = Seq<Seq<char>>;

    closed spec fn view(&self) -> Seq<Seq<char>> {
        self.items.deep_view()
    }
}

impl WorkQueue {
    /// The number of texts that the queue can hold.
    pub closed spec fn spec_capacity(&self) -> nat {
        self.capacity as nat
    }

    /// The queue holds no more than its capacity. A new queue is bounded,
    /// and no operation makes a bounded queue unbounded.
    pub open spec fn bounded(&self) -> bool {
        self@.len() <= self.spec_capacity()
    }

    /// An empty queue that holds up to `capacity` texts.
    pub fn new(capacity: usize) -> (queue: WorkQueue)
        ensures
            queue@ == Seq::<Seq<char>>::empty(),
            queue.spec_capacity() == capacity,
            queue.bounded(),
    {
        let queue = WorkQueue { items: VecDeque::new(), capacity };
        assert(queue@ =~= Seq::<Seq<char>>::empty());
        queue
    }

    /// The number of texts that the queue can hold.
    pub fn capacity(&self) -> (capacity: usize)
        ensures
            capacity == self.spec_capacity(),
    {
        self.capacity
    }

    /// The number of texts that are waiting.
    pub fn len(&self) -> (len: usize)
        ensures
            len == self@.len(),
    {
        self.items.len()
    }

    /// Whether nothing is waiting.
    pub fn is_empty(&self) -> (empty: bool)
        ensures
            empty == (self@.len() == 0),
    {
        self.items.len() == 0
    }

    /// Whether the queue has no room for another text.
    pub fn is_full(&self) -> (full: bool)
        ensures
            full == (self@.len() >= self.spec_capacity()),
    {
        self.items.len() >= self.capacity
    }

    /// Appends `text` if there is room, and hands it back if there is none.
    pub fn try_push(&mut self, text: String) -> (rejected: Option<String>)
        ensures
            final(self).spec_capacity() == old(self).spec_capacity(),
            old(self).bounded() ==> final(self).bounded(),
            old(self)@.len() < old(self).spec_capacity() ==> {
                &&& rejected is None
                &&& final(self)@ == old(self)@.push(text@)
            },
            old(self)@.len() >= old(self).spec_capacity() ==> {
                &&& rejected == Some(text)
                &&& final(self)@ == old(self)@
            },
    {
        if self.items.len() < self.capacity {
            self.items.push_back(text);
            assert(self@ =~= old(self)@.push(text@));
            None
        } else {
            Some(text)
        }
    }

    /// Takes the oldest text out of the queue, if there is one.
    pub fn pop(&mut self) -> (oldest: Option<String>)
        ensures
            final(self).spec_capacity() == old(self).spec_capacity(),
            old(self).bounded() ==> final(self).bounded(),
            old(self)@.len() == 0 ==> {
                &&& oldest is None
                &&& final(self)@ == old(self)@
            },
            old(self)@.len() > 0 ==> {
                &&& oldest matches Some(text)
                &&& text@ == old(self)@[0]
                &&& final(self)@ == old(self)@.drop_first()
            },
    {
        let oldest = self.items.pop_front();
        assert(old(self)@.len() > 0 ==> self@ =~= old(self)@.drop_first());
        oldest
    }
}

} // verus!
