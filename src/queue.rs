//! The event bridge: a bounded, closable first-in first-out queue between
//! the thread that delivers change notifications and the watch loop. The
//! waiting itself (a producer held while the queue is full, a consumer held
//! while it is empty) belongs to whoever shares the queue; this type says
//! when each side must wait.
use std::collections::VecDeque;
use vstd::prelude::*;

verus! {

/// Why an item was not taken; the item is handed back.
#[derive(Debug)]
pub enum PushError<T> {
    /// The queue holds as many items as it may: wait for a slot.
    Full(T),
    /// The queue is closed: it takes nothing more.
    Closed(T),
}

/// What a consumer gets from the queue.
#[derive(Debug)]
pub enum PopResult<T> {
    /// The oldest undelivered item.
    Item(T),
    /// Nothing is waiting yet: wait for an item.
    Empty,
    /// The queue is closed: nothing more will come.
    Closed,
}

/// A first-in first-out queue that never holds more than its capacity.
pub struct BoundedQueue<T> {
    items: VecDeque<T>,
    capacity: usize,
    closed: bool,
}

impl<T> BoundedQueue<T> {
    /// The undelivered items, oldest first.
    pub closed spec fn items(&self) -> Seq<T> {
        self.items@
    }

    /// The most items the queue may hold.
    pub closed spec fn capacity_spec(&self) -> nat {
        self.capacity as nat
    }

    /// Whether the queue was closed.
    pub closed spec fn closed_spec(&self) -> bool {
        self.closed
    }

    /// The queue holds at most its capacity, which is positive.
    pub open spec fn wf(&self) -> bool {
        &&& self.capacity_spec() > 0
        &&& self.items().len() <= self.capacity_spec()
    }

    /// An open, empty queue of the given capacity.
    pub fn new(capacity: usize) -> (r: Self)
        requires
            capacity > 0,
        ensures
            r.wf(),
            r.items().len() == 0,
            r.capacity_spec() == capacity,
            !r.closed_spec(),
    {
        BoundedQueue { items: VecDeque::new(), capacity, closed: false }
    }

    /// An open, empty queue with the event bridge's capacity.
    pub fn bridge() -> (r: Self)
        ensures
            r.wf(),
            r.items().len() == 0,
            r.capacity_spec() == crate::BRIDGE_CAPACITY,
            !r.closed_spec(),
    {
        Self::new(crate::BRIDGE_CAPACITY)
    }

    /// Adds `item` at the back, unless the queue is closed or full.
    pub fn try_push(&mut self, item: T) -> (r: Result<(), PushError<T>>)
        requires
            old(self).wf(),
        ensures
            final(self).wf(),
            final(self).capacity_spec() == old(self).capacity_spec(),
            final(self).closed_spec() == old(self).closed_spec(),
            old(self).closed_spec() ==> r == Err::<(), PushError<T>>(PushError::Closed(item))
                && final(self).items() == old(self).items(),
            !old(self).closed_spec() && old(self).items().len() == old(self).capacity_spec() ==> r
                == Err::<(), PushError<T>>(PushError::Full(item)) && final(self).items() == old(
                self,
            ).items(),
            !old(self).closed_spec() && old(self).items().len() < old(self).capacity_spec() ==> r
                is Ok && final(self).items() == old(self).items().push(item),
    {
        if self.closed {
            return Err(PushError::Closed(item));
        }
        if self.items.len() >= self.capacity {
            return Err(PushError::Full(item));
        }
        self.items.push_back(item);
        Ok(())
    }

    /// Takes the oldest item; a closed queue hands out nothing, not even
    /// the items that were waiting when it was closed.
    pub fn pop(&mut self) -> (r: PopResult<T>)
        requires
            old(self).wf(),
        ensures
            final(self).wf(),
            final(self).capacity_spec() == old(self).capacity_spec(),
            final(self).closed_spec() == old(self).closed_spec(),
            old(self).closed_spec() ==> r is Closed && final(self).items() == old(self).items(),
            !old(self).closed_spec() && old(self).items().len() == 0 ==> r is Empty
                && final(self).items() == old(self).items(),
            !old(self).closed_spec() && old(self).items().len() > 0 ==> r == PopResult::Item(
                old(self).items()[0],
            ) && final(self).items() == old(self).items().drop_first(),
    {
        if self.closed {
            return PopResult::Closed;
        }
        match self.items.pop_front() {
            Some(x) => {
                assert(self.items@ =~= old(self).items@.drop_first());
                PopResult::Item(x)
            },
            None => PopResult::Empty,
        }
    }

    /// Closes the queue: every later push and pop is refused.
    pub fn close(&mut self)
        requires
            old(self).wf(),
        ensures
            final(self).wf(),
            final(self).closed_spec(),
            final(self).items() == old(self).items(),
            final(self).capacity_spec() == old(self).capacity_spec(),
    {
        self.closed = true;
    }

    /// How many items are waiting.
    pub fn len(&self) -> (r: usize)
        ensures
            r == self.items().len(),
    {
        self.items.len()
    }

    /// The most items the queue may hold.
    pub fn capacity(&self) -> (r: usize)
        ensures
            r == self.capacity_spec(),
    {
        self.capacity
    }

    /// Whether the queue was closed.
    pub fn is_closed(&self) -> (r: bool)
        ensures
            r == self.closed_spec(),
    {
        self.closed
    }
}

} // verus!
