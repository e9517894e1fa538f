//! A bounded first-in, first-out channel of notifications that ends in a close signal.
//!
//! One side puts notifications in as they arrive, the other takes them out in the same
//! order. `None` in the channel is the close signal: the side that takes it out stops.

use vstd::prelude::*;
use std::collections::VecDeque;

verus! {

/// Notifications that were sent and not yet received, oldest first.
pub struct NotificationChannel<A> {
    items: VecDeque<Option<A>>,
    limit: usize,
}

impl<A> NotificationChannel<A> {
    /// The channel never holds more than its capacity.
    #[verifier::type_invariant]
    spec fn within_capacity(self) -> bool {
        self.items@.len() <= self.limit
    }

    /// What is waiting in the channel, oldest first.
    pub closed spec fn waiting(&self) -> Seq<Option<A>> {
        self.items@
    }

    /// How many items the channel can hold.
    pub closed spec fn capacity(&self) -> nat {
        self.limit as nat
    }

    pub open spec fn is_full(&self) -> bool {
        self.waiting().len() >= self.capacity()
    }

    /// An empty channel that holds up to `capacity` items.
    pub fn new(capacity: usize) -> (channel: NotificationChannel<A>)
        ensures
            channel.waiting() == Seq::<Option<A>>::empty(),
            channel.capacity() == capacity,
    {
        NotificationChannel { items: VecDeque::new(), limit: capacity }
    }

    /// How many items are waiting.
    pub fn len(&self) -> (n: usize)
        ensures
            n == self.waiting().len(),
            n <= self.capacity(),
    {
        proof {
            use_type_invariant(self);
        }
        self.items.len()
    }

    /// Whether a send would find no room.
    pub fn full(&self) -> (full: bool)
        ensures
            full == self.is_full(),
    {
        proof {
            use_type_invariant(self);
        }
        self.items.len() >= self.limit
    }

    /// Puts `item` at the end of the channel. A full channel takes nothing and hands the
    /// item back.
    pub fn send(&mut self, item: Option<A>) -> (r: Result<(), Option<A>>)
        ensures
            final(self).capacity() == old(self).capacity(),
            match r {
                Ok(()) => !old(self).is_full() && final(self).waiting() == old(self).waiting().push(
                    item,
                ),
                Err(back) => old(self).is_full() && back == item && final(self).waiting() == old(
                    self,
                ).waiting(),
            },
    {
        proof {
            use_type_invariant(&*self);
        }
        if self.items.len() >= self.limit {
            return Err(item);
        }
        let mut items: VecDeque<Option<A>> = VecDeque::new();
        std::mem::swap(&mut self.items, &mut items);
        items.push_back(item);
        std::mem::swap(&mut self.items, &mut items);
        Ok(())
    }

    /// Takes the oldest item out of the channel; `None` when nothing is waiting.
    pub fn recv(&mut self) -> (r: Option<Option<A>>)
        ensures
            final(self).capacity() == old(self).capacity(),
            match r {
                Some(item) => {
                    &&& old(self).waiting().len() > 0
                    &&& item == old(self).waiting()[0]
                    &&& final(self).waiting() == old(self).waiting().skip(1)
                },
                None => old(self).waiting().len() == 0 && final(self).waiting() == old(
                    self,
                ).waiting(),
            },
    {
        proof {
            use_type_invariant(&*self);
        }
        let mut items: VecDeque<Option<A>> = VecDeque::new();
        std::mem::swap(&mut self.items, &mut items);
        let taken = items.pop_front();
        std::mem::swap(&mut self.items, &mut items);
        taken
    }
}

} // verus!
