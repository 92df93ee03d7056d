//! Growable item storage with stable positions.
//!
//! List reconciliation hands out access to existing item products while it
//! appends new ones, so its storage must never move an item when it grows.
//! This container models that guarantee as an arena: items sit at fixed
//! indices, `push` only ever appends, and a [`ListIter`] walks the indices
//! in order with an optional upper limit.

use vstd::prelude::*;

verus! {

/// Append-only item storage: positions are never reused or moved.
pub struct LinkedList<P> {
    items: Vec<P>,
}

impl<P> View for LinkedList<P> {
    type V = Seq<P>;

    closed spec fn view(&self) -> Seq<P> {
        self.items@
    }
}

impl<P> LinkedList<P> {
    /// An empty storage.
    pub fn build() -> (l: LinkedList<P>)
        ensures
            l@ == Seq::<P>::empty(),
    {
        LinkedList { items: Vec::new() }
    }

    /// Append an item; existing positions are untouched.
    pub fn push(&mut self, item: P)
        ensures
            final(self)@ == old(self)@.push(item),
    {
        self.items.push(item);
    }

    /// How many items are stored.
    pub fn len(&self) -> (l: usize)
        ensures
            l == self@.len(),
    {
        self.items.len()
    }

    /// The item at position `i`.
    pub fn get(&self, i: usize) -> (item: &P)
        requires
            i < self@.len(),
        ensures
            item == self@[i as int],
    {
        &self.items[i]
    }

    /// A cursor over the current positions, in order.
    pub fn iter(&self) -> (it: ListIter)
        ensures
            it.pos_of() == 0,
            it.end_of() == self@.len(),
    {
        ListIter { pos: 0, end: self.items.len() }
    }
}

/// A cursor over list positions: yields `pos`, `pos + 1`, … up to an
/// exclusive end that [`limit`](ListIter::limit) can lower.
pub struct ListIter {
    pos: usize,
    end: usize,
}

impl ListIter {
    /// The next position the cursor will yield.
    pub closed spec fn pos_of(self) -> int {
        self.pos as int
    }

    /// The exclusive end of the walk.
    pub closed spec fn end_of(self) -> int {
        self.end as int
    }

    /// The next position the cursor will yield.
    pub fn pos(&self) -> (p: usize)
        ensures
            p == self.pos_of(),
    {
        self.pos
    }

    /// Lower the end of the walk to at most `limit`.
    pub fn limit(&mut self, limit: usize)
        ensures
            final(self).pos_of() == old(self).pos_of(),
            final(self).end_of() == if limit < old(self).end_of() {
                limit as int
            } else {
                old(self).end_of()
            },
    {
        if limit < self.end {
            self.end = limit;
        }
    }

    /// Yield the next position, or nothing once the end is reached.
    pub fn next(&mut self) -> (r: Option<usize>)
        ensures
            old(self).pos_of() < old(self).end_of() ==> r is Some && r->0 == old(self).pos_of()
                && final(self).pos_of() == old(self).pos_of() + 1 && final(self).end_of() == old(
                self,
            ).end_of(),
            old(self).pos_of() >= old(self).end_of() ==> r is None && *final(self) == *old(self),
    {
        if self.pos < self.end {
            let p = self.pos;
            self.pos = p + 1;
            Some(p)
        } else {
            None
        }
    }
}

} // verus!
