//! Rendering sequences of views.
//!
//! A [`List`] turns a whole pass of item views into one view, reconciled
//! positionally against the product sequence of the previous pass. The
//! unbounded variant grows its storage as needed; the bounded variant holds
//! at most `N` items and silently drops the rest.

use vstd::prelude::*;

pub mod bounded;
pub mod unbounded;

verus! {

use core::marker::PhantomData;

use crate::host::Host;
use crate::list::bounded::{lemma_bounded_item_owned_sub, BoundedProduct};
use crate::list::unbounded::{all_describe, all_steady, lemma_item_owned_sub, ListProduct};
use crate::{Mountable, Render};

/// Marker making a [`List`] unbounded: it can grow to arbitrary size but
/// allocates as it grows.
pub struct Unbounded;

/// Marker bounding a [`List`] to at most `N` items: items over the limit
/// are silently dropped, and storage never exceeds `N` slots.
pub struct Bounded<const N: usize>;

/// A pass of item views rendered as one view.
pub struct List<T, B>(pub(crate) T, pub(crate) PhantomData<B>);

impl<T, B> List<T, B> {
    /// The wrapped pass of items.
    pub closed spec fn pass_of(self) -> T {
        self.0
    }
}

impl<T> List<T, Unbounded> {
    /// Render `item` as an unbounded list.
    pub fn new(item: T) -> (l: List<T, Unbounded>)
        ensures
            l.pass_of() == item,
    {
        List(item, PhantomData)
    }

    /// Render `item` as a list bounded to `N` entries.
    pub fn new_bounded<const N: usize>(item: T) -> (l: List<T, Bounded<N>>)
        ensures
            l.pass_of() == item,
    {
        List(item, PhantomData)
    }
}

impl<V: Render> Render for List<Vec<V>, Unbounded> {
    type Product = ListProduct<V::Product>;

    open spec fn describes(self, p: Self::Product, host: Host) -> bool {
        &&& p.mounted_count() == self.pass_of()@.len()
        &&& p.items().len() >= self.pass_of()@.len()
        &&& all_describe(self.pass_of()@, p.items(), host)
    }

    open spec fn steady(self) -> bool {
        all_steady(self.pass_of()@)
    }

    proof fn lemma_describes_frame(self, p: Self::Product, h1: Host, h2: Host) {
        assert forall|i: int|
            0 <= i < self.0@.len() implies self.0@[i].describes(#[trigger] p.items()[i], h2) by {
            lemma_item_owned_sub(p, i);
            assert(h2.texts_agree_on(h1, p.items()[i].owned())) by {
                assert forall|n: int| #[trigger] p.items()[i].owned().contains(n) implies h2.valid(
                    n,
                ) && h1.valid(n) && h2.text_at(n) == h1.text_at(n) by {
                    assert(Mountable::owned(p).contains(n));
                }
            }
            self.0@[i].lemma_describes_frame(p.items()[i], h1, h2);
        }
    }

    fn build(self, host: &mut Host) -> (p: Self::Product) {
        ListProduct::build(self.0, host)
    }

    fn update(self, p: &mut Self::Product, host: &mut Host) {
        p.update(self.0, host);
    }
}

impl<V: Render, const N: usize> Render for List<Vec<V>, Bounded<N>> {
    type Product = BoundedProduct<V::Product, N>;

    open spec fn describes(self, p: Self::Product, host: Host) -> bool {
        &&& p.mounted_count() == BoundedProduct::<V::Product, N>::clamped(self.pass_of()@.len() as int)
        &&& p.items().len() >= BoundedProduct::<V::Product, N>::clamped(self.pass_of()@.len() as int)
        &&& all_describe(
            self.pass_of()@.take(BoundedProduct::<V::Product, N>::clamped(self.pass_of()@.len() as int)),
            p.items(),
            host,
        )
    }

    open spec fn steady(self) -> bool {
        all_steady(self.pass_of()@)
    }

    proof fn lemma_describes_frame(self, p: Self::Product, h1: Host, h2: Host) {
        let m = BoundedProduct::<V::Product, N>::clamped(self.0@.len() as int);
        let pass = self.0@.take(m);
        assert forall|i: int|
            0 <= i < pass.len() implies pass[i].describes(#[trigger] p.items()[i], h2) by {
            lemma_bounded_item_owned_sub(p, i);
            assert(h2.texts_agree_on(h1, p.items()[i].owned())) by {
                assert forall|n: int| #[trigger] p.items()[i].owned().contains(n) implies h2.valid(
                    n,
                ) && h1.valid(n) && h2.text_at(n) == h1.text_at(n) by {
                    assert(Mountable::owned(p).contains(n));
                }
            }
            assert(pass[i].describes(p.items()[i], h1));
            pass[i].lemma_describes_frame(p.items()[i], h1, h2);
        }
    }

    fn build(self, host: &mut Host) -> (p: Self::Product) {
        BoundedProduct::build(self.0, host)
    }

    fn update(self, p: &mut Self::Product, host: &mut Host) {
        p.update(self.0, host);
    }
}

impl<V: Render> Render for Vec<V> {
    type Product = ListProduct<V::Product>;

    open spec fn describes(self, p: Self::Product, host: Host) -> bool {
        &&& p.mounted_count() == self@.len()
        &&& p.items().len() >= self@.len()
        &&& all_describe(self@, p.items(), host)
    }

    open spec fn steady(self) -> bool {
        all_steady(self@)
    }

    proof fn lemma_describes_frame(self, p: Self::Product, h1: Host, h2: Host) {
        assert forall|i: int|
            0 <= i < self@.len() implies self@[i].describes(#[trigger] p.items()[i], h2) by {
            lemma_item_owned_sub(p, i);
            assert(h2.texts_agree_on(h1, p.items()[i].owned())) by {
                assert forall|n: int| #[trigger] p.items()[i].owned().contains(n) implies h2.valid(
                    n,
                ) && h1.valid(n) && h2.text_at(n) == h1.text_at(n) by {
                    assert(Mountable::owned(p).contains(n));
                }
            }
            self@[i].lemma_describes_frame(p.items()[i], h1, h2);
        }
    }

    fn build(self, host: &mut Host) -> (p: Self::Product) {
        ListProduct::build(self, host)
    }

    fn update(self, p: &mut Self::Product, host: &mut Host) {
        p.update(self, host);
    }
}

} // verus!
