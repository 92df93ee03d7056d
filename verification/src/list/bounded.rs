//! The fixed-capacity list product.
//!
//! A [`BoundedProduct`] reconciles passes of views exactly like the
//! unbounded variant, but holds at most `N` items: views beyond the
//! capacity are silently dropped, never built, and storage never exceeds
//! `N` slots. [`BoundedVec`] is the capacity-clamped vector giving
//! applications a push that refuses overflow instead of growing.

use vstd::prelude::*;

verus! {

use crate::event::Event;
use crate::host::{EventId, Host, NodeId};
use crate::list::unbounded::{all_describe, all_steady, ListProduct};
use crate::runtime::{Then, Trigger};
use crate::{Mountable, Render};

/// A vector clamped to capacity `N`: a push beyond the capacity is a
/// silent no-op reported by its return value, never a panic or a grow.
pub struct BoundedVec<T, const N: usize> {
    data: Vec<T>,
}

impl<T, const N: usize> BoundedVec<T, N> {
    /// The stored elements, in insertion order.
    pub closed spec fn items(self) -> Seq<T> {
        self.data@
    }

    /// Storage never exceeds the capacity.
    pub closed spec fn wf(self) -> bool {
        self.data@.len() <= N
    }

    /// An empty clamped vector.
    pub fn new() -> (v: BoundedVec<T, N>)
        ensures
            v.wf(),
            v.items() == Seq::<T>::empty(),
    {
        BoundedVec { data: Vec::new() }
    }

    /// How many elements are stored; never more than `N`.
    pub fn len(&self) -> (l: usize)
        requires
            self.wf(),
        ensures
            l == self.items().len(),
            l <= N,
    {
        self.data.len()
    }

    /// Append `item` if there is room: returns whether it was kept. At
    /// capacity the item is dropped and the vector is untouched.
    pub fn push(&mut self, item: T) -> (kept: bool)
        requires
            old(self).wf(),
        ensures
            final(self).wf(),
            kept == (old(self).items().len() < N),
            kept ==> final(self).items() == old(self).items().push(item),
            !kept ==> final(self).items() == old(self).items(),
            final(self).items().len() <= N,
    {
        if self.data.len() >= N {
            return false;
        }
        self.data.push(item);
        true
    }

    /// Append the elements of `items` in order until the capacity is
    /// reached; the rest are dropped.
    #[verifier::loop_isolation(false)]
    pub fn extend(&mut self, items: Vec<T>)
        requires
            old(self).wf(),
        ensures
            final(self).wf(),
            final(self).items().len() == if old(self).items().len() + items@.len() <= N {
                old(self).items().len() + items@.len() as int
            } else {
                N as int
            },
            forall|i: int|
                0 <= i < old(self).items().len() ==> final(self).items()[i] == old(self).items()[i],
            forall|i: int|
                old(self).items().len() <= i < final(self).items().len()
                    ==> final(self).items()[i] == items@[i - old(self).items().len()],
    {
        let ghost base = self.data@;
        let ghost src = items@;
        let mut items = items;
        proof {
            assert(src.skip(0) =~= src);
        }
        while items.len() > 0
            invariant
                items@.len() <= src.len(),
                items@ == src.skip(src.len() - items@.len()),
                self.data@.len() <= N,
                self.data@.len() as int == if base.len() + (src.len() - items@.len()) <= N {
                    base.len() + (src.len() - items@.len())
                } else {
                    N as int
                },
                forall|i: int| 0 <= i < base.len() ==> self.data@[i] == base[i],
                forall|i: int|
                    base.len() <= i < self.data@.len() ==> self.data@[i] == src[i - base.len()],
            decreases items.len(),
        {
            let ghost consumed = src.len() - items@.len();
            let item = items.remove(0);
            proof {
                assert(src.skip(consumed)[0] == src[consumed]);
                assert(item == src[consumed]);
            }
            let ghost datapre = self.data@;
            let kept = self.push(item);
            proof {
                if kept {
                    assert(self.data@[datapre.len() as int] == item);
                    assert forall|i: int| 0 <= i < datapre.len() implies self.data@[i]
                        == datapre[i] by {
                        assert(datapre.push(item)[i] == datapre[i]);
                    }
                }
                assert(items@ =~= src.skip(src.len() - items@.len()));
            }
        }
        proof {
            assert(src.skip(src.len() - 0) =~= Seq::<T>::empty());
        }
    }
}

/// Keep only the first `cap` elements of `v`.
#[verifier::loop_isolation(false)]
fn clip<T>(v: &mut Vec<T>, cap: usize)
    ensures
        final(v)@.len() == if old(v)@.len() <= cap {
            old(v)@.len() as int
        } else {
            cap as int
        },
        forall|i: int| 0 <= i < final(v)@.len() ==> final(v)@[i] == old(v)@[i],
{
    while v.len() > cap
        invariant
            v@.len() <= old(v)@.len(),
            cap <= v@.len() || v@.len() == old(v)@.len(),
            forall|i: int| 0 <= i < v@.len() ==> v@[i] == old(v)@[i],
        decreases v@.len(),
    {
        let _ = v.pop();
        proof {
            assert forall|i: int| 0 <= i < v@.len() implies v@[i] == old(v)@[i] by {}
        }
    }
}

/// An ordered, capacity-bounded sequence of item products behind one
/// fragment handle, with the same positional reconciliation as the
/// unbounded list. At most `N` items are ever stored or mounted.
pub struct BoundedProduct<P: Mountable, const N: usize> {
    inner: ListProduct<P>,
}

impl<P: Mountable, const N: usize> BoundedProduct<P, N> {
    /// The list engine doing the reconciliation.
    pub closed spec fn inner_of(self) -> ListProduct<P> {
        self.inner
    }

    /// The item products, in position order.
    pub open spec fn items(self) -> Seq<P> {
        self.inner_of().items()
    }

    /// How many leading items are attached to the host surface.
    pub open spec fn mounted_count(self) -> int {
        self.inner_of().mounted_count()
    }

    /// Storage never exceeds the capacity.
    pub open spec fn capped(self) -> bool {
        self.items().len() <= N
    }

    /// The bookkeeping of the inner list, plus the capacity bound.
    pub open spec fn inv(self, host: Host) -> bool {
        self.inner_of().inv(host) && self.capped()
    }

    /// The length of a pass once clamped to the capacity.
    pub open spec fn clamped(n: int) -> int {
        if n <= N {
            n
        } else {
            N as int
        }
    }

    /// How many item products are stored, mounted or retained; never more
    /// than the capacity.
    pub fn len(&self) -> (l: usize)
        requires
            self.capped(),
        ensures
            l == self.items().len(),
            l <= N,
    {
        self.inner.len()
    }

    /// How many leading items are attached to the host surface.
    pub fn mounted(&self) -> (m: usize)
        ensures
            m == self.mounted_count(),
    {
        self.inner.mounted()
    }

    /// The item product at position `i`.
    pub fn item(&self, i: usize) -> (p: &P)
        requires
            i < self.items().len(),
        ensures
            p == self.items()[i as int],
    {
        self.inner.item(i)
    }

    /// Build products for the first `N` views of `views`; the rest are
    /// silently dropped.
    pub fn build<V: Render<Product = P>>(views: Vec<V>, host: &mut Host) -> (list: BoundedProduct<
        P,
        N,
    >)
        ensures
            list.inv(*final(host)),
            list.items().len() == Self::clamped(views@.len() as int),
            list.mounted_count() == Self::clamped(views@.len() as int),
            forall|i: int|
                0 <= i < Self::clamped(views@.len() as int) ==> views@[i].describes(
                    #[trigger] list.items()[i],
                    *final(host),
                ),
            final(host).preserves_outside(*old(host), Set::empty()),
            forall|n: int| #[trigger]
                Mountable::owned(list).contains(n) ==> old(host).node_count() <= n < final(host).node_count(),
            !final(host).attached(Mountable::primary(list)),
            final(host).focus_of() == old(host).focus_of(),
    {
        let ghost src = views@;
        let mut views = views;
        clip(&mut views, N);
        let inner = ListProduct::build(views, host);
        BoundedProduct { inner }
    }

    /// Reconcile a fresh pass against this list, exactly as the unbounded
    /// variant does, after clamping the pass to the capacity.
    pub fn update<V: Render<Product = P>>(&mut self, views: Vec<V>, host: &mut Host)
        requires
            old(self).inv(*old(host)),
        ensures
            final(self).inv(*final(host)),
            final(self).items().len() == if Self::clamped(views@.len() as int) >= old(self).items().len() {
                Self::clamped(views@.len() as int)
            } else {
                old(self).items().len() as int
            },
            final(self).mounted_count() == Self::clamped(views@.len() as int),
            forall|i: int|
                0 <= i < Self::clamped(views@.len() as int) ==> views@[i].describes(
                    #[trigger] final(self).items()[i],
                    *final(host),
                ),
            forall|i: int|
                Self::clamped(views@.len() as int) <= i < old(self).items().len() ==> final(self).items()[i] == old(self).items()[i],
            forall|i: int|
                0 <= i < Self::clamped(views@.len() as int) && i < old(self).items().len()
                    ==> (#[trigger] final(self).items()[i]).primary() == old(self).items()[i].primary() || old(host).node_count() <= final(self).items()[i].primary() < final(host).node_count(),
            forall|i: int, n: int|
                0 <= i < old(self).items().len() && #[trigger] final(self).items()[i].owned().contains(n) ==> old(self).items()[i].owned().contains(n)
                    || old(host).node_count() <= n < final(host).node_count(),
            final(host).preserves_outside(*old(host), Mountable::owned(*old(self))),
            forall|n: int| #[trigger]
                Mountable::owned(*final(self)).contains(n) ==> Mountable::owned(
                    *old(self),
                ).contains(n) || old(host).node_count() <= n < final(host).node_count(),
            Mountable::primary(*final(self)) == Mountable::primary(*old(self)),
            final(host).attached(Mountable::primary(*old(self))) == old(host).attached(
                Mountable::primary(*old(self)),
            ),
            final(host).focus_of() == old(host).focus_of(),
            Self::clamped(views@.len() as int) == old(self).mounted_count() && all_steady(
                views@.take(Self::clamped(views@.len() as int)),
            ) && all_describe(
                views@.take(Self::clamped(views@.len() as int)),
                old(self).items(),
                *old(host),
            ) ==> final(host).same_as(*old(host)),
    {
        let ghost src = views@;
        let mut views = views;
        clip(&mut views, N);
        proof {
            assert(views@ =~= src.take(Self::clamped(src.len() as int)));
            assert forall|i: int|
                0 <= i < views@.len() implies views@[i] == src[i] && (all_steady(views@)
                == all_steady(src.take(Self::clamped(src.len() as int)))) by {}
        }
        self.inner.update(views, host);
    }
}

/// Each item's nodes are among the bounded list's nodes.
pub proof fn lemma_bounded_item_owned_sub<P: Mountable, const N: usize>(
    p: BoundedProduct<P, N>,
    i: int,
)
    requires
        0 <= i < p.items().len(),
    ensures
        p.items()[i].owned().subset_of(Mountable::owned(p)),
{
    crate::list::unbounded::lemma_item_owned_sub(p.inner, i);
}

impl<S, P: Mountable + Trigger<S>, const N: usize> Trigger<S> for BoundedProduct<P, N> {
    fn trigger(&self, state: &mut S, e: &Event, eid: EventId) -> Option<Then> {
        self.inner.trigger(state, e, eid)
    }
}

impl<P: Mountable, const N: usize> Mountable for BoundedProduct<P, N> {
    closed spec fn owned(self) -> Set<int> {
        self.inner.owned()
    }

    closed spec fn primary(self) -> int {
        self.inner.primary()
    }

    open spec fn wf(self, host: Host) -> bool {
        self.inv(host)
    }

    proof fn lemma_wf(self, host: Host) {
        self.inner.lemma_wf(host);
    }

    proof fn lemma_wf_frame(self, h1: Host, h2: Host) {
        self.inner.lemma_wf_frame(h1, h2);
    }

    fn js(&self) -> (n: NodeId) {
        self.inner.js()
    }

    fn unmount(&self, host: &mut Host) {
        self.inner.unmount(host);
    }

    fn mount(&self, host: &mut Host) {
        self.inner.mount(host);
    }
}

} // verus!
