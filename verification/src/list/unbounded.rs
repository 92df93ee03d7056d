//! The heap-backed list product.
//!
//! A [`ListProduct`] maps a sequence of views onto a sequence of mounted
//! item products, diffing positionally: matching positions are updated in
//! place, surplus products are detached but retained so a later, longer pass
//! can re-attach them instead of rebuilding, and missing positions are built
//! fresh and appended at the fragment's insertion point.

use vstd::prelude::*;

pub mod list;

verus! {

use crate::event::Event;
use crate::host::{EventId, Host, NodeId};
use crate::runtime::{Then, Trigger};
use crate::{slot_at, Mountable, Render};

/// The host nodes held by any product in a sequence of products.
pub open spec fn seq_owned<P: Mountable>(items: Seq<P>) -> Set<int> {
    Set::new(|n: int| exists|i: int| 0 <= i < items.len() && #[trigger] items[i].owned().contains(n))
}

/// Every view in the pass finds its product at the same position already up
/// to date.
pub open spec fn all_describe<V: Render>(views: Seq<V>, items: Seq<V::Product>, host: Host) -> bool {
    forall|i: int| 0 <= i < views.len() ==> views[i].describes(#[trigger] items[i], host)
}

/// Every view in the pass is steady.
pub open spec fn all_steady<V: Render>(views: Seq<V>) -> bool {
    forall|i: int| 0 <= i < views.len() ==> (#[trigger] views[i]).steady()
}

/// An ordered sequence of item products behind one fragment handle, with a
/// count of how many of them are currently attached to the host surface.
/// Products past `mounted` are retained in memory, detached, so the list can
/// regrow into them.
pub struct ListProduct<P: Mountable> {
    list: Vec<P>,
    mounted: usize,
    fragment: NodeId,
}

impl<P: Mountable> ListProduct<P> {
    /// The item products, in position order.
    pub closed spec fn items(self) -> Seq<P> {
        self.list@
    }

    /// How many leading items are attached to the host surface.
    pub closed spec fn mounted_count(self) -> int {
        self.mounted as int
    }

    /// The list's bookkeeping is consistent with the host surface: every
    /// item is well formed, items own disjoint node sets apart from the
    /// fragment handle, and exactly the first `mounted` items are attached.
    pub open spec fn inv(self, host: Host) -> bool {
        &&& host.valid(Mountable::primary(self))
        &&& self.mounted_count() <= self.items().len()
        &&& forall|i: int| 0 <= i < self.items().len() ==> (#[trigger] self.items()[i]).wf(host)
        &&& forall|i: int|
            0 <= i < self.items().len() ==> !(#[trigger] self.items()[i]).owned().contains(
                Mountable::primary(self),
            )
        &&& forall|i: int, j: int|
            0 <= i < j < self.items().len() ==> (#[trigger] self.items()[i].owned()).disjoint(
                #[trigger] self.items()[j].owned(),
            )
        &&& forall|i: int|
            0 <= i < self.items().len() ==> host.attached(
                (#[trigger] self.items()[i]).primary(),
            ) == (i < self.mounted_count())
    }

    /// How many item products are stored, mounted or retained.
    pub fn len(&self) -> (l: usize)
        ensures
            l == self.items().len(),
    {
        self.list.len()
    }

    /// How many leading items are attached to the host surface.
    pub fn mounted(&self) -> (m: usize)
        ensures
            m == self.mounted_count(),
    {
        self.mounted
    }

    /// The item product at position `i`.
    pub fn item(&self, i: usize) -> (p: &P)
        requires
            i < self.items().len(),
        ensures
            p == self.items()[i as int],
    {
        &self.list[i]
    }

    /// Build products for `views` in order, mount each at the fragment's
    /// insertion point, and return the assembled list.
    pub fn build<V: Render<Product = P>>(views: Vec<V>, host: &mut Host) -> (list: ListProduct<P>)
        ensures
            list.inv(*final(host)),
            list.items().len() == views@.len(),
            list.mounted_count() == views@.len(),
            forall|i: int|
                0 <= i < views@.len() ==> views@[i].describes(
                    #[trigger] list.items()[i],
                    *final(host),
                ),
            final(host).preserves_outside(*old(host), Set::empty()),
            forall|n: int| #[trigger]
                Mountable::owned(list).contains(n) ==> old(host).node_count() <= n < final(host).node_count(),
            !final(host).attached(Mountable::primary(list)),
            final(host).focus_of() == old(host).focus_of(),
    {
        let fragment = host.create_empty();
        let mut list = ListProduct { list: Vec::new(), mounted: 0, fragment };
        list.extend(views, host);
        list
    }

    /// Build and mount a product for each view in `views`, appending them
    /// after the existing items; afterwards every item is mounted.
    fn extend<V: Render<Product = P>>(&mut self, views: Vec<V>, host: &mut Host)
        requires
            old(self).inv(*old(host)),
            old(self).mounted_count() == old(self).items().len(),
        ensures
            final(self).inv(*final(host)),
            final(self).items().len() == old(self).items().len() + views@.len(),
            final(self).mounted_count() == final(self).items().len(),
            forall|i: int|
                0 <= i < old(self).items().len() ==> final(self).items()[i] == old(self).items()[i],
            forall|i: int|
                old(self).items().len() <= i < final(self).items().len() ==> views@[i - old(self).items().len()].describes(#[trigger] final(self).items()[i], *final(host)),
            forall|i: int, n: int|
                old(self).items().len() <= i < final(self).items().len() && #[trigger] final(self).items()[i].owned().contains(n) ==> old(host).node_count() <= n < final(host).node_count(),
            final(host).preserves_outside(*old(host), Set::empty()),
            Mountable::primary(*final(self)) == Mountable::primary(*old(self)),
            final(host).focus_of() == old(host).focus_of(),
            views@.len() == 0 ==> *final(host) == *old(host),
    {
        let ghost items0 = self.list@;
        let ghost h0 = *host;
        let ghost views0 = views@;
        let mut views = views;
        proof {
            assert(views0.skip(0) =~= views0);
        }
        while views.len() > 0
            invariant
                views0.len() == 0 ==> *host == h0,
                self.fragment == old(self).fragment,
                self.mounted == self.list@.len(),
                items0.len() <= self.list@.len(),
                self.list@.len() + views@.len() == items0.len() + views0.len(),
                views@ == views0.skip(self.list@.len() - items0.len()),
                host.valid(self.fragment@),
                host.node_count() >= h0.node_count(),
                host.preserves_outside(h0, Set::empty()),
                host.focus_of() == h0.focus_of(),
                forall|i: int| 0 <= i < items0.len() ==> self.list@[i] == items0[i],
                forall|i: int| 0 <= i < self.list@.len() ==> (#[trigger] self.list@[i]).wf(*host),
                forall|i: int|
                    0 <= i < self.list@.len() ==> !(#[trigger] self.list@[i]).owned().contains(
                        self.fragment@,
                    ),
                forall|i: int, j: int|
                    0 <= i < j < self.list@.len() ==> (#[trigger] self.list@[i].owned()).disjoint(
                        #[trigger] self.list@[j].owned(),
                    ),
                forall|i: int|
                    0 <= i < self.list@.len() ==> host.attached(
                        (#[trigger] self.list@[i]).primary(),
                    ),
                forall|i: int|
                    items0.len() <= i < self.list@.len() ==> views0[i - items0.len()].describes(
                        #[trigger] self.list@[i],
                        *host,
                    ),
                forall|i: int, n: int|
                    items0.len() <= i < self.list@.len() && #[trigger] self.list@[i].owned().contains(n)
                        ==> h0.node_count() <= n < host.node_count(),
            decreases views.len(),
        {
            let ghost hpre = *host;
            let ghost k = self.list@.len() - items0.len();
            let v = views.remove(0);
            proof {
                assert(views0.skip(k)[0] == views0[k]);
                assert(v == views0[k]);
            }
            let built = v.build(host);
            proof {
                built.lemma_wf(*host);
                assert forall|i: int|
                    0 <= i < self.list@.len() implies #[trigger] self.list@[i].owned().disjoint(
                    Set::empty(),
                ) by {}
                lemma_items_frame(self.list@, hpre, *host, Set::empty());
                assert forall|i: int|
                    0 <= i < self.list@.len() implies #[trigger] self.list@[i].owned().disjoint(
                    built.owned(),
                ) by {
                    self.list@[i].lemma_wf(hpre);
                }
                assert forall|i: int|
                    items0.len() <= i < self.list@.len() implies views0[i - items0.len()].describes(
                    #[trigger] self.list@[i],
                    *host,
                ) by {
                    views0[i - items0.len()].lemma_describes_frame(self.list@[i], hpre, *host);
                }
            }
            let ghost hmid = *host;
            built.mount(host);
            proof {
                lemma_items_frame(self.list@, hmid, *host, built.owned());
                assert forall|i: int|
                    items0.len() <= i < self.list@.len() implies views0[i - items0.len()].describes(
                    #[trigger] self.list@[i],
                    *host,
                ) by {
                    views0[i - items0.len()].lemma_describes_frame(self.list@[i], hmid, *host);
                }
                assert(host.texts_agree_on(hmid, built.owned())) by {
                    built.lemma_wf(hmid);
                }
                v.lemma_describes_frame(built, hmid, *host);
            }
            let ghost itemspre = self.list@;
            self.list.push(built);
            self.mounted = self.list.len();
            proof {
                broadcast use vstd::seq::group_seq_axioms;

                let newlen = self.list@.len() as int;
                assert(self.list@ == itemspre.push(built));
                assert(itemspre.len() == newlen - 1);
                assert(self.list@[newlen - 1] == built);
                assert(views0[k].describes(self.list@[newlen - 1], *host));
                assert forall|i: int|
                    items0.len() <= i < newlen implies views0[i - items0.len()].describes(
                    #[trigger] self.list@[i],
                    *host,
                ) by {
                    if i < newlen - 1 {
                        vstd::seq::lemma_seq_push_index_different_alt(itemspre, built, i);
                        assert(views0[i - items0.len()].describes(itemspre[i], *host));
                    } else {
                        assert(i - items0.len() == k);
                    }
                }
                assert forall|i: int, n: int|
                    items0.len() <= i < newlen && #[trigger] self.list@[i].owned().contains(n)
                        implies h0.node_count() <= n < host.node_count() by {
                    if i < newlen - 1 {
                        vstd::seq::lemma_seq_push_index_different_alt(itemspre, built, i);
                        assert(itemspre[i].owned().contains(n));
                    } else {
                        assert(built.owned().contains(n));
                    }
                }
                assert(views@ =~= views0.skip(newlen - items0.len()));
            }
        }
        proof {
            assert(views0.skip(self.list@.len() - items0.len()) =~= Seq::<V>::empty());
        }
    }

    /// Reconcile a fresh pass of views against this list, position by
    /// position. Matching positions are updated in place; if the new pass is
    /// shorter, the surplus items are detached but retained; if it is
    /// longer, retained items are re-attached after being updated, and any
    /// positions beyond storage are built fresh. Afterwards exactly the
    /// first `views.len()` items are mounted, in pass order, and a pass that
    /// changed nothing has touched nothing on the host surface.
    #[verifier::loop_isolation(false)]
    pub fn update<V: Render<Product = P>>(&mut self, views: Vec<V>, host: &mut Host)
        requires
            old(self).inv(*old(host)),
        ensures
            final(self).inv(*final(host)),
            final(self).items().len() == if views@.len() >= old(self).items().len() {
                views@.len() as int
            } else {
                old(self).items().len() as int
            },
            final(self).mounted_count() == views@.len(),
            forall|i: int|
                0 <= i < views@.len() ==> views@[i].describes(
                    #[trigger] final(self).items()[i],
                    *final(host),
                ),
            forall|i: int|
                views@.len() <= i < old(self).items().len() ==> final(self).items()[i] == old(self).items()[i],
            forall|i: int, n: int|
                old(self).items().len() <= i < final(self).items().len() && #[trigger] final(self).items()[i].owned().contains(n) ==> old(host).node_count() <= n < final(host).node_count(),
            forall|i: int|
                0 <= i < views@.len() && i < old(self).items().len() ==> (#[trigger] final(self).items()[i]).primary() == old(self).items()[i].primary() || old(host).node_count() <= final(self).items()[i].primary() < final(host).node_count(),
            forall|i: int, n: int|
                0 <= i < old(self).items().len() && #[trigger] final(self).items()[i].owned().contains(n) ==> old(self).items()[i].owned().contains(n)
                    || old(host).node_count() <= n < final(host).node_count(),
            final(host).preserves_outside(*old(host), Mountable::owned(*old(self))),
            forall|n: int| #[trigger]
                Mountable::owned(*final(self)).contains(n) ==> Mountable::owned(
                    *old(self),
                ).contains(n) || old(host).node_count() <= n < final(host).node_count(),
            Mountable::primary(*final(self)) == Mountable::primary(*old(self)),
            final(host).attached(Mountable::primary(*old(self))) == old(host).attached(
                Mountable::primary(*old(self)),
            ),
            final(host).focus_of() == old(host).focus_of(),
            views@.len() == old(self).mounted_count() && all_steady(views@) && all_describe(
                views@,
                old(self).items(),
                *old(host),
            ) ==> final(host).same_as(*old(host)),
    {
        let ghost h0 = *host;
        let ghost items0 = self.list@;
        let ghost views0 = views@;
        let ghost noop = views0.len() == old(self).mounted_count() && all_steady(views0)
            && all_describe(views0, items0, h0);
        let mut views = views;
        let mut updated: usize = 0;
        proof {
            assert(views0.skip(0) =~= views0);
        }
        while updated < self.list.len() && views.len() > 0
            invariant
                updated as int == views0.len() - views@.len(),
                updated <= self.list@.len(),
                views@ == views0.skip(updated as int),
                self.fragment == old(self).fragment,
                self.mounted == old(self).mounted,
                self.list@.len() == items0.len(),
                old(self).inv(h0),
                host.valid(self.fragment@),
                host.node_count() >= h0.node_count(),
                host.preserves_outside(h0, seq_owned(items0)),
                host.attached(self.fragment@) == h0.attached(self.fragment@),
                host.focus_of() == h0.focus_of(),
                forall|j: int| updated as int <= j < items0.len() ==> self.list@[j] == items0[j],
                forall|j: int| 0 <= j < self.list@.len() ==> (#[trigger] self.list@[j]).wf(*host),
                forall|j: int|
                    0 <= j < self.list@.len() ==> !(#[trigger] self.list@[j]).owned().contains(
                        self.fragment@,
                    ),
                forall|j: int, l: int|
                    0 <= j < l < self.list@.len() ==> (#[trigger] self.list@[j].owned()).disjoint(
                        #[trigger] self.list@[l].owned(),
                    ),
                forall|j: int|
                    0 <= j < self.list@.len() ==> host.attached(
                        (#[trigger] self.list@[j]).primary(),
                    ) == (j < self.mounted as int),
                forall|j: int|
                    0 <= j < updated as int ==> views0[j].describes(
                        #[trigger] self.list@[j],
                        *host,
                    ),
                forall|j: int, n: int|
                    0 <= j < self.list@.len() && #[trigger] self.list@[j].owned().contains(n)
                        ==> items0[j].owned().contains(n) || h0.node_count() <= n
                        < host.node_count(),
                forall|j: int|
                    0 <= j < updated as int ==> (#[trigger] self.list@[j]).primary()
                        == items0[j].primary() || h0.node_count() <= self.list@[j].primary()
                        < host.node_count(),
                noop ==> host.same_as(h0),
            decreases views.len(),
        {
            let ghost hpre = *host;
            let ghost itemspre = self.list@;
            let ghost x = updated as int;
            let v = views.remove(0);
            proof {
                assert(views0.skip(x)[0] == views0[x]);
                assert(v == views0[x]);
                if noop {
                    assert(x < items0.len());
                    assert(itemspre[x] == items0[x]);
                    assert(views0[x].describes(items0[x], h0));
                    assert(hpre.texts_agree_on(h0, items0[x].owned())) by {
                        items0[x].lemma_wf(h0);
                        assert forall|n: int| #[trigger] items0[x].owned().contains(n) implies hpre
                            .valid(n) && h0.valid(n) && hpre.text_at(n) == h0.text_at(n) by {
                            assert(h0.valid(n));
                        }
                    }
                    views0[x].lemma_describes_frame(items0[x], h0, hpre);
                    assert(views0[x].describes(itemspre[x], hpre));
                }
            }
            let slot = slot_at(&mut self.list, updated);
            v.update(slot, host);
            proof {
                assert(self.list@.len() == itemspre.len());
                assert forall|j: int|
                    0 <= j < itemspre.len() && j != x implies self.list@[j] == itemspre[j] by {}
                lemma_items_frame_except(itemspre, hpre, *host, x);
                assert forall|j: int|
                    0 <= j < x implies views0[j].describes(#[trigger] self.list@[j], *host) by {
                    views0[j].lemma_describes_frame(itemspre[j], hpre, *host);
                }
                assert forall|j: int, l: int|
                    0 <= j < l < self.list@.len() implies (
                #[trigger] self.list@[j].owned()).disjoint(#[trigger] self.list@[l].owned()) by {
                    if j == x || l == x {
                        let other = if j == x {
                            l
                        } else {
                            j
                        };
                        itemspre[other].lemma_wf(hpre);
                        assert forall|n: int| #[trigger]
                            self.list@[x].owned().contains(n) implies !itemspre[other]
                            .owned()
                            .contains(n) by {
                            if itemspre[x].owned().contains(n) {
                                if other < x {
                                    assert(itemspre[other].owned().disjoint(itemspre[x].owned()));
                                    if itemspre[other].owned().contains(n) {
                                        assert(!itemspre[x].owned().contains(n));
                                    }
                                } else {
                                    assert(itemspre[x].owned().disjoint(itemspre[other].owned()));
                                }
                            } else {
                                assert(hpre.node_count() <= n);
                            }
                        }
                    }
                }
                assert forall|j: int|
                    0 <= j < self.list@.len() implies !(#[trigger] self.list@[j]).owned().contains(
                    self.fragment@,
                ) by {
                    if j == x {
                        assert(hpre.valid(self.fragment@));
                        assert(!itemspre[x].owned().contains(self.fragment@));
                    }
                }
                assert(host.attached(self.fragment@) == hpre.attached(self.fragment@)) by {
                    assert(!itemspre[x].owned().contains(self.fragment@));
                    assert(hpre.valid(self.fragment@));
                }
                assert(host.preserves_outside(h0, seq_owned(items0))) by {
                    assert forall|n: int|
                        h0.valid(n) && !seq_owned(items0).contains(n) implies #[trigger] host
                        .text_at(n) == h0.text_at(n) && host.attached(n) == h0.attached(n) by {
                        assert(!items0[x].owned().contains(n));
                        assert(!itemspre[x].owned().contains(n)) by {
                            if itemspre[x].owned().contains(n) {
                                assert(items0[x].owned().contains(n) || h0.node_count() <= n);
                            }
                        }
                        assert(hpre.text_at(n) == h0.text_at(n) && hpre.attached(n) == h0.attached(
                            n,
                        ));
                    }
                }
                assert forall|j: int, n: int|
                    0 <= j < self.list@.len() && #[trigger] self.list@[j].owned().contains(n)
                        implies items0[j].owned().contains(n) || h0.node_count() <= n
                        < host.node_count() by {
                    if j == x {
                        assert(itemspre[x].owned().contains(n) || hpre.node_count() <= n
                            < host.node_count());
                    }
                }
                if noop {
                    crate::host::lemma_same_as_trans(*host, hpre, h0);
                }
            }
            updated = updated + 1;
            proof {
                assert(views@ =~= views0.skip(updated as int));
            }
        }
        let ghost hphase = *host;
        let ghost itemsphase = self.list@;
        if updated < self.mounted {
            self.unmount_from(updated, host);
            proof {
                assert(views@.len() == 0);
                assert(updated as int == views0.len());
                assert forall|j: int|
                    0 <= j < views0.len() implies views0[j].describes(
                    #[trigger] self.list@[j],
                    *host,
                ) by {
                    assert(self.list@[j] == itemsphase[j]);
                    lemma_texts_carry(itemsphase[j], hphase, *host);
                    views0[j].lemma_describes_frame(itemsphase[j], hphase, *host);
                }
            }
        } else {
            self.mount_upto(updated, host);
            let ghost hmnt = *host;
            proof {
                assert forall|j: int|
                    0 <= j < updated as int implies views0[j].describes(
                    #[trigger] self.list@[j],
                    *host,
                ) by {
                    assert(self.list@[j] == itemsphase[j]);
                    lemma_texts_carry(itemsphase[j], hphase, *host);
                    views0[j].lemma_describes_frame(itemsphase[j], hphase, *host);
                }
            }
            if updated == self.list.len() {
                let ghost itemsmnt = self.list@;
                self.extend(views, host);
                proof {
                    assert forall|j: int|
                        0 <= j < itemsmnt.len() implies views0[j].describes(
                        #[trigger] self.list@[j],
                        *host,
                    ) by {
                        assert(self.list@[j] == itemsmnt[j]);
                        lemma_texts_carry(itemsmnt[j], hmnt, *host);
                        views0[j].lemma_describes_frame(itemsmnt[j], hmnt, *host);
                    }
                    assert forall|j: int|
                        itemsmnt.len() <= j < views0.len() implies views0[j].describes(
                        #[trigger] self.list@[j],
                        *host,
                    ) by {
                        assert(views0.skip(itemsmnt.len() as int)[j - itemsmnt.len()]
                            == views0[j]);
                    }
                }
            } else {
                proof {
                    assert(views@.len() == 0);
                    assert(updated as int == views0.len());
                }
            }
        }
        proof {
            let oldowned = Mountable::owned(*old(self));
            let frag = self.fragment@;
            assert(oldowned.contains(frag));
            assert forall|n: int|
                h0.valid(n) && !oldowned.contains(n) implies #[trigger] host.text_at(n)
                == h0.text_at(n) && host.attached(n) == h0.attached(n) by {
                assert(n != frag);
                assert(!seq_owned(items0).contains(n));
                assert(hphase.text_at(n) == h0.text_at(n) && hphase.attached(n) == h0.attached(n));
                assert(!seq_owned(itemsphase).contains(n)) by {
                    if seq_owned(itemsphase).contains(n) {
                        let j = choose|j: int|
                            0 <= j < itemsphase.len() && #[trigger] itemsphase[j].owned().contains(
                                n,
                            );
                        assert(items0[j].owned().contains(n) || h0.node_count() <= n);
                        assert(seq_owned(items0).contains(n));
                    }
                }
                assert(!seq_owned(itemsphase).insert(frag).contains(n));
            }
            assert(host.preserves_outside(h0, oldowned));
            assert forall|n: int| #[trigger]
                Mountable::owned(*self).contains(n) implies oldowned.contains(n)
                || h0.node_count() <= n < host.node_count() by {
                if n != frag {
                    assert(seq_owned(self.list@).contains(n));
                    let j = choose|j: int|
                        0 <= j < self.list@.len() && #[trigger] self.list@[j].owned().contains(n);
                    if j < itemsphase.len() {
                        assert(self.list@[j] == itemsphase[j]);
                        assert(items0[j].owned().contains(n) || h0.node_count() <= n
                            < host.node_count());
                        if items0[j].owned().contains(n) {
                            assert(seq_owned(items0).contains(n));
                        }
                    }
                }
            }
            if noop {
                assert(host.same_as(h0));
            }
        }
    }

    /// Detach the items at positions `from ..` from the host surface,
    /// keeping them in storage for a later regrowth.
    fn unmount_from(&mut self, from: usize, host: &mut Host)
        requires
            old(self).inv(*old(host)),
            from <= old(self).mounted_count(),
        ensures
            final(self).inv(*final(host)),
            final(self).items() == old(self).items(),
            final(self).mounted_count() == from,
            final(host).node_count() == old(host).node_count(),
            final(host).same_texts(*old(host)),
            final(host).preserves_outside(*old(host), Mountable::owned(*old(self))),
            Mountable::primary(*final(self)) == Mountable::primary(*old(self)),
            final(host).attached(Mountable::primary(*old(self))) == old(host).attached(
                Mountable::primary(*old(self)),
            ),
            final(host).focus_of() == old(host).focus_of(),
            final(host).event_ids() == old(host).event_ids(),
    {
        let ghost h0 = *host;
        let ghost items0 = self.list@;
        let mut i = from;
        while i < self.mounted
            invariant
                from <= i,
                i as int <= self.mounted as int,
                self.mounted == old(self).mounted,
                self.fragment == old(self).fragment,
                self.list@ == items0,
                self.mounted <= self.list@.len(),
                old(self).inv(h0),
                host.valid(self.fragment@),
                host.node_count() == h0.node_count(),
                host.same_texts(h0),
                host.preserves_outside(h0, seq_owned(items0)),
                host.attached(self.fragment@) == h0.attached(self.fragment@),
                host.focus_of() == h0.focus_of(),
                host.event_ids() == h0.event_ids(),
                forall|j: int| 0 <= j < items0.len() ==> (#[trigger] items0[j]).wf(*host),
                forall|j: int|
                    0 <= j < items0.len() ==> host.attached((#[trigger] items0[j]).primary()) == (
                    j < from as int || (i as int <= j && j < self.mounted as int)),
            decreases self.mounted as int - i as int,
        {
            let ghost hpre = *host;
            self.list[i].unmount(host);
            proof {
                lemma_items_frame_except(items0, hpre, *host, i as int);
                assert(host.attached(self.fragment@) == hpre.attached(self.fragment@)) by {
                    assert(!items0[i as int].owned().contains(self.fragment@));
                    assert(h0.valid(self.fragment@));
                }
                assert(host.same_texts(h0)) by {
                    assert forall|n: int| h0.valid(n) implies #[trigger] host.text_at(n)
                        == h0.text_at(n) by {
                        assert(hpre.text_at(n) == h0.text_at(n));
                    }
                }
                assert(host.preserves_outside(h0, seq_owned(items0))) by {
                    crate::host::lemma_preserves_trans(
                        *host,
                        hpre,
                        h0,
                        items0[i as int].owned(),
                        seq_owned(items0),
                    );
                    assert forall|n: int|
                        h0.valid(n) && !seq_owned(items0).contains(n) implies #[trigger] host
                        .text_at(n) == h0.text_at(n) && host.attached(n) == h0.attached(n) by {
                        assert(!seq_owned(items0).union(items0[i as int].owned()).contains(n));
                    }
                }
            }
            i = i + 1;
        }
        self.mounted = from;
    }

    /// Re-attach the retained items at positions `self.mounted .. to` to the
    /// host surface, in order.
    fn mount_upto(&mut self, to: usize, host: &mut Host)
        requires
            old(self).inv(*old(host)),
            old(self).mounted_count() <= to,
            to <= old(self).items().len(),
        ensures
            final(self).inv(*final(host)),
            final(self).items() == old(self).items(),
            final(self).mounted_count() == to,
            final(host).node_count() == old(host).node_count(),
            final(host).same_texts(*old(host)),
            final(host).preserves_outside(*old(host), Mountable::owned(*old(self))),
            Mountable::primary(*final(self)) == Mountable::primary(*old(self)),
            final(host).attached(Mountable::primary(*old(self))) == old(host).attached(
                Mountable::primary(*old(self)),
            ),
            final(host).focus_of() == old(host).focus_of(),
            final(host).event_ids() == old(host).event_ids(),
            to == old(self).mounted_count() ==> *final(host) == *old(host),
    {
        let ghost h0 = *host;
        let ghost items0 = self.list@;
        let mut i = self.mounted;
        while i < to
            invariant
                self.mounted <= i,
                i as int <= to as int,
                to <= self.list@.len(),
                self.mounted == old(self).mounted,
                self.fragment == old(self).fragment,
                self.list@ == items0,
                old(self).inv(h0),
                i as int == old(self).mounted_count() ==> *host == h0,
                host.valid(self.fragment@),
                host.node_count() == h0.node_count(),
                host.same_texts(h0),
                host.preserves_outside(h0, seq_owned(items0)),
                host.attached(self.fragment@) == h0.attached(self.fragment@),
                host.focus_of() == h0.focus_of(),
                host.event_ids() == h0.event_ids(),
                forall|j: int| 0 <= j < items0.len() ==> (#[trigger] items0[j]).wf(*host),
                forall|j: int|
                    0 <= j < items0.len() ==> host.attached((#[trigger] items0[j]).primary()) == (
                    j < i as int),
            decreases to as int - i as int,
        {
            let ghost hpre = *host;
            self.list[i].mount(host);
            proof {
                lemma_items_frame_except(items0, hpre, *host, i as int);
                assert(host.attached(self.fragment@) == hpre.attached(self.fragment@)) by {
                    assert(!items0[i as int].owned().contains(self.fragment@));
                    assert(h0.valid(self.fragment@));
                }
                assert(host.same_texts(h0)) by {
                    assert forall|n: int| h0.valid(n) implies #[trigger] host.text_at(n)
                        == h0.text_at(n) by {
                        assert(hpre.text_at(n) == h0.text_at(n));
                    }
                }
                assert(host.preserves_outside(h0, seq_owned(items0))) by {
                    crate::host::lemma_preserves_trans(
                        *host,
                        hpre,
                        h0,
                        items0[i as int].owned(),
                        seq_owned(items0),
                    );
                    assert forall|n: int|
                        h0.valid(n) && !seq_owned(items0).contains(n) implies #[trigger] host
                        .text_at(n) == h0.text_at(n) && host.attached(n) == h0.attached(n) by {
                        assert(!seq_owned(items0).union(items0[i as int].owned()).contains(n));
                    }
                }
            }
            i = i + 1;
        }
        self.mounted = to;
    }
}

impl<S, P: Mountable + Trigger<S>> Trigger<S> for ListProduct<P> {
    fn trigger(&self, state: &mut S, e: &Event, eid: EventId) -> Option<Then> {
        let mut i: usize = 0;
        while i < self.list.len()
            invariant
                i <= self.list@.len(),
            decreases self.list@.len() - i,
        {
            let hit = self.list[i].trigger(state, e, eid);
            if hit.is_some() {
                return hit;
            }
            i = i + 1;
        }
        None
    }
}

/// Each item's nodes are among the list's nodes.
pub proof fn lemma_item_owned_sub<P: Mountable>(p: ListProduct<P>, i: int)
    requires
        0 <= i < p.items().len(),
    ensures
        p.items()[i].owned().subset_of(Mountable::owned(p)),
{
    assert forall|n: int| #[trigger] p.items()[i].owned().contains(n) implies Mountable::owned(
        p,
    ).contains(n) by {
        assert(seq_owned(p.list@).contains(n));
    }
}

/// A product's text footprint carries across any host step that leaves all
/// old texts alone.
proof fn lemma_texts_carry<P: Mountable>(item: P, h1: Host, h2: Host)
    requires
        item.wf(h1),
        h2.node_count() >= h1.node_count(),
        forall|n: int| h1.valid(n) ==> #[trigger] h2.text_at(n) == h1.text_at(n),
    ensures
        h2.texts_agree_on(h1, item.owned()),
{
    item.lemma_wf(h1);
    assert forall|n: int| #[trigger] item.owned().contains(n) implies h2.valid(n) && h1.valid(n)
        && h2.text_at(n) == h1.text_at(n) by {
        assert(h1.valid(n));
    }
}

/// Every item but the one at `x` survives a host step confined to `x`'s
/// nodes, keeping well-formedness, attachment and texts.
proof fn lemma_items_frame_except<P: Mountable>(items: Seq<P>, h1: Host, h2: Host, x: int)
    requires
        forall|i: int| 0 <= i < items.len() ==> (#[trigger] items[i]).wf(h1),
        0 <= x < items.len(),
        forall|i: int, j: int|
            0 <= i < j < items.len() ==> (#[trigger] items[i].owned()).disjoint(
                #[trigger] items[j].owned(),
            ),
        h2.preserves_outside(h1, items[x].owned()),
        h2.node_count() >= h1.node_count(),
    ensures
        forall|i: int| 0 <= i < items.len() && i != x ==> (#[trigger] items[i]).wf(h2),
        forall|i: int|
            0 <= i < items.len() && i != x ==> h2.attached((#[trigger] items[i]).primary())
                == h1.attached(items[i].primary()),
        forall|i: int|
            0 <= i < items.len() && i != x ==> h2.texts_agree_on(h1, (#[trigger] items[i]).owned()),
{
    assert forall|i: int| 0 <= i < items.len() && i != x implies (#[trigger] items[i]).wf(h2)
        && h2.attached(items[i].primary()) == h1.attached(items[i].primary())
        && h2.texts_agree_on(h1, items[i].owned()) by {
        items[i].lemma_wf(h1);
        assert forall|n: int| #[trigger] items[i].owned().contains(n) implies h2.valid(n)
            && h1.valid(n) && h2.text_at(n) == h1.text_at(n) && h2.attached(n) == h1.attached(
            n,
        ) by {
            if i < x {
                assert(items[i].owned().disjoint(items[x].owned()));
                assert(!items[x].owned().contains(n));
            } else {
                assert(items[x].owned().disjoint(items[i].owned()));
                if items[x].owned().contains(n) {
                    assert(!items[i].owned().contains(n));
                }
            }
        }
        items[i].lemma_wf_frame(h1, h2);
        assert(items[i].owned().contains(items[i].primary()));
    }
}

impl<P: Mountable> Mountable for ListProduct<P> {
    closed spec fn owned(self) -> Set<int> {
        seq_owned(self.list@).insert(self.fragment@)
    }

    closed spec fn primary(self) -> int {
        self.fragment@
    }

    open spec fn wf(self, host: Host) -> bool {
        self.inv(host)
    }

    proof fn lemma_wf(self, host: Host) {
        assert(self.owned().contains(self.fragment@));
        assert forall|n: int| #[trigger] self.owned().contains(n) implies host.valid(n) by {
            if n != self.fragment@ {
                assert(seq_owned(self.list@).contains(n));
                let i = choose|i: int|
                    0 <= i < self.list@.len() && #[trigger] self.list@[i].owned().contains(n);
                self.list@[i].lemma_wf(host);
            }
        }
    }

    proof fn lemma_wf_frame(self, h1: Host, h2: Host) {
        assert(self.owned().contains(self.fragment@));
        assert forall|i: int| 0 <= i < self.list@.len() implies (#[trigger] self.list@[i]).wf(h2)
            && h2.attached(self.list@[i].primary()) == h1.attached(self.list@[i].primary()) by {
            self.list@[i].lemma_wf(h1);
            assert forall|n: int| #[trigger] self.list@[i].owned().contains(n) implies h2.valid(n)
                && h1.valid(n) && h2.text_at(n) == h1.text_at(n) && h2.attached(n) == h1.attached(
                n,
            ) by {
                assert(seq_owned(self.list@).contains(n));
                assert(self.owned().contains(n));
            }
            self.list@[i].lemma_wf_frame(h1, h2);
            assert(self.list@[i].owned().contains(self.list@[i].primary()));
        }
    }

    fn js(&self) -> (n: NodeId) {
        self.fragment
    }

    fn unmount(&self, host: &mut Host) {
        host.detach(self.fragment);
        proof {
            lemma_items_unclipped(self.list@, *old(host), *host, self.fragment@);
        }
    }

    fn mount(&self, host: &mut Host) {
        host.append(self.fragment);
        proof {
            lemma_items_unclipped(self.list@, *old(host), *host, self.fragment@);
        }
    }
}

/// Every item survives a host step that touched only nodes outside all of
/// their owned sets: it stays well formed, its primary keeps its attachment,
/// and the texts of its nodes are untouched.
proof fn lemma_items_frame<P: Mountable>(items: Seq<P>, h1: Host, h2: Host, except: Set<int>)
    requires
        forall|i: int| 0 <= i < items.len() ==> (#[trigger] items[i]).wf(h1),
        forall|i: int| 0 <= i < items.len() ==> (#[trigger] items[i].owned()).disjoint(except),
        h2.preserves_outside(h1, except),
    ensures
        forall|i: int| 0 <= i < items.len() ==> (#[trigger] items[i]).wf(h2),
        forall|i: int|
            0 <= i < items.len() ==> h2.attached((#[trigger] items[i]).primary()) == h1.attached(
                items[i].primary(),
            ),
        forall|i: int|
            0 <= i < items.len() ==> h2.texts_agree_on(h1, (#[trigger] items[i]).owned()),
{
    assert forall|i: int| 0 <= i < items.len() implies (#[trigger] items[i]).wf(h2)
        && h2.attached(items[i].primary()) == h1.attached(items[i].primary())
        && h2.texts_agree_on(h1, items[i].owned()) by {
        items[i].lemma_wf(h1);
        assert forall|n: int| #[trigger] items[i].owned().contains(n) implies h2.valid(n)
            && h1.valid(n) && h2.text_at(n) == h1.text_at(n) && h2.attached(n) == h1.attached(
            n,
        ) by {
            assert(!except.contains(n));
        }
        items[i].lemma_wf_frame(h1, h2);
        assert(items[i].owned().contains(items[i].primary()));
    }
}

/// Touching the fragment handle alone leaves every item's state intact.
proof fn lemma_items_unclipped<P: Mountable>(items: Seq<P>, h1: Host, h2: Host, frag: int)
    requires
        forall|i: int| 0 <= i < items.len() ==> (#[trigger] items[i]).wf(h1),
        forall|i: int| 0 <= i < items.len() ==> !(#[trigger] items[i]).owned().contains(frag),
        h2.preserves_outside(h1, Set::empty().insert(frag)),
    ensures
        forall|i: int| 0 <= i < items.len() ==> (#[trigger] items[i]).wf(h2),
        forall|i: int|
            0 <= i < items.len() ==> h2.attached((#[trigger] items[i]).primary()) == h1.attached(
                items[i].primary(),
            ),
{
    assert forall|i: int|
        0 <= i < items.len() implies #[trigger] items[i].owned().disjoint(
        Set::empty().insert(frag),
    ) by {
        assert(!items[i].owned().contains(frag));
    }
    lemma_items_frame(items, h1, h2, Set::empty().insert(frag));
}

} // verus!
