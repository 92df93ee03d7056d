//! A component-based rendering core, verified.
//!
//! Application code describes the desired interface as transient view values;
//! the renderer turns a view into a live, mounted *product* on the host
//! surface (`build`), and on later passes reconciles a freshly computed view
//! against the product it produced before, touching the host surface only
//! where something actually changed (`update`).
//!
//! The host surface itself is external to the renderer; the [`host`] module
//! models the small capability set the renderer drives it through, so that
//! every `build` and `update` carries a contract saying exactly which nodes
//! it touched. The central guarantee of the whole crate is the no-op law
//! carried by [`Render::update`]: reconciling a product against a view it
//! already describes leaves the host surface untouched.

use vstd::prelude::*;

pub mod branching;
pub mod diff;
pub mod event;
pub mod gen;
pub mod host;
pub mod keywords;
pub mod list;
pub mod log;
pub mod manifest;
pub mod report;
pub mod runtime;
pub mod state;
pub mod text;

verus! {

use crate::host::{Host, NodeId};

/// A live product mounted on the host surface.
///
/// A product owns a set of host nodes and exposes one of them, its
/// `primary`, as the handle its parent uses to attach it, detach it, or
/// swap it for another product's primary.
pub trait Mountable: Sized {
    /// The host nodes this product controls.
    spec fn owned(self) -> Set<int>;

    /// The node its parent handles this product by.
    spec fn primary(self) -> int;

    /// The product's bookkeeping is consistent with the host surface.
    spec fn wf(self, host: Host) -> bool;

    /// A well-formed product owns valid nodes, its primary among them.
    proof fn lemma_wf(self, host: Host)
        requires
            self.wf(host),
        ensures
            self.owned().contains(self.primary()),
            forall|n: int| #[trigger] self.owned().contains(n) ==> host.valid(n),
    ;

    /// Well-formedness reads the host only at the owned nodes.
    proof fn lemma_wf_frame(self, h1: Host, h2: Host)
        requires
            self.wf(h1),
            h2.agrees_on(h1, self.owned()),
        ensures
            self.wf(h2),
    ;

    /// The handle this product is attached and detached by.
    fn js(&self) -> (n: NodeId)
        ensures
            n@ == self.primary(),
    ;

    /// Unlink this product's primary from its parent context. Its nodes stay
    /// in the arena, texts untouched, so the product can be re-attached.
    fn unmount(&self, host: &mut Host)
        requires
            self.wf(*old(host)),
        ensures
            self.wf(*final(host)),
            final(host).node_count() == old(host).node_count(),
            final(host).same_texts(*old(host)),
            final(host).preserves_outside(*old(host), self.owned()),
            !final(host).attached(self.primary()),
            final(host).focus_of() == old(host).focus_of(),
            final(host).event_ids() == old(host).event_ids(),
    ;

    /// Link this product's primary back into its parent context.
    fn mount(&self, host: &mut Host)
        requires
            self.wf(*old(host)),
        ensures
            self.wf(*final(host)),
            final(host).node_count() == old(host).node_count(),
            final(host).same_texts(*old(host)),
            final(host).preserves_outside(*old(host), self.owned()),
            final(host).attached(self.primary()),
            final(host).focus_of() == old(host).focus_of(),
            final(host).event_ids() == old(host).event_ids(),
    ;
}

/// A transient description of desired interface state for one render pass.
///
/// `build` turns the view into a freshly created, detached product; `update`
/// reconciles a new view of the same type against an existing product in
/// place. The contracts here are shared by every view type:
///
/// * `describes` says when a product is already up to date for a view; both
///   `build` and `update` establish it, and `update` on a product the view
///   already describes is a no-op on the host surface (for `steady` views,
///   which is every view not routed through an eagerly re-applied value).
/// * `update` confines its host mutations to the nodes the product owned
///   plus freshly created ones, and never changes whether the product is
///   attached: swapping in a fresh primary keeps the old primary's place.
pub trait Render: Sized {
    /// The live product this view builds.
    type Product: Mountable;

    /// The product is up to date for this view: reconciling it against this
    /// view has nothing to change.
    spec fn describes(self, p: Self::Product, host: Host) -> bool;

    /// A steady view settles: once its product describes it, updating is a
    /// no-op. Views that re-apply an eager value every pass are not steady.
    spec fn steady(self) -> bool;

    /// `describes` reads the host only at the product's nodes, and only
    /// their texts.
    proof fn lemma_describes_frame(self, p: Self::Product, h1: Host, h2: Host)
        requires
            self.describes(p, h1),
            h2.texts_agree_on(h1, p.owned()),
        ensures
            self.describes(p, h2),
    ;

    /// Build a fresh product for this view. All its nodes are newly created
    /// and its primary starts detached, ready for the caller to attach.
    fn build(self, host: &mut Host) -> (p: Self::Product)
        ensures
            final(host).preserves_outside(*old(host), Set::empty()),
            p.wf(*final(host)),
            self.describes(p, *final(host)),
            forall|n: int| #[trigger] p.owned().contains(n)
                ==> old(host).node_count() <= n < final(host).node_count(),
            !final(host).attached(p.primary()),
            final(host).focus_of() == old(host).focus_of(),
    ;

    /// Run `handler` on the product's handle once, right after this view is
    /// built.
    fn on_mount<F: NodeHandler>(self, handler: F) -> OnMount<Self, F> {
        OnMount { view: self, handler }
    }

    /// Run `handler` on the product's handle after the build and after
    /// every later update.
    fn on_render<F: NodeHandler>(self, handler: F) -> OnRender<Self, F> {
        OnRender { view: self, handler }
    }

    /// Reconcile this view against the product a previous pass produced,
    /// touching the host surface only where something changed.
    fn update(self, p: &mut Self::Product, host: &mut Host)
        requires
            old(p).wf(*old(host)),
        ensures
            final(p).wf(*final(host)),
            self.describes(*final(p), *final(host)),
            final(host).preserves_outside(*old(host), old(p).owned()),
            forall|n: int| #[trigger] final(p).owned().contains(n)
                ==> old(p).owned().contains(n)
                    || old(host).node_count() <= n < final(host).node_count(),
            final(p).primary() == old(p).primary()
                || old(host).node_count() <= final(p).primary() < final(host).node_count(),
            final(host).attached(final(p).primary()) == old(host).attached(old(p).primary()),
            final(host).focus_of() == old(host).focus_of(),
            self.steady() && self.describes(*old(p), *old(host))
                ==> final(host).same_as(*old(host)),
    ;
}

/// An observer of a product's handle: it sees which node a view was built
/// into, and nothing else — in particular it cannot reach the host surface.
pub trait NodeHandler: Sized {
    /// Observe the product's handle.
    fn handle(&self, node: NodeId);
}

/// A view wrapper whose handler observes the product's handle once, right
/// after the build.
pub struct OnMount<V, F> {
    view: V,
    handler: F,
}

impl<V, F> OnMount<V, F> {
    /// The wrapped view.
    pub closed spec fn view_of(self) -> V {
        self.view
    }
}

impl<V: Render, F: NodeHandler> Render for OnMount<V, F> {
    type Product = V::Product;

    open spec fn describes(self, p: Self::Product, host: Host) -> bool {
        self.view_of().describes(p, host)
    }

    open spec fn steady(self) -> bool {
        self.view_of().steady()
    }

    proof fn lemma_describes_frame(self, p: Self::Product, h1: Host, h2: Host) {
        self.view.lemma_describes_frame(p, h1, h2);
    }

    fn build(self, host: &mut Host) -> (p: Self::Product) {
        let p = self.view.build(host);
        self.handler.handle(p.js());
        p
    }

    fn update(self, p: &mut Self::Product, host: &mut Host) {
        self.view.update(p, host);
    }
}

/// A view wrapper whose handler observes the product's handle after the
/// build and after every later update.
pub struct OnRender<V, F> {
    view: V,
    handler: F,
}

impl<V, F> OnRender<V, F> {
    /// The wrapped view.
    pub closed spec fn view_of(self) -> V {
        self.view
    }
}

impl<V: Render, F: NodeHandler> Render for OnRender<V, F> {
    type Product = V::Product;

    open spec fn describes(self, p: Self::Product, host: Host) -> bool {
        self.view_of().describes(p, host)
    }

    open spec fn steady(self) -> bool {
        self.view_of().steady()
    }

    proof fn lemma_describes_frame(self, p: Self::Product, h1: Host, h2: Host) {
        self.view.lemma_describes_frame(p, h1, h2);
    }

    fn build(self, host: &mut Host) -> (p: Self::Product) {
        let p = self.view.build(host);
        self.handler.handle(p.js());
        p
    }

    fn update(self, p: &mut Self::Product, host: &mut Host) {
        self.view.update(p, host);
        self.handler.handle(p.js());
    }
}

/// Splice a freshly built product into the place of an old one: detach the
/// old product's primary, and attach the new product's primary exactly where
/// the old one was attached. Texts are untouched, so `describes` facts
/// survive the swap.
pub(crate) fn replace_product<Q: Mountable, P: Mountable>(worn: &Q, built: &P, host: &mut Host)
    requires
        worn.wf(*old(host)),
        built.wf(*old(host)),
        worn.owned().disjoint(built.owned()),
        !old(host).attached(built.primary()),
    ensures
        built.wf(*final(host)),
        final(host).node_count() == old(host).node_count(),
        final(host).same_texts(*old(host)),
        final(host).preserves_outside(*old(host), worn.owned().union(built.owned())),
        !final(host).attached(worn.primary()),
        final(host).attached(built.primary()) == old(host).attached(worn.primary()),
        final(host).focus_of() == old(host).focus_of(),
        final(host).event_ids() == old(host).event_ids(),
{
    proof {
        worn.lemma_wf(*old(host));
        built.lemma_wf(*old(host));
    }
    let was = host.is_attached(worn.js());
    worn.unmount(host);
    let ghost mid: Host = *host;
    proof {
        assert forall|n: int| #[trigger] built.owned().contains(n) implies mid.valid(n) && old(
            host,
        ).valid(n) && mid.text_at(n) == old(host).text_at(n) && mid.attached(n) == old(
            host,
        ).attached(n) by {
            assert(old(host).valid(n));
            assert(!worn.owned().contains(n));
        }
        assert(mid.agrees_on(*old(host), built.owned()));
        built.lemma_wf_frame(*old(host), mid);
        assert(built.owned().contains(built.primary()));
        assert(!worn.owned().contains(built.primary()));
    }
    if was {
        built.mount(host);
        proof {
            assert(!built.owned().contains(worn.primary()));
        }
    }
}

/// Mutable access to one element of a vector: the borrow runs through that
/// slot alone, every other slot keeps its value.
pub(crate) fn slot_at<T>(v: &mut Vec<T>, i: usize) -> (item: &mut T)
    requires
        i < old(v).len(),
    ensures
        *item == old(v)@[i as int],
        final(v)@.len() == old(v)@.len(),
        final(v)@[i as int] == *final(item),
        forall|j: int| 0 <= j < old(v)@.len() && j != i ==> final(v)@[j] == old(v)@[j],
{
    &mut v[i]
}

} // verus!
