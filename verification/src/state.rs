//! Stateful views.
//!
//! A [`Stateful`] view gives one component ownership over persistent
//! mutable state: its product holds the state in a [`Hook`] alongside the
//! mounted subtree the component rendered from it. On every later pass the
//! component's render function is re-run against the current state and the
//! fresh view is reconciled against the mounted subtree. What the render
//! function returns is the component author's business; the contracts here
//! promise well-formedness and confinement for every view it can return.

use vstd::prelude::*;

pub mod hook;

verus! {

use crate::event::Event;
use crate::host::{EventId, Host};
use crate::runtime::{Then, Trigger};
use crate::state::hook::{Hook, Signal};
use crate::{Mountable, Render};

/// A component: how a view is computed from the component's state. The
/// renderer re-runs this on every pass; nothing is assumed about which view
/// comes back.
pub trait Component: Sized {
    /// The state this component owns.
    type State;

    /// The view type its render pass produces.
    type Out: Render;

    /// Compute the view for the current state.
    fn render(&self, state: &Hook<Self::State>) -> Self::Out;
}

/// A view owning mutable state `S`, rendered through component `F`.
pub struct Stateful<S, F> {
    state: S,
    render: F,
}

impl<S, F> Stateful<S, F> {
    /// The state this view installs when built.
    pub closed spec fn state_init(self) -> S {
        self.state
    }
}

/// Create a stateful view over `state`, rendered by `render`.
pub fn stateful<S, F: Component<State = S>>(state: S, render: F) -> (v: Stateful<S, F>)
    ensures
        v.state_init() == state,
{
    Stateful { state, render }
}

/// The live product of a stateful view: the hook owning the state, and the
/// product of the subtree rendered from it.
pub struct StatefulProduct<S, P> {
    hook: Hook<S>,
    product: P,
}

impl<S, P: Mountable> StatefulProduct<S, P> {
    /// The state owned by this component instance.
    pub closed spec fn state_of(self) -> S {
        self.hook.state_of()
    }

    /// The product of the rendered subtree.
    pub closed spec fn product_of(self) -> P {
        self.product
    }

    /// Read the state.
    pub fn state(&self) -> (s: &S)
        ensures
            s == self.state_of(),
    {
        self.hook.as_ref()
    }

    /// Route an event into the rendered subtree, giving the callback that
    /// claims it exclusive access to this component's state.
    pub fn trigger(&mut self, e: &Event, eid: EventId) -> (r: Option<Then>) where P: Trigger<S>
        ensures
            final(self).product_of() == old(self).product_of(),
    {
        self.product.trigger(&mut self.hook.inner, e, eid)
    }

    /// The product of the rendered subtree.
    pub fn product(&self) -> (p: &P)
        ensures
            p == self.product_of(),
    {
        &self.product
    }

    /// Re-render: run the component against the current state and reconcile
    /// the mounted subtree in place.
    pub fn rerender<F>(&mut self, render: &F, host: &mut Host) where
        F: Component<State = S>,
        <F as Component>::Out: Render<Product = P>,

        requires
            Mountable::wf(old(self).product_of(), *old(host)),
        ensures
            Mountable::wf(final(self).product_of(), *final(host)),
            final(self).state_of() == old(self).state_of(),
            final(host).preserves_outside(*old(host), old(self).product_of().owned()),
            final(host).attached(final(self).product_of().primary()) == old(host).attached(
                old(self).product_of().primary(),
            ),
            final(host).focus_of() == old(host).focus_of(),
    {
        let view = render.render(&self.hook);
        view.update(&mut self.product, host);
    }
}

impl<S, F: Component<State = S>> Stateful<S, F> {
    /// Build the product: install the state in a hook, render the first
    /// view from it, and build that view's product.
    pub fn build(self, host: &mut Host) -> (p: StatefulProduct<S, <F::Out as Render>::Product>)
        ensures
            Mountable::wf(p.product_of(), *final(host)),
            p.state_of() == self.state_init(),
            final(host).preserves_outside(*old(host), Set::empty()),
            forall|n: int| #[trigger]
                p.product_of().owned().contains(n) ==> old(host).node_count() <= n < final(host).node_count(),
            !final(host).attached(p.product_of().primary()),
            final(host).focus_of() == old(host).focus_of(),
    {
        let hook = Hook::new(self.state);
        let view = self.render.render(&hook);
        let product = view.build(host);
        StatefulProduct { hook, product }
    }

    /// Reconcile: re-render the view from the current state and update the
    /// mounted subtree in place. The state itself is never touched by a
    /// render pass.
    pub fn update(self, p: &mut StatefulProduct<S, <F::Out as Render>::Product>, host: &mut Host)
        requires
            Mountable::wf(old(p).product_of(), *old(host)),
        ensures
            Mountable::wf(final(p).product_of(), *final(host)),
            final(p).state_of() == old(p).state_of(),
            final(host).preserves_outside(*old(host), old(p).product_of().owned()),
            final(host).attached(final(p).product_of().primary()) == old(host).attached(
                old(p).product_of().primary(),
            ),
            final(host).focus_of() == old(host).focus_of(),
    {
        let view = self.render.render(&p.hook);
        view.update(&mut p.product, host);
    }
}

/// A stateful view with a one-time start-up action: when first built, the
/// handler is given a [`Signal`] onto the freshly installed state, so that
/// work outside the render cycle can reach it later.
pub struct Once<S, F, G> {
    with_state: Stateful<S, F>,
    handler: G,
}

impl<S, F, G> Once<S, F, G> {
    /// The stateful view being wrapped.
    pub closed spec fn with_state_of(self) -> Stateful<S, F> {
        self.with_state
    }

    /// The start-up handler, run once at build.
    pub closed spec fn handler_of(self) -> G {
        self.handler
    }
}

/// What a one-time start-up handler does with its signal.
pub trait SignalHandler<S>: Sized {
    /// What the handler leaves behind, kept alive with the product.
    type Keep;

    /// Receive the signal once, when the owning component is first built.
    fn on_start(self, signal: Signal<S>) -> Self::Keep;
}

/// The live product of a [`Once`] view: the stateful product plus whatever
/// the start-up handler left behind.
pub struct OnceProduct<S, P, D> {
    inner: StatefulProduct<S, P>,
    keep: D,
}

impl<S, P: Mountable, D> OnceProduct<S, P, D> {
    /// The inner stateful product.
    pub closed spec fn inner_of(self) -> StatefulProduct<S, P> {
        self.inner
    }

    /// What the start-up handler left behind.
    pub closed spec fn kept_of(self) -> D {
        self.keep
    }

    /// What the start-up handler left behind.
    pub fn kept(&self) -> (d: &D)
        ensures
            d == self.kept_of(),
    {
        &self.keep
    }

    /// The inner stateful product.
    pub fn inner(&self) -> (p: &StatefulProduct<S, P>)
        ensures
            p == self.inner_of(),
    {
        &self.inner
    }
}

impl<S, F: Component<State = S>> Stateful<S, F> {
    /// Attach a one-time start-up handler to this stateful view.
    pub fn once<G: SignalHandler<S>>(self, handler: G) -> (o: Once<S, F, G>)
        ensures
            o.with_state_of() == self,
            o.handler_of() == handler,
    {
        Once { with_state: self, handler }
    }
}

impl<S, F: Component<State = S>, G: SignalHandler<S>> Once<S, F, G> {
    /// Build the stateful product, then run the handler once with a signal
    /// onto the new state.
    pub fn build(self, host: &mut Host) -> (p: OnceProduct<
        S,
        <F::Out as Render>::Product,
        G::Keep,
    >)
        ensures
            Mountable::wf(p.inner_of().product_of(), *final(host)),
            p.inner_of().state_of() == self.with_state_of().state_init(),
            final(host).preserves_outside(*old(host), Set::empty()),
            final(host).focus_of() == old(host).focus_of(),
    {
        let inner = self.with_state.build(host);
        let signal = Signal::new(&inner.hook);
        let keep = self.handler.on_start(signal);
        OnceProduct { inner, keep }
    }

    /// Reconcile the stateful product; the handler never runs again.
    pub fn update(self, p: &mut OnceProduct<S, <F::Out as Render>::Product, G::Keep>, host: &mut Host)
        requires
            Mountable::wf(old(p).inner_of().product_of(), *old(host)),
        ensures
            Mountable::wf(final(p).inner_of().product_of(), *final(host)),
            final(host).focus_of() == old(host).focus_of(),
    {
        self.with_state.update(&mut p.inner, host);
    }
}

} // verus!
