//! Hooks, signals, and bound listeners.
//!
//! A [`Hook`] owns one piece of persistent application state. During a
//! render pass it hands out shared read access; a listener bound through
//! [`Hook::bind`] receives exclusive access to the state for the duration
//! of its callback only. A [`Signal`] is a long-lived handle for mutating
//! the same state from outside the render cycle; once revoked — when the
//! owning product is torn down — every mutation through it is a safe no-op.

use vstd::prelude::*;

verus! {

use core::marker::PhantomData;

use crate::event::{Callback, Event};
use crate::host::{EventId, Host, NodeId};
use crate::runtime::{Then, Trigger};
use crate::{Mountable, Render};

/// The owner of one piece of persistent application state.
pub struct Hook<S> {
    pub(crate) inner: S,
}

impl<S> Hook<S> {
    /// The state held.
    pub closed spec fn state_of(self) -> S {
        self.inner
    }

    /// Take ownership of `inner` as component state.
    pub fn new(inner: S) -> (h: Hook<S>)
        ensures
            h.state_of() == inner,
    {
        Hook { inner }
    }

    /// Read the state during a render pass.
    pub fn as_ref(&self) -> (s: &S)
        ensures
            s == self.state_of(),
    {
        &self.inner
    }

    /// The value of the state, for states that can be copied out.
    pub fn get(&self) -> (s: S)
        where S: Copy
        ensures
            s == self.state_of(),
    {
        self.inner
    }

    /// Bind `callback` to this hook's state: the resulting view registers a
    /// listener whose callback gets exclusive access to the state when its
    /// event fires. Binding alone runs nothing and registers nothing; the
    /// listener id is drawn when the view is built.
    pub fn bind<F: Callback<S>>(&self, callback: F) -> (b: Bound<S, F>)
        ensures
            b.callback_of() == callback,
    {
        Bound { callback, _marker: PhantomData }
    }
}

/// A mutator applied to state through a [`Signal`].
pub trait Mutator<S> {
    /// Mutate the state, deciding whether to re-render.
    fn apply(&self, state: &mut S) -> Then;
}

/// A long-lived write permit for a hook's state, usable from outside the
/// render cycle. The owner of the state presents it for each mutation; the
/// signal's liveness flag is checked first, and a revoked signal — one
/// whose owning product was torn down — refuses every mutation as a safe
/// no-op.
pub struct Signal<S> {
    live: bool,
    _marker: PhantomData<S>,
}

impl<S> Signal<S> {
    /// Whether the owning product is still mounted.
    pub closed spec fn is_live(self) -> bool {
        self.live
    }

    /// A live handle to the state owned by `hook`.
    pub fn new(hook: &Hook<S>) -> (s: Signal<S>)
        ensures
            s.is_live(),
    {
        Signal { live: true, _marker: PhantomData }
    }

    /// Withdraw the handle: the owning product is torn down, and every
    /// later mutation through this signal is a no-op. Revocation is the
    /// state owner's duty: whoever unmounts the owning product for good
    /// revokes the signals handed out for it.
    pub fn revoke(&mut self)
        ensures
            !final(self).is_live(),
    {
        self.live = false;
    }

    /// Apply `mutator` to the presented state and report its verdict, or
    /// touch nothing and report `None` if the signal was revoked.
    pub fn update<M: Mutator<S>>(&self, state: &mut S, mutator: &M) -> (r: Option<Then>)
        ensures
            r is Some <==> self.is_live(),
            !self.is_live() ==> *final(state) == *old(state),
    {
        if self.live {
            Some(mutator.apply(state))
        } else {
            None
        }
    }

    /// Same as [`update`](Signal::update), but never asks for a render.
    pub fn update_silent<M: Mutator<S>>(&self, state: &mut S, mutator: &M)
        ensures
            !self.is_live() ==> *final(state) == *old(state),
    {
        if self.live {
            let _ = mutator.apply(state);
        }
    }

    /// Replace the entire state with `val`, if the signal is still live.
    pub fn set(&self, state: &mut S, val: S)
        ensures
            self.is_live() ==> *final(state) == val,
            !self.is_live() ==> *final(state) == *old(state),
    {
        if self.live {
            *state = val;
        }
    }
}

/// A listener view binding a callback to the state of the enclosing hook.
pub struct Bound<S, F> {
    callback: F,
    _marker: PhantomData<S>,
}

impl<S, F> Bound<S, F> {
    /// The callback the listener will run.
    pub closed spec fn callback_of(self) -> F {
        self.callback
    }
}

/// The mounted registration of a bound listener: a placeholder node, the
/// id the host surface reports the events under, and the callback.
pub struct BoundProduct<S, F> {
    eid: EventId,
    node: NodeId,
    callback: F,
    _marker: PhantomData<S>,
}

impl<S, F> BoundProduct<S, F> {
    /// The id this listener's events are routed by.
    pub closed spec fn eid_of(self) -> EventId {
        self.eid
    }

    /// The registration handle the host surface stores.
    pub fn js_value(&self) -> (e: EventId)
        ensures
            e == self.eid_of(),
    {
        self.eid
    }
}

impl<S, F> Mountable for BoundProduct<S, F> {
    closed spec fn owned(self) -> Set<int> {
        Set::empty().insert(self.node@)
    }

    closed spec fn primary(self) -> int {
        self.node@
    }

    closed spec fn wf(self, host: Host) -> bool {
        host.valid(self.node@)
    }

    proof fn lemma_wf(self, host: Host) {
    }

    proof fn lemma_wf_frame(self, h1: Host, h2: Host) {
        assert(self.owned().contains(self.node@));
    }

    fn js(&self) -> (n: NodeId) {
        self.node
    }

    fn unmount(&self, host: &mut Host) {
        host.detach(self.node);
    }

    fn mount(&self, host: &mut Host) {
        host.append(self.node);
    }
}

impl<S, F: Callback<S>> Render for Bound<S, F> {
    type Product = BoundProduct<S, F>;

    open spec fn describes(self, p: Self::Product, host: Host) -> bool {
        true
    }

    open spec fn steady(self) -> bool {
        true
    }

    proof fn lemma_describes_frame(self, p: Self::Product, h1: Host, h2: Host) {
    }

    fn build(self, host: &mut Host) -> (p: Self::Product)
        ensures
            p.eid_of()@ == old(host).event_ids(),
    {
        let node = host.create_empty();
        let eid = host.next_event_id();
        BoundProduct { eid, node, callback: self.callback, _marker: PhantomData }
    }

    fn update(self, p: &mut Self::Product, host: &mut Host) {
        p.callback = self.callback;
    }
}

impl<S, F: Callback<S>> Trigger<S> for BoundProduct<S, F> {
    fn trigger(&self, state: &mut S, e: &Event, eid: EventId) -> (r: Option<Then>)
        ensures
            r is Some <==> eid == self.eid_of(),
    {
        if eid == self.eid {
            Some(self.callback.call(state, e))
        } else {
            None
        }
    }
}

} // verus!
