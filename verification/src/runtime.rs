//! The runtime slot and event routing.
//!
//! A running application is owned by exactly one [`Runtime`] slot. Every
//! pass of work over the mounted tree first takes the application out of
//! the slot and puts it back when done: while work is in flight the slot is
//! empty, so a reentrant attempt finds nothing to take and is rejected
//! instead of aliasing the tree. The empty slot is the lock.
//!
//! Event routing is by integer comparison alone: the host surface reports
//! the listener id an event fired on, and [`Trigger`] walks the mounted
//! product tree until some listener claims that id.

use vstd::prelude::*;

verus! {

use crate::event::Event;
use crate::host::{EventId, Host};
use crate::state::{Component, StatefulProduct};
use crate::{Mountable, Render};

/// The verdict of a listener: whether the interface should be re-rendered.
#[derive(Clone, Copy, PartialEq, Eq, Structural, Debug)]
pub enum Then {
    /// Nothing visible changed; skip the render pass.
    Stop,
    /// Re-render the tree against the new state.
    Render,
}

/// Walk a product tree routing an event to the listener with a matching id.
///
/// The callback, if any claims the id, receives exclusive access to the
/// application state for the duration of the call and returns its verdict;
/// the walk itself never touches the host surface.
pub trait Trigger<S>: Sized {
    /// Offer the event to this subtree; `None` when no listener here
    /// claimed the id.
    fn trigger(&self, state: &mut S, e: &Event, eid: EventId) -> Option<Then>;
}

/// The process-wide slot owning the one running application.
pub struct Runtime<A> {
    slot: Option<A>,
}

impl<A> Runtime<A> {
    /// What the slot holds.
    pub closed spec fn slot_of(self) -> Option<A> {
        self.slot
    }

    /// An empty slot, before any application was started.
    pub fn new() -> (rt: Runtime<A>)
        ensures
            rt.slot_of() is None,
    {
        Runtime { slot: None }
    }

    /// Install the application once. Calling again while one is installed
    /// is a no-op: the first application keeps running. Installing does not
    /// touch the host surface; attaching the root product to it is the
    /// caller's step, done once around this call.
    pub fn start(&mut self, app: A)
        ensures
            old(self).slot_of() is None ==> final(self).slot_of() == Some(app),
            old(self).slot_of() is Some ==> final(self).slot_of() == old(self).slot_of(),
    {
        if self.slot.is_none() {
            self.slot = Some(app);
        }
    }

    /// Whether an application is installed and no update is in flight.
    pub fn is_idle(&self) -> (r: bool)
        ensures
            r == (self.slot_of() is Some),
    {
        self.slot.is_some()
    }

    /// Take exclusive ownership of the application for one update. While it
    /// is out, the slot is empty: a nested take during an in-flight update
    /// finds `None` and must treat the attempt as rejected.
    pub fn take(&mut self) -> (app: Option<A>)
        ensures
            app == old(self).slot_of(),
            final(self).slot_of() is None,
    {
        self.slot.take()
    }

    /// Put the application back after an update, restoring the single-owner
    /// idle state.
    pub fn restore(&mut self, app: A)
        ensures
            final(self).slot_of() == Some(app),
    {
        self.slot = Some(app);
    }
}

impl<S, P: Mountable + Trigger<S>> Runtime<StatefulProduct<S, P>> {
    /// One locked update: take the application out of the slot, route the
    /// event to the listener claiming its id, re-render if the callback
    /// asked for it, and put the application back. While the update is in
    /// flight the slot is empty, so a reentrant attempt — this same entry
    /// reached again before the outer call returned — finds `None`,
    /// touches nothing, and reports no verdict; afterwards the runtime is
    /// back in its consistent single-owner state either way.
    pub fn lock_update<F>(&mut self, render: &F, e: &Event, eid: EventId, host: &mut Host) -> (r:
        Option<Then>) where
        F: Component<State = S>,
        <F as Component>::Out: Render<Product = P>,

        requires
            old(self).slot_of() matches Some(app) ==> Mountable::wf(
                app.product_of(),
                *old(host),
            ),
        ensures
            old(self).slot_of() is None ==> r is None && final(self).slot_of() is None && *final(host) == *old(host),
            r is Some ==> old(self).slot_of() is Some,
            old(self).slot_of() is Some ==> final(self).slot_of() is Some && Mountable::wf(
                (final(self).slot_of()->0).product_of(),
                *final(host),
            ),
            old(self).slot_of() is Some ==> final(host).preserves_outside(
                *old(host),
                (old(self).slot_of()->0).product_of().owned(),
            ),
            r != Some(Then::Render) ==> *final(host) == *old(host),
            final(host).focus_of() == old(host).focus_of(),
    {
        let app = self.take();
        match app {
            None => None,
            Some(mut app) => {
                let verdict = app.trigger(e, eid);
                let rerender = match verdict {
                    Some(Then::Render) => true,
                    _ => false,
                };
                if rerender {
                    app.rerender(render, host);
                }
                self.restore(app);
                verdict
            },
        }
    }
}

} // verus!
