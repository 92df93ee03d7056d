//! Events from the host surface and stateless listeners.

use vstd::prelude::*;

verus! {

use crate::host::{EventId, Host, NodeId};
use crate::runtime::{Then, Trigger};
use crate::{Mountable, Render};

/// An event as delivered by the host surface: an opaque payload the
/// callback may inspect.
#[derive(Clone, Copy, PartialEq, Eq, Structural, Debug)]
pub struct Event {
    /// The payload carried by the event.
    pub detail: u64,
}

/// A callback bound to application state: it receives exclusive access to
/// the state and the event, and returns whether to re-render.
pub trait Callback<S> {
    /// Handle one event.
    fn call(&self, state: &mut S, e: &Event) -> Then;
}

/// A handle on the element an event fired on.
pub struct EventTarget<T>(pub(crate) T);

impl<T> EventTarget<T> {
    /// The wrapped element handle.
    pub closed spec fn target_of(self) -> T {
        self.0
    }

    /// Wrap an element handle.
    pub fn new(target: T) -> (t: EventTarget<T>)
        ensures
            t.target_of() == target,
    {
        EventTarget(target)
    }
}

impl EventTarget<NodeId> {
    /// Move input focus to this element.
    pub fn focus(&self, host: &mut Host)
        requires
            old(host).valid(self.target_of()@),
        ensures
            final(host).focus_of() == Some(self.target_of()),
            final(host).node_count() == old(host).node_count(),
            final(host).same_texts(*old(host)),
            final(host).preserves_outside(*old(host), Set::empty()),
            final(host).event_ids() == old(host).event_ids(),
    {
        host.focus(self.0);
    }
}

/// The mounted registration of a state-free listener: a placeholder node,
/// the id the host surface reports the events under, and the callback. A
/// state-free listener always answers `Stop` after running its callback: it
/// owns no state whose change could call for a render.
pub struct ListenerProduct<F> {
    eid: EventId,
    node: NodeId,
    callback: F,
}

impl<F> ListenerProduct<F> {
    /// The id this listener's events are routed by.
    pub closed spec fn eid_of(self) -> EventId {
        self.eid
    }

    /// Register a state-free listener with the host surface.
    pub fn new(callback: F, host: &mut Host) -> (p: ListenerProduct<F>)
        ensures
            p.eid_of()@ == old(host).event_ids(),
            final(host).node_count() == old(host).node_count() + 1,
            final(host).preserves_outside(*old(host), Set::empty()),
            final(host).focus_of() == old(host).focus_of(),
    {
        let node = host.create_empty();
        let eid = host.next_event_id();
        ListenerProduct { eid, node, callback }
    }

    /// The registration handle the host surface stores: routing is by this
    /// id alone.
    pub fn js_value(&self) -> (e: EventId)
        ensures
            e == self.eid_of(),
    {
        self.eid
    }
}

impl<S, F: Callback<()>> Trigger<S> for ListenerProduct<F> {
    fn trigger(&self, state: &mut S, e: &Event, eid: EventId) -> (r: Option<Then>)
        ensures
            eid == self.eid_of() ==> r == Some(Then::Stop),
            eid != self.eid_of() ==> r is None,
    {
        if eid == self.eid {
            let mut unit: () = ();
            let _ = self.callback.call(&mut unit, e);
            Some(Then::Stop)
        } else {
            None
        }
    }
}

} // verus!
