//! Text views: strings rendered into text nodes.
//!
//! A `String` is itself a view; it builds a text node and keeps an owned
//! copy of the last applied content as its memo, so that reconciling equal
//! content is a no-op on the host surface and only genuinely new content
//! costs a text write.

use vstd::prelude::*;

verus! {

use crate::event::Event;
use crate::host::{EventId, Host, NodeId};
use crate::runtime::{Then, Trigger};
use crate::{Mountable, Render};

/// The live product of a text view: one text node plus the memo of the last
/// content applied to it.
pub struct TextProduct {
    pub(crate) node: NodeId,
    pub(crate) memo: String,
}

impl TextProduct {
    /// The last content applied to the node.
    pub closed spec fn memo_of(self) -> Seq<char> {
        self.memo@
    }
}

impl Mountable for TextProduct {
    closed spec fn owned(self) -> Set<int> {
        Set::empty().insert(self.node@)
    }

    closed spec fn primary(self) -> int {
        self.node@
    }

    closed spec fn wf(self, host: Host) -> bool {
        host.valid(self.node@) && host.text_at(self.node@) == self.memo@
    }

    proof fn lemma_wf(self, host: Host) {
    }

    proof fn lemma_wf_frame(self, h1: Host, h2: Host) {
        assert(self.owned().contains(self.node@));
    }

    fn js(&self) -> (n: NodeId) {
        self.node
    }

    fn unmount(&self, host: &mut Host) {
        host.detach(self.node);
    }

    fn mount(&self, host: &mut Host) {
        host.append(self.node);
    }
}

impl<S> Trigger<S> for TextProduct {
    fn trigger(&self, state: &mut S, e: &Event, eid: EventId) -> (r: Option<Then>)
        ensures
            r is None,
            *final(state) == *old(state),
    {
        None
    }
}

impl Render for String {
    type Product = TextProduct;

    open spec fn describes(self, p: TextProduct, host: Host) -> bool {
        p.memo_of() == self@
    }

    open spec fn steady(self) -> bool {
        true
    }

    proof fn lemma_describes_frame(self, p: TextProduct, h1: Host, h2: Host) {
    }

    fn build(self, host: &mut Host) -> (p: TextProduct)
        ensures
            final(host).text_at(Mountable::primary(p)) == self@,
    {
        let content = self.clone();
        let node = host.create_text(content);
        TextProduct { node, memo: self }
    }

    fn update(self, p: &mut TextProduct, host: &mut Host)
        ensures
            Mountable::primary(*final(p)) == Mountable::primary(*old(p)),
            final(host).text_at(Mountable::primary(*final(p))) == self@,
    {
        if self != p.memo {
            let content = self.clone();
            host.set_text(p.node, content);
            p.memo = self;
        }
    }
}

} // verus!
