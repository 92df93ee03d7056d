//! Conditional rendering through closed branch unions.
//!
//! Views are types, so the two arms of an `if` cannot yield the same view
//! type on their own. A branch union gives conditionally selected subtrees
//! one concrete type: updating with the same arm delegates to the inner
//! view, while updating with the other arm tears the old product down,
//! builds the new arm fresh, and splices its node in where the old one was
//! attached. `Option<V>` renders the same way, with [`Empty`] as its second
//! arm. Unions of two and three arms are provided; a wider union composes
//! by nesting one inside another.

use vstd::prelude::*;

verus! {

use crate::event::Event;
use crate::host::{EventId, Host, NodeId};
use crate::runtime::{Then, Trigger};
use crate::{replace_product, Mountable, Render};

/// A view that renders nothing: one empty placeholder node.
pub struct Empty;

/// The live product of [`Empty`]: a placeholder node holding no text.
pub struct EmptyNode {
    node: NodeId,
}

impl Mountable for EmptyNode {
    closed spec fn owned(self) -> Set<int> {
        Set::empty().insert(self.node@)
    }

    closed spec fn primary(self) -> int {
        self.node@
    }

    closed spec fn wf(self, host: Host) -> bool {
        host.valid(self.node@)
    }

    proof fn lemma_wf(self, host: Host) {
    }

    proof fn lemma_wf_frame(self, h1: Host, h2: Host) {
        assert(self.owned().contains(self.node@));
    }

    fn js(&self) -> (n: NodeId) {
        self.node
    }

    fn unmount(&self, host: &mut Host) {
        host.detach(self.node);
    }

    fn mount(&self, host: &mut Host) {
        host.append(self.node);
    }
}

impl Render for Empty {
    type Product = EmptyNode;

    open spec fn describes(self, p: EmptyNode, host: Host) -> bool {
        true
    }

    open spec fn steady(self) -> bool {
        true
    }

    proof fn lemma_describes_frame(self, p: EmptyNode, h1: Host, h2: Host) {
    }

    fn build(self, host: &mut Host) -> (p: EmptyNode) {
        EmptyNode { node: host.create_empty() }
    }

    fn update(self, p: &mut EmptyNode, host: &mut Host)
        ensures
            *final(p) == *old(p),
            *final(host) == *old(host),
    {
    }
}

impl<S> Trigger<S> for EmptyNode {
    fn trigger(&self, state: &mut S, e: &Event, eid: EventId) -> (r: Option<Then>)
        ensures
            r is None,
            *final(state) == *old(state),
    {
        None
    }
}

/// A closed union of two view types sharing one update path.
pub enum Branch2<V1, V2> {
    A(V1),
    B(V2),
}

impl<V1: Mountable, V2: Mountable> Mountable for Branch2<V1, V2> {
    closed spec fn owned(self) -> Set<int> {
        match self {
            Branch2::A(p) => p.owned(),
            Branch2::B(p) => p.owned(),
        }
    }

    closed spec fn primary(self) -> int {
        match self {
            Branch2::A(p) => p.primary(),
            Branch2::B(p) => p.primary(),
        }
    }

    closed spec fn wf(self, host: Host) -> bool {
        match self {
            Branch2::A(p) => p.wf(host),
            Branch2::B(p) => p.wf(host),
        }
    }

    proof fn lemma_wf(self, host: Host) {
        match self {
            Branch2::A(p) => p.lemma_wf(host),
            Branch2::B(p) => p.lemma_wf(host),
        }
    }

    proof fn lemma_wf_frame(self, h1: Host, h2: Host) {
        match self {
            Branch2::A(p) => p.lemma_wf_frame(h1, h2),
            Branch2::B(p) => p.lemma_wf_frame(h1, h2),
        }
    }

    fn js(&self) -> (n: NodeId) {
        match self {
            Branch2::A(p) => p.js(),
            Branch2::B(p) => p.js(),
        }
    }

    fn unmount(&self, host: &mut Host) {
        match self {
            Branch2::A(p) => p.unmount(host),
            Branch2::B(p) => p.unmount(host),
        }
    }

    fn mount(&self, host: &mut Host) {
        match self {
            Branch2::A(p) => p.mount(host),
            Branch2::B(p) => p.mount(host),
        }
    }
}

impl<S, V1: Trigger<S>, V2: Trigger<S>> Trigger<S> for Branch2<V1, V2> {
    fn trigger(&self, state: &mut S, e: &Event, eid: EventId) -> Option<Then> {
        match self {
            Branch2::A(p) => p.trigger(state, e, eid),
            Branch2::B(p) => p.trigger(state, e, eid),
        }
    }
}

impl<V1: Render, V2: Render> Render for Branch2<V1, V2> {
    type Product = Branch2<V1::Product, V2::Product>;

    open spec fn describes(self, p: Self::Product, host: Host) -> bool {
        match (self, p) {
            (Branch2::A(v), Branch2::A(q)) => v.describes(q, host),
            (Branch2::B(v), Branch2::B(q)) => v.describes(q, host),
            _ => false,
        }
    }

    open spec fn steady(self) -> bool {
        match self {
            Branch2::A(v) => v.steady(),
            Branch2::B(v) => v.steady(),
        }
    }

    proof fn lemma_describes_frame(self, p: Self::Product, h1: Host, h2: Host) {
        match (self, p) {
            (Branch2::A(v), Branch2::A(q)) => v.lemma_describes_frame(q, h1, h2),
            (Branch2::B(v), Branch2::B(q)) => v.lemma_describes_frame(q, h1, h2),
            _ => {},
        }
    }

    fn build(self, host: &mut Host) -> (p: Self::Product) {
        match self {
            Branch2::A(v) => Branch2::A(v.build(host)),
            Branch2::B(v) => Branch2::B(v.build(host)),
        }
    }

    fn update(self, p: &mut Self::Product, host: &mut Host)
        ensures
            ((*final(p)) is A) == (self is A),
            (self is A) != ((*old(p)) is A) ==> old(host).node_count() <= final(p).primary()
                < final(host).node_count() && !final(host).attached(old(p).primary()),
    {
        match self {
            Branch2::A(v) => {
                let same = match &*p {
                    Branch2::A(_) => true,
                    Branch2::B(_) => false,
                };
                if same {
                    match p {
                        Branch2::A(q) => v.update(q, host),
                        Branch2::B(_) => {
                            proof {
                                assert(false);
                            }
                        },
                    }
                } else {
                    let built = v.build(host);
                    let ghost hb: Host = *host;
                    proof {
                        old(p).lemma_wf(*old(host));
                        old(p).lemma_wf_frame(*old(host), hb);
                        built.lemma_wf(hb);
                        assert(built.owned().contains(built.primary()));
                    }
                    replace_product(&*p, &built, host);
                    proof {
                        v.lemma_describes_frame(built, hb, *host);
                    }
                    *p = Branch2::A(built);
                }
            },
            Branch2::B(v) => {
                let same = match &*p {
                    Branch2::B(_) => true,
                    Branch2::A(_) => false,
                };
                if same {
                    match p {
                        Branch2::B(q) => v.update(q, host),
                        Branch2::A(_) => {
                            proof {
                                assert(false);
                            }
                        },
                    }
                } else {
                    let built = v.build(host);
                    let ghost hb: Host = *host;
                    proof {
                        old(p).lemma_wf(*old(host));
                        old(p).lemma_wf_frame(*old(host), hb);
                        built.lemma_wf(hb);
                        assert(built.owned().contains(built.primary()));
                    }
                    replace_product(&*p, &built, host);
                    proof {
                        v.lemma_describes_frame(built, hb, *host);
                    }
                    *p = Branch2::B(built);
                }
            },
        }
    }
}

/// A closed union of three view types sharing one update path.
pub enum Branch3<V1, V2, V3> {
    A(V1),
    B(V2),
    C(V3),
}

impl<V1: Mountable, V2: Mountable, V3: Mountable> Mountable for Branch3<V1, V2, V3> {
    closed spec fn owned(self) -> Set<int> {
        match self {
            Branch3::A(p) => p.owned(),
            Branch3::B(p) => p.owned(),
            Branch3::C(p) => p.owned(),
        }
    }

    closed spec fn primary(self) -> int {
        match self {
            Branch3::A(p) => p.primary(),
            Branch3::B(p) => p.primary(),
            Branch3::C(p) => p.primary(),
        }
    }

    closed spec fn wf(self, host: Host) -> bool {
        match self {
            Branch3::A(p) => p.wf(host),
            Branch3::B(p) => p.wf(host),
            Branch3::C(p) => p.wf(host),
        }
    }

    proof fn lemma_wf(self, host: Host) {
        match self {
            Branch3::A(p) => p.lemma_wf(host),
            Branch3::B(p) => p.lemma_wf(host),
            Branch3::C(p) => p.lemma_wf(host),
        }
    }

    proof fn lemma_wf_frame(self, h1: Host, h2: Host) {
        match self {
            Branch3::A(p) => p.lemma_wf_frame(h1, h2),
            Branch3::B(p) => p.lemma_wf_frame(h1, h2),
            Branch3::C(p) => p.lemma_wf_frame(h1, h2),
        }
    }

    fn js(&self) -> (n: NodeId) {
        match self {
            Branch3::A(p) => p.js(),
            Branch3::B(p) => p.js(),
            Branch3::C(p) => p.js(),
        }
    }

    fn unmount(&self, host: &mut Host) {
        match self {
            Branch3::A(p) => p.unmount(host),
            Branch3::B(p) => p.unmount(host),
            Branch3::C(p) => p.unmount(host),
        }
    }

    fn mount(&self, host: &mut Host) {
        match self {
            Branch3::A(p) => p.mount(host),
            Branch3::B(p) => p.mount(host),
            Branch3::C(p) => p.mount(host),
        }
    }
}

impl<S, V1: Trigger<S>, V2: Trigger<S>, V3: Trigger<S>> Trigger<S> for Branch3<V1, V2, V3> {
    fn trigger(&self, state: &mut S, e: &Event, eid: EventId) -> Option<Then> {
        match self {
            Branch3::A(p) => p.trigger(state, e, eid),
            Branch3::B(p) => p.trigger(state, e, eid),
            Branch3::C(p) => p.trigger(state, e, eid),
        }
    }
}

impl<V1: Render, V2: Render, V3: Render> Render for Branch3<V1, V2, V3> {
    type Product = Branch3<V1::Product, V2::Product, V3::Product>;

    open spec fn describes(self, p: Self::Product, host: Host) -> bool {
        match (self, p) {
            (Branch3::A(v), Branch3::A(q)) => v.describes(q, host),
            (Branch3::B(v), Branch3::B(q)) => v.describes(q, host),
            (Branch3::C(v), Branch3::C(q)) => v.describes(q, host),
            _ => false,
        }
    }

    open spec fn steady(self) -> bool {
        match self {
            Branch3::A(v) => v.steady(),
            Branch3::B(v) => v.steady(),
            Branch3::C(v) => v.steady(),
        }
    }

    proof fn lemma_describes_frame(self, p: Self::Product, h1: Host, h2: Host) {
        match (self, p) {
            (Branch3::A(v), Branch3::A(q)) => v.lemma_describes_frame(q, h1, h2),
            (Branch3::B(v), Branch3::B(q)) => v.lemma_describes_frame(q, h1, h2),
            (Branch3::C(v), Branch3::C(q)) => v.lemma_describes_frame(q, h1, h2),
            _ => {},
        }
    }

    fn build(self, host: &mut Host) -> (p: Self::Product) {
        match self {
            Branch3::A(v) => Branch3::A(v.build(host)),
            Branch3::B(v) => Branch3::B(v.build(host)),
            Branch3::C(v) => Branch3::C(v.build(host)),
        }
    }

    fn update(self, p: &mut Self::Product, host: &mut Host)
        ensures
            ((*final(p)) is A) == (self is A),
            ((*final(p)) is B) == (self is B),
            (self is A) != ((*old(p)) is A) || (self is B) != ((*old(p)) is B)
                ==> old(host).node_count() <= final(p).primary() < final(host).node_count()
                && !final(host).attached(old(p).primary()),
    {
        match self {
            Branch3::A(v) => {
                let same = match &*p {
                    Branch3::A(_) => true,
                    _ => false,
                };
                if same {
                    match p {
                        Branch3::A(q) => v.update(q, host),
                        _ => {
                            proof {
                                assert(false);
                            }
                        },
                    }
                } else {
                    let built = v.build(host);
                    let ghost hb: Host = *host;
                    proof {
                        old(p).lemma_wf(*old(host));
                        old(p).lemma_wf_frame(*old(host), hb);
                        built.lemma_wf(hb);
                        assert(built.owned().contains(built.primary()));
                    }
                    replace_product(&*p, &built, host);
                    proof {
                        v.lemma_describes_frame(built, hb, *host);
                    }
                    *p = Branch3::A(built);
                }
            },
            Branch3::B(v) => {
                let same = match &*p {
                    Branch3::B(_) => true,
                    _ => false,
                };
                if same {
                    match p {
                        Branch3::B(q) => v.update(q, host),
                        _ => {
                            proof {
                                assert(false);
                            }
                        },
                    }
                } else {
                    let built = v.build(host);
                    let ghost hb: Host = *host;
                    proof {
                        old(p).lemma_wf(*old(host));
                        old(p).lemma_wf_frame(*old(host), hb);
                        built.lemma_wf(hb);
                        assert(built.owned().contains(built.primary()));
                    }
                    replace_product(&*p, &built, host);
                    proof {
                        v.lemma_describes_frame(built, hb, *host);
                    }
                    *p = Branch3::B(built);
                }
            },
            Branch3::C(v) => {
                let same = match &*p {
                    Branch3::C(_) => true,
                    _ => false,
                };
                if same {
                    match p {
                        Branch3::C(q) => v.update(q, host),
                        _ => {
                            proof {
                                assert(false);
                            }
                        },
                    }
                } else {
                    let built = v.build(host);
                    let ghost hb: Host = *host;
                    proof {
                        old(p).lemma_wf(*old(host));
                        old(p).lemma_wf_frame(*old(host), hb);
                        built.lemma_wf(hb);
                        assert(built.owned().contains(built.primary()));
                    }
                    replace_product(&*p, &built, host);
                    proof {
                        v.lemma_describes_frame(built, hb, *host);
                    }
                    *p = Branch3::C(built);
                }
            },
        }
    }
}

impl<V: Render> Render for Option<V> {
    type Product = Branch2<V::Product, EmptyNode>;

    open spec fn describes(self, p: Self::Product, host: Host) -> bool {
        match (self, p) {
            (Some(v), Branch2::A(q)) => v.describes(q, host),
            (None, Branch2::B(_)) => true,
            _ => false,
        }
    }

    open spec fn steady(self) -> bool {
        match self {
            Some(v) => v.steady(),
            None => true,
        }
    }

    proof fn lemma_describes_frame(self, p: Self::Product, h1: Host, h2: Host) {
        match (self, p) {
            (Some(v), Branch2::A(q)) => v.lemma_describes_frame(q, h1, h2),
            _ => {},
        }
    }

    fn build(self, host: &mut Host) -> (p: Self::Product) {
        match self {
            Some(v) => Branch2::A(v.build(host)),
            None => Branch2::B(Empty.build(host)),
        }
    }

    fn update(self, p: &mut Self::Product, host: &mut Host)
        ensures
            ((*final(p)) is A) == (self is Some),
            (self is Some) != ((*old(p)) is A) ==> old(host).node_count() <= final(p).primary()
                < final(host).node_count() && !final(host).attached(old(p).primary()),
    {
        match self {
            Some(v) => {
                let same = match &*p {
                    Branch2::A(_) => true,
                    Branch2::B(_) => false,
                };
                if same {
                    match p {
                        Branch2::A(q) => v.update(q, host),
                        Branch2::B(_) => {
                            proof {
                                assert(false);
                            }
                        },
                    }
                } else {
                    let built = v.build(host);
                    let ghost hb: Host = *host;
                    proof {
                        old(p).lemma_wf(*old(host));
                        old(p).lemma_wf_frame(*old(host), hb);
                        built.lemma_wf(hb);
                        assert(built.owned().contains(built.primary()));
                    }
                    replace_product(&*p, &built, host);
                    proof {
                        v.lemma_describes_frame(built, hb, *host);
                    }
                    *p = Branch2::A(built);
                }
            },
            None => {
                let same = match &*p {
                    Branch2::B(_) => true,
                    Branch2::A(_) => false,
                };
                if !same {
                    let built = Empty.build(host);
                    let ghost hb: Host = *host;
                    proof {
                        old(p).lemma_wf(*old(host));
                        old(p).lemma_wf_frame(*old(host), hb);
                        built.lemma_wf(hb);
                        assert(built.owned().contains(built.primary()));
                    }
                    replace_product(&*p, &built, host);
                    *p = Branch2::B(built);
                }
            },
        }
    }
}

} // verus!
