//! Model of the host surface the renderer mutates.
//!
//! The renderer never owns the screen; it drives an external document through
//! a small capability set: create a node, set its text, attach it to or
//! detach it from its parent context, swap one node for another, move focus,
//! and hand out fresh listener ids. This module models that surface as a flat
//! arena of nodes, each with its current text and an attachment flag, so that
//! every contract in the crate can state exactly which nodes an operation
//! touched and which it left alone.
//!
//! The model is flat: it does not order children inside a parent. The order
//! a list's children appear in on the real surface is represented
//! positionally, by the order of the products in the list that attached
//! them — after a pass, the attached items of a list are its first
//! `mounted` products, in pass order.

use vstd::prelude::*;

verus! {

/// One node of the host surface: its text content and whether it is
/// currently linked into its parent context.
struct NodeData {
    text: String,
    attached: bool,
}

/// Handle to one node of the host surface.
#[derive(Clone, Copy, PartialEq, Eq, Structural, Debug)]
pub struct NodeId(usize);

impl View for NodeId {
    type V = int;

    closed spec fn view(&self) -> int {
        self.0 as int
    }
}

/// A fresh listener id handed out by the host surface.
#[derive(Clone, Copy, PartialEq, Eq, Structural, Debug)]
pub struct EventId(u32);

impl View for EventId {
    type V = int;

    closed spec fn view(&self) -> int {
        self.0 as int
    }
}

/// The host surface: an arena of nodes plus the focus slot and the source of
/// listener ids. Node handles are never invalidated; detached nodes stay in
/// the arena so products can re-attach them later.
pub struct Host {
    nodes: Vec<NodeData>,
    focused: Option<NodeId>,
    next_event_id: u32,
}

impl Host {
    /// How many nodes have ever been created.
    pub closed spec fn node_count(self) -> nat {
        self.nodes@.len()
    }

    /// Whether `n` names a node of this surface.
    pub open spec fn valid(self, n: int) -> bool {
        0 <= n < self.node_count()
    }

    /// The text content of node `n`.
    pub closed spec fn text_at(self, n: int) -> Seq<char> {
        self.nodes@[n].text@
    }

    /// Whether node `n` is linked into its parent context.
    pub closed spec fn attached(self, n: int) -> bool {
        self.nodes@[n].attached
    }

    /// The node holding focus, if any.
    pub closed spec fn focus_of(self) -> Option<NodeId> {
        self.focused
    }

    /// How many listener ids have been handed out.
    pub closed spec fn event_ids(self) -> nat {
        self.next_event_id as nat
    }

    /// Both surfaces agree, node for node, on text and attachment for the
    /// nodes in `s`, which are valid on both.
    pub open spec fn agrees_on(self, other: Host, s: Set<int>) -> bool {
        forall|n: int|
            #[trigger] s.contains(n) ==> self.valid(n) && other.valid(n)
                && self.text_at(n) == other.text_at(n) && self.attached(n) == other.attached(n)
    }

    /// Both surfaces agree on the text of the nodes in `s`.
    pub open spec fn texts_agree_on(self, other: Host, s: Set<int>) -> bool {
        forall|n: int|
            #[trigger] s.contains(n) ==> self.valid(n) && other.valid(n)
                && self.text_at(n) == other.text_at(n)
    }

    /// The surface may have grown from `prev`, but every old node outside
    /// `except` kept its text and its attachment.
    pub open spec fn preserves_outside(self, prev: Host, except: Set<int>) -> bool {
        &&& self.node_count() >= prev.node_count()
        &&& forall|n: int|
            #![trigger self.text_at(n)]
            #![trigger self.attached(n)]
            #![trigger except.contains(n)]
            prev.valid(n) && !except.contains(n) ==> self.text_at(n) == prev.text_at(n)
                && self.attached(n) == prev.attached(n)
    }

    /// No node count change, and every node kept its text.
    pub open spec fn same_texts(self, prev: Host) -> bool {
        &&& self.node_count() == prev.node_count()
        &&& forall|n: int| prev.valid(n) ==> #[trigger] self.text_at(n) == prev.text_at(n)
    }

    /// The two surfaces are indistinguishable to an observer: same nodes with
    /// the same text and attachment, same focus, same ids handed out.
    pub open spec fn same_as(self, other: Host) -> bool {
        &&& self.node_count() == other.node_count()
        &&& forall|n: int|
            #![trigger self.text_at(n)]
            #![trigger self.attached(n)]
            other.valid(n) ==> self.text_at(n) == other.text_at(n) && self.attached(n)
                == other.attached(n)
        &&& self.focus_of() == other.focus_of()
        &&& self.event_ids() == other.event_ids()
    }

    /// An empty host surface.
    pub fn new() -> (h: Host)
        ensures
            h.node_count() == 0,
            h.focus_of() is None,
            h.event_ids() == 0,
    {
        Host { nodes: Vec::new(), focused: None, next_event_id: 0 }
    }

    /// Create a fresh, detached node holding `text`.
    pub fn create_text(&mut self, text: String) -> (n: NodeId)
        ensures
            n@ == old(self).node_count(),
            final(self).node_count() == old(self).node_count() + 1,
            final(self).text_at(n@) == text@,
            !final(self).attached(n@),
            final(self).preserves_outside(*old(self), Set::empty()),
            final(self).focus_of() == old(self).focus_of(),
            final(self).event_ids() == old(self).event_ids(),
    {
        let n = NodeId(self.nodes.len());
        self.nodes.push(NodeData { text, attached: false });
        n
    }

    /// Create a fresh, detached node with empty text.
    pub fn create_empty(&mut self) -> (n: NodeId)
        ensures
            n@ == old(self).node_count(),
            final(self).node_count() == old(self).node_count() + 1,
            final(self).text_at(n@) == Seq::<char>::empty(),
            !final(self).attached(n@),
            final(self).preserves_outside(*old(self), Set::empty()),
            final(self).focus_of() == old(self).focus_of(),
            final(self).event_ids() == old(self).event_ids(),
    {
        let n = NodeId(self.nodes.len());
        let text = String::new();
        proof {
            assert(text@ =~= Seq::<char>::empty());
        }
        self.nodes.push(NodeData { text, attached: false });
        n
    }

    /// Set the text content of node `n`.
    pub fn set_text(&mut self, n: NodeId, text: String)
        requires
            old(self).valid(n@),
        ensures
            final(self).node_count() == old(self).node_count(),
            final(self).text_at(n@) == text@,
            final(self).attached(n@) == old(self).attached(n@),
            final(self).preserves_outside(*old(self), Set::empty().insert(n@)),
            final(self).focus_of() == old(self).focus_of(),
            final(self).event_ids() == old(self).event_ids(),
    {
        let node = node_at(&mut self.nodes, n.0);
        node.text = text;
    }

    /// Link node `n` into its parent context.
    pub fn append(&mut self, n: NodeId)
        requires
            old(self).valid(n@),
        ensures
            final(self).node_count() == old(self).node_count(),
            final(self).attached(n@),
            final(self).text_at(n@) == old(self).text_at(n@),
            final(self).preserves_outside(*old(self), Set::empty().insert(n@)),
            final(self).same_texts(*old(self)),
            final(self).focus_of() == old(self).focus_of(),
            final(self).event_ids() == old(self).event_ids(),
    {
        let node = node_at(&mut self.nodes, n.0);
        node.attached = true;
    }

    /// Unlink node `n` from its parent context. The node stays in the arena.
    pub fn detach(&mut self, n: NodeId)
        requires
            old(self).valid(n@),
        ensures
            final(self).node_count() == old(self).node_count(),
            !final(self).attached(n@),
            final(self).text_at(n@) == old(self).text_at(n@),
            final(self).preserves_outside(*old(self), Set::empty().insert(n@)),
            final(self).same_texts(*old(self)),
            final(self).focus_of() == old(self).focus_of(),
            final(self).event_ids() == old(self).event_ids(),
    {
        let node = node_at(&mut self.nodes, n.0);
        node.attached = false;
    }

    /// Move focus to node `n`.
    pub fn focus(&mut self, n: NodeId)
        requires
            old(self).valid(n@),
        ensures
            final(self).node_count() == old(self).node_count(),
            final(self).preserves_outside(*old(self), Set::empty()),
            final(self).same_texts(*old(self)),
            final(self).focus_of() == Some(n),
            final(self).event_ids() == old(self).event_ids(),
    {
        self.focused = Some(n);
    }

    /// Hand out a fresh listener id. Ids are handed out in increasing order
    /// and never reused until the counter is exhausted, after which the last
    /// id repeats.
    pub fn next_event_id(&mut self) -> (e: EventId)
        ensures
            e@ == old(self).event_ids(),
            final(self).event_ids() == if old(self).event_ids() < u32::MAX {
                old(self).event_ids() + 1 as int
            } else {
                old(self).event_ids() as int
            },
            final(self).node_count() == old(self).node_count(),
            final(self).preserves_outside(*old(self), Set::empty()),
            final(self).same_texts(*old(self)),
            final(self).focus_of() == old(self).focus_of(),
    {
        let e = EventId(self.next_event_id);
        if self.next_event_id < u32::MAX {
            self.next_event_id = self.next_event_id + 1;
        }
        e
    }

    /// How many nodes exist.
    pub fn len(&self) -> (c: usize)
        ensures
            c as int == self.node_count(),
    {
        self.nodes.len()
    }

    /// Whether node `n` is currently linked into its parent context.
    pub fn is_attached(&self, n: NodeId) -> (a: bool)
        requires
            self.valid(n@),
        ensures
            a == self.attached(n@),
    {
        self.nodes[n.0].attached
    }

    /// A copy of the text content of node `n`.
    pub fn read_text(&self, n: NodeId) -> (t: String)
        requires
            self.valid(n@),
        ensures
            t@ == self.text_at(n@),
    {
        self.nodes[n.0].text.clone()
    }

    /// How many listener ids have been handed out.
    pub fn event_ids_used(&self) -> (c: u32)
        ensures
            c as int == self.event_ids(),
    {
        self.next_event_id
    }

    /// The node holding focus, if any.
    pub fn focused(&self) -> (f: Option<NodeId>)
        ensures
            f == self.focus_of(),
    {
        self.focused
    }
}

/// Two preservation steps compose: what neither step touched is unchanged
/// across both.
pub proof fn lemma_preserves_trans(h3: Host, h2: Host, h1: Host, e2: Set<int>, e1: Set<int>)
    requires
        h2.preserves_outside(h1, e1),
        h3.preserves_outside(h2, e2),
    ensures
        h3.preserves_outside(h1, e1.union(e2)),
{
    assert forall|n: int|
        h1.valid(n) && !e1.union(e2).contains(n) implies #[trigger] h3.text_at(n) == h1.text_at(n)
        && h3.attached(n) == h1.attached(n) by {
        assert(!e1.contains(n));
        assert(!e2.contains(n));
        assert(h2.text_at(n) == h1.text_at(n) && h2.attached(n) == h1.attached(n));
    }
}

/// Indistinguishability of host surfaces is transitive.
pub proof fn lemma_same_as_trans(h3: Host, h2: Host, h1: Host)
    requires
        h3.same_as(h2),
        h2.same_as(h1),
    ensures
        h3.same_as(h1),
{
    assert forall|n: int|
        h1.valid(n) implies #[trigger] h3.text_at(n) == h1.text_at(n) && h3.attached(n)
            == h1.attached(n) by {
        assert(h2.text_at(n) == h1.text_at(n) && h2.attached(n) == h1.attached(n));
    }
}

/// Mutable access to one element of a vector.
fn node_at(nodes: &mut Vec<NodeData>, i: usize) -> (node: &mut NodeData)
    requires
        i < old(nodes).len(),
    ensures
        *node == old(nodes)@[i as int],
        final(nodes)@ == old(nodes)@.update(i as int, *final(node)),
{
    &mut nodes[i]
}

} // verus!
