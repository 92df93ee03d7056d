//! Diffing values between render passes.
//!
//! A [`Diff`] value knows how to produce a memo of itself and how to test a
//! later incarnation against that memo in O(1), so that update passes can
//! skip work that would change nothing. [`Fence`] turns any diffable guard
//! into a gate in front of a whole subtree: the subtree is rebuilt only when
//! the guard reports a change. [`Eager`] and [`Static`] are the two
//! degenerate diffs: always changed, and never changed. Diffing by reference
//! identity — a memo holding the referent's raw address — is the one variant
//! not represented: an address is not observable in this model.

use vstd::prelude::*;

pub mod ver;

verus! {

use crate::event::Event;
use crate::host::{EventId, Host};
use crate::runtime::{Then, Trigger};
use crate::text::TextProduct;
use crate::{Mountable, Render};

/// How a value is diffed at runtime against the memo of its last applied
/// incarnation.
pub trait Diff: Sized + Copy {
    /// Data kept in the product to recognize this value next pass.
    type Memo;

    /// Whether diffing this value against `memo` reports a change.
    spec fn changes(self, memo: Self::Memo) -> bool;

    /// A volatile value reports a change against every memo; its users
    /// re-apply it on every pass.
    spec fn volatile(self) -> bool;

    /// The memo recording this value as applied.
    fn into_memo(self) -> (m: Self::Memo)
        ensures
            self.volatile() || !self.changes(m),
    ;

    /// Test this value against the last memo; on a change, replace the memo
    /// so that the same value diffs clean next pass.
    fn diff(self, memo: &mut Self::Memo) -> (c: bool)
        ensures
            c == self.changes(*old(memo)),
            !c ==> *final(memo) == *old(memo),
            c ==> self.volatile() || !self.changes(*final(memo)),
    ;
}

/// A view whose product is only updated when `guard` has changed since the
/// last pass; the subtree below it is skipped entirely otherwise.
///
/// A fence's product counts as *described* by a view whenever the guard
/// diffs clean against the stored memo — deliberately saying nothing about
/// the inner subtree, which a fence leaves stale on purpose.
pub struct Fence<D, V> {
    pub(crate) guard: D,
    pub(crate) inner: V,
}

impl<D, V> Fence<D, V> {
    /// The guard (or, in a product, its memo).
    pub closed spec fn guard_of(self) -> D {
        self.guard
    }

    /// The inner view (or, in a product, the inner product).
    pub closed spec fn inner_of(self) -> V {
        self.inner
    }
}

/// Gate `view` behind `guard`: its product is updated only on passes where
/// `guard` diffs as changed.
pub fn fence<D: Diff, V: Render>(guard: D, view: V) -> (f: Fence<D, V>)
    ensures
        f.guard_of() == guard,
        f.inner_of() == view,
{
    Fence { guard, inner: view }
}

impl<M, P: Mountable> Mountable for Fence<M, P> {
    closed spec fn owned(self) -> Set<int> {
        self.inner.owned()
    }

    closed spec fn primary(self) -> int {
        self.inner.primary()
    }

    closed spec fn wf(self, host: Host) -> bool {
        self.inner.wf(host)
    }

    proof fn lemma_wf(self, host: Host) {
        self.inner.lemma_wf(host);
    }

    proof fn lemma_wf_frame(self, h1: Host, h2: Host) {
        self.inner.lemma_wf_frame(h1, h2);
    }

    fn js(&self) -> (n: crate::host::NodeId) {
        self.inner.js()
    }

    fn unmount(&self, host: &mut Host) {
        self.inner.unmount(host);
    }

    fn mount(&self, host: &mut Host) {
        self.inner.mount(host);
    }
}

impl<S, M, P: Trigger<S>> Trigger<S> for Fence<M, P> {
    fn trigger(&self, state: &mut S, e: &Event, eid: EventId) -> Option<Then> {
        self.inner.trigger(state, e, eid)
    }
}

impl<D: Diff, V: Render> Render for Fence<D, V> {
    type Product = Fence<D::Memo, V::Product>;

    open spec fn describes(self, p: Self::Product, host: Host) -> bool {
        self.guard_of().volatile() || !self.guard_of().changes(p.guard_of())
    }

    open spec fn steady(self) -> bool {
        !self.guard_of().volatile()
    }

    proof fn lemma_describes_frame(self, p: Self::Product, h1: Host, h2: Host) {
    }

    fn build(self, host: &mut Host) -> (p: Self::Product)
        ensures
            self.inner_of().describes(p.inner_of(), *final(host)),
    {
        let memo = self.guard.into_memo();
        let inner = self.inner.build(host);
        Fence { guard: memo, inner }
    }

    fn update(self, p: &mut Self::Product, host: &mut Host)
        ensures
            !self.guard_of().changes(old(p).guard_of()) ==> *final(p) == *old(p) && *final(host)
                == *old(host),
            self.guard_of().changes(old(p).guard_of()) ==> self.inner_of().describes(
                final(p).inner_of(),
                *final(host),
            ) && (self.guard_of().volatile() || !self.guard_of().changes(final(p).guard_of())),
    {
        let changed = self.guard.diff(&mut p.guard);
        if changed {
            self.inner.update(&mut p.inner, host);
        }
    }
}

/// A view whose product is built once and then never updated, whatever the
/// later passes hold.
pub struct Invar<V>(pub(crate) V);

impl<V> Invar<V> {
    /// The frozen view.
    pub closed spec fn inner_of(self) -> V {
        self.0
    }
}

/// Freeze `view`: its product is built once and never updated.
pub fn invar<V: Render>(view: V) -> (i: Invar<V>)
    ensures
        i.inner_of() == view,
{
    Invar(view)
}

impl<V: Render> Render for Invar<V> {
    type Product = V::Product;

    open spec fn describes(self, p: Self::Product, host: Host) -> bool {
        true
    }

    open spec fn steady(self) -> bool {
        true
    }

    proof fn lemma_describes_frame(self, p: Self::Product, h1: Host, h2: Host) {
    }

    fn build(self, host: &mut Host) -> (p: Self::Product)
        ensures
            self.inner_of().describes(p, *final(host)),
    {
        self.0.build(host)
    }

    fn update(self, p: &mut Self::Product, host: &mut Host)
        ensures
            *final(p) == *old(p),
            *final(host) == *old(host),
    {
    }
}

/// A value applied to the host surface on every pass, without diffing.
#[derive(Clone, Copy)]
pub struct Eager<T>(pub(crate) T);

/// A value applied to the host surface once at build, and never again.
#[derive(Clone, Copy)]
pub struct Static<T>(pub(crate) T);

impl<T> Eager<T> {
    /// The wrapped value.
    pub closed spec fn value_of(self) -> T {
        self.0
    }

    /// Wrap `value` for eager application.
    pub fn new(value: T) -> (e: Eager<T>)
        ensures
            e.value_of() == value,
    {
        Eager(value)
    }
}

impl<T> Static<T> {
    /// The wrapped value.
    pub closed spec fn value_of(self) -> T {
        self.0
    }

    /// Wrap `value` for one-time application.
    pub fn new(value: T) -> (s: Static<T>)
        ensures
            s.value_of() == value,
    {
        Static(value)
    }
}

impl<T: Copy> Diff for Eager<T> {
    type Memo = ();

    open spec fn changes(self, memo: ()) -> bool {
        true
    }

    open spec fn volatile(self) -> bool {
        true
    }

    fn into_memo(self) -> (m: ()) {
    }

    fn diff(self, memo: &mut ()) -> (c: bool) {
        true
    }
}

impl<T: Copy> Diff for Static<T> {
    type Memo = ();

    open spec fn changes(self, memo: ()) -> bool {
        false
    }

    open spec fn volatile(self) -> bool {
        false
    }

    fn into_memo(self) -> (m: ()) {
    }

    fn diff(self, memo: &mut ()) -> (c: bool) {
        false
    }
}

impl Render for Eager<String> {
    type Product = TextProduct;

    open spec fn describes(self, p: TextProduct, host: Host) -> bool {
        p.memo_of() == self.value_of()@
    }

    open spec fn steady(self) -> bool {
        true
    }

    proof fn lemma_describes_frame(self, p: TextProduct, h1: Host, h2: Host) {
    }

    fn build(self, host: &mut Host) -> (p: TextProduct)
        ensures
            final(host).text_at(Mountable::primary(p)) == self.value_of()@,
    {
        self.0.build(host)
    }

    fn update(self, p: &mut TextProduct, host: &mut Host)
        ensures
            Mountable::primary(*final(p)) == Mountable::primary(*old(p)),
            final(host).text_at(Mountable::primary(*final(p))) == self.value_of()@,
    {
        self.0.update(p, host);
    }
}

impl Render for Static<String> {
    type Product = TextProduct;

    open spec fn describes(self, p: TextProduct, host: Host) -> bool {
        true
    }

    open spec fn steady(self) -> bool {
        true
    }

    proof fn lemma_describes_frame(self, p: TextProduct, h1: Host, h2: Host) {
    }

    fn build(self, host: &mut Host) -> (p: TextProduct)
        ensures
            final(host).text_at(Mountable::primary(p)) == self.value_of()@,
    {
        self.0.build(host)
    }

    fn update(self, p: &mut TextProduct, host: &mut Host)
        ensures
            *final(p) == *old(p),
            *final(host) == *old(host),
    {
    }
}

impl Diff for bool {
    type Memo = bool;

    open spec fn changes(self, memo: bool) -> bool {
        self != memo
    }

    open spec fn volatile(self) -> bool {
        false
    }

    fn into_memo(self) -> (m: bool) {
        self
    }

    fn diff(self, memo: &mut bool) -> (c: bool) {
        if self != *memo {
            *memo = self;
            true
        } else {
            false
        }
    }
}

impl Diff for u8 {
    type Memo = u8;

    open spec fn changes(self, memo: u8) -> bool {
        self != memo
    }

    open spec fn volatile(self) -> bool {
        false
    }

    fn into_memo(self) -> (m: u8) {
        self
    }

    fn diff(self, memo: &mut u8) -> (c: bool) {
        if self != *memo {
            *memo = self;
            true
        } else {
            false
        }
    }
}

impl Diff for u16 {
    type Memo = u16;

    open spec fn changes(self, memo: u16) -> bool {
        self != memo
    }

    open spec fn volatile(self) -> bool {
        false
    }

    fn into_memo(self) -> (m: u16) {
        self
    }

    fn diff(self, memo: &mut u16) -> (c: bool) {
        if self != *memo {
            *memo = self;
            true
        } else {
            false
        }
    }
}

impl Diff for u32 {
    type Memo = u32;

    open spec fn changes(self, memo: u32) -> bool {
        self != memo
    }

    open spec fn volatile(self) -> bool {
        false
    }

    fn into_memo(self) -> (m: u32) {
        self
    }

    fn diff(self, memo: &mut u32) -> (c: bool) {
        if self != *memo {
            *memo = self;
            true
        } else {
            false
        }
    }
}

impl Diff for u64 {
    type Memo = u64;

    open spec fn changes(self, memo: u64) -> bool {
        self != memo
    }

    open spec fn volatile(self) -> bool {
        false
    }

    fn into_memo(self) -> (m: u64) {
        self
    }

    fn diff(self, memo: &mut u64) -> (c: bool) {
        if self != *memo {
            *memo = self;
            true
        } else {
            false
        }
    }
}

impl Diff for u128 {
    type Memo = u128;

    open spec fn changes(self, memo: u128) -> bool {
        self != memo
    }

    open spec fn volatile(self) -> bool {
        false
    }

    fn into_memo(self) -> (m: u128) {
        self
    }

    fn diff(self, memo: &mut u128) -> (c: bool) {
        if self != *memo {
            *memo = self;
            true
        } else {
            false
        }
    }
}

impl Diff for usize {
    type Memo = usize;

    open spec fn changes(self, memo: usize) -> bool {
        self != memo
    }

    open spec fn volatile(self) -> bool {
        false
    }

    fn into_memo(self) -> (m: usize) {
        self
    }

    fn diff(self, memo: &mut usize) -> (c: bool) {
        if self != *memo {
            *memo = self;
            true
        } else {
            false
        }
    }
}

impl Diff for i8 {
    type Memo = i8;

    open spec fn changes(self, memo: i8) -> bool {
        self != memo
    }

    open spec fn volatile(self) -> bool {
        false
    }

    fn into_memo(self) -> (m: i8) {
        self
    }

    fn diff(self, memo: &mut i8) -> (c: bool) {
        if self != *memo {
            *memo = self;
            true
        } else {
            false
        }
    }
}

impl Diff for i16 {
    type Memo = i16;

    open spec fn changes(self, memo: i16) -> bool {
        self != memo
    }

    open spec fn volatile(self) -> bool {
        false
    }

    fn into_memo(self) -> (m: i16) {
        self
    }

    fn diff(self, memo: &mut i16) -> (c: bool) {
        if self != *memo {
            *memo = self;
            true
        } else {
            false
        }
    }
}

impl Diff for i32 {
    type Memo = i32;

    open spec fn changes(self, memo: i32) -> bool {
        self != memo
    }

    open spec fn volatile(self) -> bool {
        false
    }

    fn into_memo(self) -> (m: i32) {
        self
    }

    fn diff(self, memo: &mut i32) -> (c: bool) {
        if self != *memo {
            *memo = self;
            true
        } else {
            false
        }
    }
}

impl Diff for i64 {
    type Memo = i64;

    open spec fn changes(self, memo: i64) -> bool {
        self != memo
    }

    open spec fn volatile(self) -> bool {
        false
    }

    fn into_memo(self) -> (m: i64) {
        self
    }

    fn diff(self, memo: &mut i64) -> (c: bool) {
        if self != *memo {
            *memo = self;
            true
        } else {
            false
        }
    }
}

impl Diff for i128 {
    type Memo = i128;

    open spec fn changes(self, memo: i128) -> bool {
        self != memo
    }

    open spec fn volatile(self) -> bool {
        false
    }

    fn into_memo(self) -> (m: i128) {
        self
    }

    fn diff(self, memo: &mut i128) -> (c: bool) {
        if self != *memo {
            *memo = self;
            true
        } else {
            false
        }
    }
}

impl Diff for isize {
    type Memo = isize;

    open spec fn changes(self, memo: isize) -> bool {
        self != memo
    }

    open spec fn volatile(self) -> bool {
        false
    }

    fn into_memo(self) -> (m: isize) {
        self
    }

    fn diff(self, memo: &mut isize) -> (c: bool) {
        if self != *memo {
            *memo = self;
            true
        } else {
            false
        }
    }
}

impl<'a> Diff for &'a String {
    type Memo = String;

    open spec fn changes(self, memo: String) -> bool {
        self@ != memo@
    }

    open spec fn volatile(self) -> bool {
        false
    }

    fn into_memo(self) -> (m: String) {
        self.clone()
    }

    fn diff(self, memo: &mut String) -> (c: bool) {
        if *self != *memo {
            *memo = self.clone();
            true
        } else {
            false
        }
    }
}

impl<'a> Diff for &'a str {
    type Memo = String;

    open spec fn changes(self, memo: String) -> bool {
        self@ != memo@
    }

    open spec fn volatile(self) -> bool {
        false
    }

    fn into_memo(self) -> (m: String) {
        self.to_owned()
    }

    fn diff(self, memo: &mut String) -> (c: bool) {
        let fresh = self.to_owned();
        if fresh == *memo {
            false
        } else {
            *memo = fresh;
            true
        }
    }
}

impl<T: Diff> Diff for Option<T> {
    type Memo = Option<T::Memo>;

    open spec fn changes(self, memo: Option<T::Memo>) -> bool {
        match (self, memo) {
            (None, None) => false,
            (Some(value), Some(inner)) => value.changes(inner),
            _ => true,
        }
    }

    open spec fn volatile(self) -> bool {
        match self {
            Some(value) => value.volatile(),
            None => false,
        }
    }

    fn into_memo(self) -> (m: Option<T::Memo>) {
        match self {
            Some(value) => Some(value.into_memo()),
            None => None,
        }
    }

    fn diff(self, memo: &mut Option<T::Memo>) -> (c: bool) {
        match self {
            None => match memo {
                None => false,
                Some(_) => {
                    *memo = None;
                    true
                },
            },
            Some(value) => match memo {
                Some(inner) => value.diff(inner),
                None => {
                    *memo = Some(value.into_memo());
                    true
                },
            },
        }
    }
}

} // verus!
