//! Version-counted diffing.
//!
//! [`Ver`] wraps a value together with a version tag and bumps the tag's low
//! half on every mutable access, so that *any* mutation — not just value
//! inequality — is detected in O(1) by comparing tags. The tag's high half
//! comes from a caller-held counter, so wrappers minted from one counter
//! carry distinct identities and swapping them around in memory is detected
//! too. Detection is probabilistic at the 16-bit wrap: a run of exactly
//! 65536 mutations between two diffs, or 65536 wrappers minted from one
//! counter, would go unseen.

use vstd::prelude::*;

verus! {

use crate::diff::{Diff, Fence};
use crate::Render;

/// One step of a wrapping 16-bit counter.
pub open spec fn wrap_inc(c: u16) -> u16 {
    if c == 0xffff {
        0u16
    } else {
        (c + 1) as u16
    }
}

/// The tag `t` advanced by `k` mutable accesses.
pub open spec fn bumped(t: VerTag, k: nat) -> VerTag
    decreases k,
{
    if k == 0 {
        t
    } else {
        let prev = bumped(t, (k - 1) as nat);
        VerTag { hi: prev.hi, lo: wrap_inc(prev.lo) }
    }
}

/// Draw the next value from a wrapping 16-bit counter.
pub fn unique(counter: &mut u16) -> (r: u16)
    ensures
        r == *old(counter),
        *final(counter) == wrap_inc(*old(counter)),
{
    let r = *counter;
    if *counter == 0xffffu16 {
        *counter = 0;
    } else {
        *counter = *counter + 1;
    }
    r
}

/// A version tag: the high half identifies the wrapper, the low half counts
/// its mutable accesses.
#[derive(Clone, Copy, PartialEq, Eq, Structural, Debug)]
pub struct VerTag {
    pub hi: u16,
    pub lo: u16,
}

impl Diff for VerTag {
    type Memo = VerTag;

    open spec fn changes(self, memo: VerTag) -> bool {
        self != memo
    }

    open spec fn volatile(self) -> bool {
        false
    }

    fn into_memo(self) -> (m: VerTag) {
        self
    }

    fn diff(self, memo: &mut VerTag) -> (c: bool) {
        if self != *memo {
            *memo = self;
            true
        } else {
            false
        }
    }
}

/// A value wrapped with a version tag that advances on every mutable access.
pub struct Ver<T> {
    inner: T,
    tag: VerTag,
}

impl<T> Ver<T> {
    /// The wrapped value.
    pub closed spec fn inner_of(self) -> T {
        self.inner
    }

    /// The current version tag.
    pub closed spec fn tag_of(self) -> VerTag {
        self.tag
    }

    /// Wrap `value`, identified by the next draw from `src`, with its
    /// mutation count at zero.
    pub fn new(value: T, src: &mut u16) -> (v: Ver<T>)
        ensures
            v.inner_of() == value,
            v.tag_of() == (VerTag { hi: *old(src), lo: 0u16 }),
            *final(src) == wrap_inc(*old(src)),
    {
        let hi = unique(src);
        Ver { inner: value, tag: VerTag { hi, lo: 0 } }
    }

    /// Gate `view` behind this wrapper's current version tag: the subtree is
    /// only updated on passes where the tag has moved.
    pub fn fence<V: Render>(&self, view: V) -> (f: Fence<VerTag, V>)
        ensures
            f.guard_of() == self.tag_of(),
            f.inner_of() == view,
    {
        Fence { guard: self.tag, inner: view }
    }

    /// Unwrap the value.
    pub fn into_inner(self) -> (t: T)
        ensures
            t == self.inner_of(),
    {
        self.inner
    }

    /// Read the value. Shared access leaves the tag alone.
    pub fn get(&self) -> (t: &T)
        ensures
            t == self.inner_of(),
    {
        &self.inner
    }

    /// Mutable access to the value; the tag's low half advances by one.
    pub fn get_mut(&mut self) -> (t: &mut T)
        ensures
            *t == old(self).inner_of(),
            final(self).inner_of() == *final(t),
            final(self).tag_of() == bumped(old(self).tag_of(), 1),
    {
        proof {
            assert(bumped(old(self).tag_of(), 1) == (VerTag {
                hi: old(self).tag_of().hi,
                lo: wrap_inc(old(self).tag_of().lo),
            })) by {
                reveal_with_fuel(bumped, 2);
            }
        }
        if self.tag.lo == 0xffffu16 {
            self.tag.lo = 0;
        } else {
            self.tag.lo = self.tag.lo + 1;
        }
        &mut self.inner
    }
}

impl<'a, T> Diff for &'a Ver<T> {
    type Memo = VerTag;

    open spec fn changes(self, memo: VerTag) -> bool {
        self.tag_of() != memo
    }

    open spec fn volatile(self) -> bool {
        false
    }

    fn into_memo(self) -> (m: VerTag) {
        self.tag
    }

    fn diff(self, memo: &mut VerTag) -> (c: bool) {
        if self.tag != *memo {
            *memo = self.tag;
            true
        } else {
            false
        }
    }
}

/// The low half of an advanced tag is the old low half plus the number of
/// accesses, modulo the 16-bit wrap; the high half never moves.
pub proof fn lemma_bumped_parts(t: VerTag, k: nat)
    ensures
        bumped(t, k).hi == t.hi,
        bumped(t, k).lo == (t.lo + k) % 0x10000,
    decreases k,
{
    if k > 0 {
        lemma_bumped_parts(t, (k - 1) as nat);
    }
}

/// Version diffing is monotone over mutable access: a tag that has advanced
/// by at least one and fewer than 65536 accesses since some earlier moment
/// differs from every tag it went through before that, so diffing it against
/// any memo captured earlier reports a change. The wrap of the low half is
/// the one bound: after exactly 65536 accesses a tag repeats.
pub proof fn lemma_ver_monotonic(t: VerTag, j: nat, k: nat)
    requires
        j < k,
        k - j < 0x10000,
    ensures
        bumped(t, k) != bumped(t, j),
        (bumped(t, k)).changes(bumped(t, j)),
{
    lemma_bumped_parts(t, j);
    lemma_bumped_parts(t, k);
    let m = 0x10000;
    let a = t.lo + j;
    let d = k - j;
    assert(t.lo + k == a + d);
    assert((a + d) % m != a % m) by {
        if (a + d) % m == a % m {
            vstd::arithmetic::div_mod::lemma_mod_equivalence(a + d, a, m);
            assert((a + d - a) % m == 0);
            assert(d % m == 0);
            vstd::arithmetic::div_mod::lemma_small_mod(d as nat, m as nat);
            assert(false);
        }
    }
}

} // verus!
