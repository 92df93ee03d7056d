//! Keyword handles for expressions in view markup.
//!
//! Each function here is the library side of one markup keyword: rendering
//! an iteration as a list, bounding such a list, applying a value eagerly on
//! every pass, or freezing it after the first.

use vstd::prelude::*;

verus! {

use crate::diff::{Eager, Static};
use crate::list::{Bounded, List, Unbounded};

/// Render a pass of items as an unbounded list view.
pub fn for_view<T>(iterator: T) -> (l: List<T, Unbounded>)
    ensures
        l.pass_of() == iterator,
{
    List::new(iterator)
}

/// Render a pass of items as a list view bounded to `N` entries.
pub fn for_bounded<T, const N: usize>(iterator: T) -> (l: List<T, Bounded<N>>)
    ensures
        l.pass_of() == iterator,
{
    List::new_bounded(iterator)
}

/// Disable diffing for `value`: apply it to the host surface on every pass.
pub fn use_view<T>(value: T) -> (e: Eager<T>)
    ensures
        e.value_of() == value,
{
    Eager::new(value)
}

/// Disable diffing for `value`: apply it once at build and never update it.
pub fn static_view<T>(value: T) -> (s: Static<T>)
    ensures
        s.value_of() == value,
{
    Static::new(value)
}

} // verus!
