//! Reaching the node that owns the bindable state.

use vstd::prelude::*;

verus! {

/// Says that a node wraps another node that may have state to bind, or is such a
/// node itself. A binding host uses it to reach through wrappers to the node that
/// its bindings control.
///
/// A node that expects to be bound returns itself. A node that only wraps another
/// one passes the call on to it. The reach ends at the first node that returns
/// itself, even where a node further in would want to be reached too; this covers
/// the common case of binding a node that has already been wrapped.
pub trait BindableAccess: Sized {
    /// The type of the node that is reached.
    type Wrapped;

    /// The node that is reached.
    spec fn reached(self) -> Self::Wrapped;

    /// Shared access to the node that is reached.
    fn bindable(&self) -> (wrapped: &Self::Wrapped)
        ensures
            *wrapped == self.reached(),
    ;

    /// Exclusive access to the node that is reached: whatever the caller leaves
    /// behind the reference is what is reached afterwards.
    fn bindable_mut(&mut self) -> (wrapped: &mut Self::Wrapped)
        ensures
            *wrapped == old(self).reached(),
            final(self).reached() == *final(wrapped),
    ;
}

} // verus!
