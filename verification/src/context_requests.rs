//! Markers that say which invalidations must follow a write to a node.

use crate::context::{Requests, UpdateCtx};
use vstd::prelude::*;

verus! {

/// A marker type that stands for a set of invalidations. A property names one as
/// its `Requests`; after the property was written, `notify` asks the tree for them.
pub trait ContextRequests {
    /// The invalidations that this marker stands for.
    spec fn asked() -> Requests;

    /// Asks the tree for the invalidations that this marker stands for.
    fn notify(ctx: &mut UpdateCtx)
        ensures
            UpdateCtx::requested(*old(ctx), *final(ctx), Self::asked()),
    ;
}

/// The marker of a property whose writes call for nothing, such as one that is
/// never written at all.
impl ContextRequests for () {
    open spec fn asked() -> Requests {
        Requests::none()
    }

    fn notify(ctx: &mut UpdateCtx) {
    }
}

/// The node must be measured and placed again.
pub struct Layout;

impl ContextRequests for Layout {
    open spec fn asked() -> Requests {
        Requests { layout: true, paint: false, anim_frame: false }
    }

    fn notify(ctx: &mut UpdateCtx) {
        ctx.request_layout();
    }
}

/// The node must be drawn again.
pub struct Paint;

impl ContextRequests for Paint {
    open spec fn asked() -> Requests {
        Requests { layout: false, paint: true, anim_frame: false }
    }

    fn notify(ctx: &mut UpdateCtx) {
        ctx.request_paint();
    }
}

/// The node wants an animation frame.
pub struct AnimFrame;

impl ContextRequests for AnimFrame {
    open spec fn asked() -> Requests {
        Requests { layout: false, paint: false, anim_frame: true }
    }

    fn notify(ctx: &mut UpdateCtx) {
        ctx.request_anim_frame();
    }
}

/// Two markers together ask for what either asks for.
impl<T1: ContextRequests, T2: ContextRequests> ContextRequests for (T1, T2) {
    open spec fn asked() -> Requests {
        T1::asked().union(T2::asked())
    }

    fn notify(ctx: &mut UpdateCtx) {
        T1::notify(ctx);
        T2::notify(ctx);
    }
}

/// Three markers together ask for what any of them asks for.
impl<T1: ContextRequests, T2: ContextRequests, T3: ContextRequests> ContextRequests for (
    T1,
    T2,
    T3,
) {
    open spec fn asked() -> Requests {
        T1::asked().union(T2::asked()).union(T3::asked())
    }

    fn notify(ctx: &mut UpdateCtx) {
        T1::notify(ctx);
        T2::notify(ctx);
        T3::notify(ctx);
    }
}

/// Markers compose associatively: however three of them are grouped, together they
/// ask for the same invalidations. The unit marker adds nothing to another.
pub proof fn requests_compose_associatively<
    T1: ContextRequests,
    T2: ContextRequests,
    T3: ContextRequests,
>()
    ensures
        <((T1, T2), T3)>::asked() == <(T1, (T2, T3))>::asked(),
        <((T1, T2), T3)>::asked() == <(T1, T2, T3)>::asked(),
        <((), T1)>::asked() == T1::asked(),
        <(T1, ())>::asked() == T1::asked(),
{
}

} // verus!
