//! What a host and the tree say to each other during one phase call.
//!
//! The tree itself lives outside this crate. A context here is a plain record: the
//! caller makes one for a phase call, the host writes into it what it asks of the
//! tree, and the caller carries the requests out afterwards.

use vstd::prelude::*;

verus! {

/// The identifier that the tree gives a node when the node is attached.
#[derive(Clone, Copy, PartialEq, Eq, Structural, Debug)]
pub struct WidgetId(pub u64);

/// The marker messages that a binding host sends to itself.
#[derive(Clone, Copy, PartialEq, Eq, Structural, Debug)]
pub enum Selector {
    /// Sent on attach: the host wants an update pass, in which it seeds its node.
    InitBindings,
    /// Sent when the node has diverged: the host wants an event pass, the only
    /// phase in which it may write to the data.
    ApplyBindings,
}

/// A marker message together with the node it is addressed to.
#[derive(Clone, Copy, PartialEq, Eq, Structural, Debug)]
pub struct Command {
    pub selector: Selector,
    pub target: WidgetId,
}

impl Selector {
    /// The name under which the tree knows this selector.
    pub fn name(&self) -> (name: &'static str)
        ensures
            name@ == (match *self {
                Selector::InitBindings => "druid-builtin.init-bindings"@,
                Selector::ApplyBindings => "druid-builtin.apply-bindings"@,
            }),
    {
        match self {
            Selector::InitBindings => "druid-builtin.init-bindings",
            Selector::ApplyBindings => "druid-builtin.apply-bindings",
        }
    }

    /// This selector addressed to `target`.
    pub fn to(self, target: WidgetId) -> (cmd: Command)
        ensures
            cmd == (Command { selector: self, target }),
    {
        Command { selector: self, target }
    }
}

/// What a host needs to know of an event: whether it is one of its own marker
/// messages coming back.
#[derive(Clone, Copy, PartialEq, Eq, Structural, Debug)]
pub enum Event {
    Command(Selector),
    Other,
}

/// What a host needs to know of a lifecycle notification: whether it is the one
/// that tells a node it has been attached to the tree.
#[derive(Clone, Copy, PartialEq, Eq, Structural, Debug)]
pub enum LifeCycle {
    WidgetAdded,
    Other,
}

/// A context through which a node can learn its identifier and queue a command.
pub trait CommandCtx: Sized {
    /// The identifier of the node that the phase call is made on.
    spec fn id(self) -> WidgetId;

    /// Whether `post` is `pre` with `cmd` added at the end of its queue and nothing
    /// else changed.
    spec fn submits(pre: Self, post: Self, cmd: Command) -> bool;

    /// The identifier of the node that the phase call is made on.
    fn widget_id(&self) -> (id: WidgetId)
        ensures
            id == self.id(),
    ;

    /// Queues a command, to be delivered in a later event pass.
    fn submit_command(&mut self, cmd: Command)
        ensures
            Self::submits(*old(self), *final(self), cmd),
    ;
}

/// The context of the event phase, the one phase in which data may be written.
#[derive(Debug)]
pub struct EventCtx {
    pub widget_id: WidgetId,
    /// Set when the host has consumed the event, so that it travels no further.
    pub is_handled: bool,
    /// Set when the host asks for an update pass.
    pub update_requested: bool,
    /// The commands queued during this call, oldest first.
    pub commands: Vec<Command>,
}

impl EventCtx {
    /// A context for a phase call on the node `widget_id`, with nothing asked yet.
    pub fn new(widget_id: WidgetId) -> (ctx: Self)
        ensures
            ctx.widget_id == widget_id,
            !ctx.is_handled,
            !ctx.update_requested,
            ctx.commands@ == Seq::<Command>::empty(),
    {
        EventCtx { widget_id, is_handled: false, update_requested: false, commands: Vec::new() }
    }

    /// Marks the event as consumed.
    pub fn set_handled(&mut self)
        ensures
            final(self).is_handled,
            final(self).widget_id == old(self).widget_id,
            final(self).update_requested == old(self).update_requested,
            final(self).commands == old(self).commands,
    {
        self.is_handled = true;
    }

    /// Asks for an update pass.
    pub fn request_update(&mut self)
        ensures
            final(self).update_requested,
            final(self).widget_id == old(self).widget_id,
            final(self).is_handled == old(self).is_handled,
            final(self).commands == old(self).commands,
    {
        self.update_requested = true;
    }
}

impl CommandCtx for EventCtx {
    open spec fn id(self) -> WidgetId {
        self.widget_id
    }

    open spec fn submits(pre: Self, post: Self, cmd: Command) -> bool {
        &&& post.widget_id == pre.widget_id
        &&& post.is_handled == pre.is_handled
        &&& post.update_requested == pre.update_requested
        &&& post.commands@ == pre.commands@.push(cmd)
    }

    fn widget_id(&self) -> (id: WidgetId) {
        self.widget_id
    }

    fn submit_command(&mut self, cmd: Command) {
        self.commands.push(cmd);
    }
}

/// The context of a lifecycle notification.
#[derive(Debug)]
pub struct LifeCycleCtx {
    pub widget_id: WidgetId,
    /// The commands queued during this call, oldest first.
    pub commands: Vec<Command>,
}

impl LifeCycleCtx {
    /// A context for a phase call on the node `widget_id`, with nothing asked yet.
    pub fn new(widget_id: WidgetId) -> (ctx: Self)
        ensures
            ctx.widget_id == widget_id,
            ctx.commands@ == Seq::<Command>::empty(),
    {
        LifeCycleCtx { widget_id, commands: Vec::new() }
    }
}

impl CommandCtx for LifeCycleCtx {
    open spec fn id(self) -> WidgetId {
        self.widget_id
    }

    open spec fn submits(pre: Self, post: Self, cmd: Command) -> bool {
        &&& post.widget_id == pre.widget_id
        &&& post.commands@ == pre.commands@.push(cmd)
    }

    fn widget_id(&self) -> (id: WidgetId) {
        self.widget_id
    }

    fn submit_command(&mut self, cmd: Command) {
        self.commands.push(cmd);
    }
}

/// The invalidations that a node can ask of the tree after its state was written.
#[derive(Clone, Copy, PartialEq, Eq, Structural, Debug)]
pub struct Requests {
    pub layout: bool,
    pub paint: bool,
    pub anim_frame: bool,
}

impl Requests {
    /// No invalidation at all.
    pub open spec fn none() -> Requests {
        Requests { layout: false, paint: false, anim_frame: false }
    }

    /// Every invalidation that `self` or `other` holds.
    pub open spec fn union(self, other: Requests) -> Requests {
        Requests {
            layout: self.layout || other.layout,
            paint: self.paint || other.paint,
            anim_frame: self.anim_frame || other.anim_frame,
        }
    }
}

/// The context of the update phase, in which a node learns that the data changed.
#[derive(Debug)]
pub struct UpdateCtx {
    pub widget_id: WidgetId,
    /// The invalidations asked for during this call.
    pub requests: Requests,
    /// The commands queued during this call, oldest first.
    pub commands: Vec<Command>,
}

impl UpdateCtx {
    /// A context for a phase call on the node `widget_id`, with nothing asked yet.
    pub fn new(widget_id: WidgetId) -> (ctx: Self)
        ensures
            ctx.widget_id == widget_id,
            ctx.requests == Requests::none(),
            ctx.commands@ == Seq::<Command>::empty(),
    {
        UpdateCtx {
            widget_id,
            requests: Requests { layout: false, paint: false, anim_frame: false },
            commands: Vec::new(),
        }
    }

    /// Whether `post` is `pre` with `asked` added to the invalidations it already
    /// holds, and nothing else changed.
    pub open spec fn requested(pre: Self, post: Self, asked: Requests) -> bool {
        &&& post.widget_id == pre.widget_id
        &&& post.commands == pre.commands
        &&& post.requests == pre.requests.union(asked)
    }

    /// Asks for the node to be measured and placed again.
    pub fn request_layout(&mut self)
        ensures
            Self::requested(
                *old(self),
                *final(self),
                Requests { layout: true, paint: false, anim_frame: false },
            ),
    {
        self.requests.layout = true;
    }

    /// Asks for the node to be drawn again.
    pub fn request_paint(&mut self)
        ensures
            Self::requested(
                *old(self),
                *final(self),
                Requests { layout: false, paint: true, anim_frame: false },
            ),
    {
        self.requests.paint = true;
    }

    /// Asks for an animation frame.
    pub fn request_anim_frame(&mut self)
        ensures
            Self::requested(
                *old(self),
                *final(self),
                Requests { layout: false, paint: false, anim_frame: true },
            ),
    {
        self.requests.anim_frame = true;
    }
}

impl CommandCtx for UpdateCtx {
    open spec fn id(self) -> WidgetId {
        self.widget_id
    }

    open spec fn submits(pre: Self, post: Self, cmd: Command) -> bool {
        &&& post.widget_id == pre.widget_id
        &&& post.requests == pre.requests
        &&& post.commands@ == pre.commands@.push(cmd)
    }

    fn widget_id(&self) -> (id: WidgetId) {
        self.widget_id
    }

    fn submit_command(&mut self, cmd: Command) {
        self.commands.push(cmd);
    }
}

/// The context of the layout phase.
#[derive(Debug)]
pub struct LayoutCtx {
    pub widget_id: WidgetId,
    /// The commands queued during this call, oldest first.
    pub commands: Vec<Command>,
}

impl LayoutCtx {
    /// A context for a phase call on the node `widget_id`, with nothing asked yet.
    pub fn new(widget_id: WidgetId) -> (ctx: Self)
        ensures
            ctx.widget_id == widget_id,
            ctx.commands@ == Seq::<Command>::empty(),
    {
        LayoutCtx { widget_id, commands: Vec::new() }
    }
}

impl CommandCtx for LayoutCtx {
    open spec fn id(self) -> WidgetId {
        self.widget_id
    }

    open spec fn submits(pre: Self, post: Self, cmd: Command) -> bool {
        &&& post.widget_id == pre.widget_id
        &&& post.commands@ == pre.commands@.push(cmd)
    }

    fn widget_id(&self) -> (id: WidgetId) {
        self.widget_id
    }

    fn submit_command(&mut self, cmd: Command) {
        self.commands.push(cmd);
    }
}

} // verus!
