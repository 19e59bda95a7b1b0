//! The host that keeps a node and the data in step.

use crate::bindable_access::BindableAccess;
use crate::binding::Binding;
use crate::context::{
    Command, CommandCtx, Event, EventCtx, LifeCycle, LifeCycleCtx, Selector, UpdateCtx, WidgetId,
};
use crate::data::Data;
use vstd::prelude::*;

verus! {

/// How far a host has come. It only ever moves forward: from `New` to `Init` to
/// `TwoWay`, where it stays.
#[derive(Clone, Copy, PartialEq, Eq, Structural, Debug)]
pub enum BindingHostState {
    /// Just made, and not yet attached to the tree. What the node holds means
    /// nothing yet, so nothing is read from it.
    New,
    /// Attached, and waiting for the update pass in which the node is seeded from
    /// the data. Still nothing is read from the node.
    Init,
    /// Seeded. From here on the host carries changes both ways.
    TwoWay,
}

/// What a host is, as far as its behaviour goes: its state, the change it is
/// holding, the identifier it was given, the node its bindings control and the
/// bindings themselves.
#[verifier::reject_recursive_types(T)]
#[verifier::reject_recursive_types(Controlled)]
pub struct HostView<T, Controlled, B: Binding<T, Controlled>> {
    pub state: BindingHostState,
    pub pending_change: Option<B::Change>,
    pub widget_id: Option<WidgetId>,
    pub controlled: Controlled,
    pub binding: B,
}

impl<T, Controlled, B: Binding<T, Controlled>> HostView<T, Controlled, B> {
    /// What holds of every host: it knows its identifier exactly when it has left
    /// `New`, and it holds no change unless it has reached `TwoWay`.
    pub open spec fn wf(self) -> bool {
        &&& self.state is New <==> self.widget_id is None
        &&& self.state !is TwoWay ==> self.pending_change is None
    }

    /// The host after a lifecycle notification. Being attached takes a host from
    /// `New` to `Init`, and tells it its identifier. A host in `TwoWay` stays
    /// there.
    pub open spec fn notified(self, event: LifeCycle, id: WidgetId) -> Self {
        match event {
            LifeCycle::WidgetAdded => HostView {
                state: if self.state is TwoWay {
                    BindingHostState::TwoWay
                } else {
                    BindingHostState::Init
                },
                widget_id: Some(id),
                ..self
            },
            LifeCycle::Other => self,
        }
    }

    /// Whether a lifecycle notification makes the host ask for its first update
    /// pass.
    pub open spec fn asks_for_init(self, event: LifeCycle) -> bool {
        event is WidgetAdded && self.state !is TwoWay
    }

    /// Whether the host hands an event on to the node it wraps. It keeps to
    /// itself its own marker messages: the one that asks for the first update
    /// while it waits for it, and the one that asks for an event pass once it is
    /// in `TwoWay`.
    pub open spec fn forwards(self, event: Event) -> bool {
        match self.state {
            BindingHostState::New => true,
            BindingHostState::Init => event != Event::Command(Selector::InitBindings),
            BindingHostState::TwoWay => event != Event::Command(Selector::ApplyBindings),
        }
    }

    /// The host after the change it was holding has been taken from it.
    pub open spec fn drained(self) -> Self {
        HostView { pending_change: None, ..self }
    }

    /// The data after the change that the host is holding has been applied to
    /// it.
    pub open spec fn drained_into(self, data: T) -> T {
        match self.pending_change {
            Some(change) => self.binding.consumed(self.controlled, data, change),
            None => data,
        }
    }

    /// The host at the start of an event pass, before the event goes to the node:
    /// in `TwoWay` it has given up its change, before that it is as it was.
    pub open spec fn before_event(self) -> Self {
        if self.state is TwoWay {
            self.drained()
        } else {
            self
        }
    }

    /// The data at the start of an event pass, before the event goes to the node:
    /// in `TwoWay` the held change has been applied to it, before that it is
    /// untouched.
    pub open spec fn data_before_event(self, data: T) -> T {
        if self.state is TwoWay {
            self.drained_into(data)
        } else {
            data
        }
    }

    /// The host after it has looked at its node for changes. Only a host in
    /// `TwoWay` looks.
    pub open spec fn checked(self, data: T) -> Self {
        if self.state is TwoWay {
            HostView {
                pending_change: self.binding.appended(self.controlled, data, self.pending_change),
                ..self
            }
        } else {
            self
        }
    }

    /// Whether the host holds a change that waits for an event pass.
    pub open spec fn wakes(self) -> bool {
        self.state is TwoWay && self.pending_change is Some
    }
}

impl<T, Controlled, B: Binding<T, Controlled>> HostView<T, Controlled, B> {
    /// Whether an update pass writes the data to the node, given whether the data
    /// changed: never in `New`, always on the way from `Init` to `TwoWay`, and in
    /// `TwoWay` when the data changed.
    pub open spec fn applies_when(self, changed: bool) -> bool {
        match self.state {
            BindingHostState::New => false,
            BindingHostState::Init => true,
            BindingHostState::TwoWay => changed,
        }
    }

    /// The host at the start of an update pass, before the pass goes to the
    /// node, given whether the data changed.
    pub open spec fn updated_when(self, changed: bool, data: T) -> Self {
        HostView {
            state: if self.state is Init {
                BindingHostState::TwoWay
            } else {
                self.state
            },
            controlled: if self.applies_when(changed) {
                self.binding.applied(data, self.controlled)
            } else {
                self.controlled
            },
            ..self
        }
    }
}

impl<T: Data, Controlled, B: Binding<T, Controlled>> HostView<T, Controlled, B> {
    /// Whether an update pass writes the data to the node. The data changed when
    /// it is not the same as before.
    pub open spec fn applies(self, old_data: T, data: T) -> bool {
        self.applies_when(!old_data.same_spec(data))
    }

    /// The host at the start of an update pass, before the pass goes to the
    /// node.
    pub open spec fn updated(self, old_data: T, data: T) -> Self {
        self.updated_when(!old_data.same_spec(data), data)
    }
}

/// Wraps a node, and binds the data at this place in the tree to properties of the
/// node reached through it.
///
/// The tree is not part of this crate, so the host does not call the node it wraps.
/// For each phase the caller calls the host, hands the phase call to the wrapped
/// node (`contained_mut`) unless the host kept the event to itself, and then lets
/// the host look for changes (`check_for_changes2`). Painting is handed to the
/// wrapped node alone.
#[verifier::reject_recursive_types(T)]
#[verifier::reject_recursive_types(Controlled)]
pub struct BindingHost<
    T,
    Contained: BindableAccess<Wrapped = Controlled>,
    Controlled,
    B: Binding<T, Controlled>,
> {
    contained: Contained,
    binding: B,
    stage: Stage<B::Change>,
}

/// The state of a host together with what it can only have in that state: an
/// identifier once it is attached, and a change to hold once it is seeded.
enum Stage<Change> {
    New,
    Init { widget_id: WidgetId },
    TwoWay { widget_id: WidgetId, pending_change: Option<Change> },
}

impl<
    T,
    Contained: BindableAccess<Wrapped = Controlled>,
    Controlled,
    B: Binding<T, Controlled>,
> View for BindingHost<T, Contained, Controlled, B> {
    type V = HostView<T, Controlled, B>;

    closed spec fn view(&self) -> HostView<T, Controlled, B> {
        HostView {
            state: match self.stage {
                Stage::New => BindingHostState::New,
                Stage::Init { .. } => BindingHostState::Init,
                Stage::TwoWay { .. } => BindingHostState::TwoWay,
            },
            pending_change: match self.stage {
                Stage::TwoWay { pending_change, .. } => pending_change,
                _ => None,
            },
            widget_id: match self.stage {
                Stage::New => None,
                Stage::Init { widget_id } => Some(widget_id),
                Stage::TwoWay { widget_id, .. } => Some(widget_id),
            },
            controlled: self.contained.reached(),
            binding: self.binding,
        }
    }
}

impl<
    T,
    Contained: BindableAccess<Wrapped = Controlled>,
    Controlled,
    B: Binding<T, Controlled>,
> BindingHost<T, Contained, Controlled, B> {
    /// The wrapped node.
    pub closed spec fn wrapped(&self) -> Contained {
        self.contained
    }

    /// What must hold of a host holds of every host, and the node that its
    /// bindings control is the one reached through the wrapped node.
    pub proof fn view_is_well_formed(&self)
        ensures
            self@.wf(),
            self@.controlled == self.wrapped().reached(),
    {
    }

    /// Creates a binding host from a node and a binding.
    pub fn new(contained: Contained, binding: B) -> (host: Self)
        ensures
            host.wrapped() == contained,
            host@ == (HostView::<T, Controlled, B> {
                state: BindingHostState::New,
                pending_change: None,
                widget_id: None,
                controlled: contained.reached(),
                binding,
            }),
    {
        BindingHost { contained, binding, stage: Stage::New }
    }

    /// Adds another binding; useful to chain several. The host starts anew.
    pub fn binding<BOther: Binding<T, Controlled>>(self, binding: BOther) -> (host: BindingHost<
        T,
        Contained,
        Controlled,
        (B, BOther),
    >)
        ensures
            host.wrapped() == self.wrapped(),
            host@ == (HostView::<T, Controlled, (B, BOther)> {
                state: BindingHostState::New,
                pending_change: None,
                widget_id: None,
                controlled: self@.controlled,
                binding: (self@.binding, binding),
            }),
    {
        BindingHost::new(self.contained, (self.binding, binding))
    }

    /// How far the host has come.
    pub fn state(&self) -> (state: BindingHostState)
        ensures
            state == self@.state,
    {
        match self.stage {
            Stage::New => BindingHostState::New,
            Stage::Init { .. } => BindingHostState::Init,
            Stage::TwoWay { .. } => BindingHostState::TwoWay,
        }
    }

    /// The wrapped node, to hand a phase call to it.
    pub fn contained(&self) -> (contained: &Contained)
        ensures
            *contained == self.wrapped(),
    {
        &self.contained
    }

    /// The wrapped node, to hand a phase call to it. Whatever the call does to the
    /// node, the rest of the host stays as it is.
    pub fn contained_mut(&mut self) -> (contained: &mut Contained)
        ensures
            *contained == old(self).wrapped(),
            final(self).wrapped() == *final(contained),
            final(self)@ == (HostView::<T, Controlled, B> {
                controlled: final(contained).reached(),
                ..old(self)@
            }),
    {
        &mut self.contained
    }

    /// Applies the held change, if there is one, to the data, and holds nothing
    /// afterwards.
    fn apply_pending_changes(&mut self, data: &mut T)
        ensures
            final(self).wrapped() == old(self).wrapped(),
            final(self)@ == old(self)@.drained(),
            *final(data) == old(self)@.drained_into(*old(data)),
    {
        if let Stage::TwoWay { pending_change, .. } = &mut self.stage {
            if let Some(change) = pending_change.take() {
                self.binding.apply_change_to_data(self.contained.bindable(), data, change)
            }
        }
    }

    /// Looks at the node for changes, and queues a wake-up for this node where
    /// there is one to apply. To be called at the end of every phase but
    /// painting, once the wrapped node has had its call.
    pub fn check_for_changes2<C: CommandCtx>(&mut self, data: &T, ctx: &mut C)
        ensures
            final(self).wrapped() == old(self).wrapped(),
            final(self)@ == old(self)@.checked(*data),
            final(self)@.wakes() ==> C::submits(
                *old(ctx),
                *final(ctx),
                Command { selector: Selector::ApplyBindings, target: old(ctx).id() },
            ),
            !final(self)@.wakes() ==> *final(ctx) == *old(ctx),
    {
        if let Stage::TwoWay { pending_change, .. } = &mut self.stage {
            self.binding.append_change_required(self.contained.bindable(), data, pending_change);
            if pending_change.is_some() {
                let id = ctx.widget_id();
                ctx.submit_command(Selector::ApplyBindings.to(id));
            }
        }
    }

    /// Looks at the node for changes, and returns the wake-up to send to this
    /// node where there is a change to apply. Does what `check_for_changes2`
    /// does, for a caller that has no context at hand: the wake-up is addressed to
    /// the identifier that the host was given when it was attached.
    pub fn check_for_changes(&mut self, data: &T) -> (wake: Option<Command>)
        ensures
            final(self).wrapped() == old(self).wrapped(),
            final(self)@ == old(self)@.checked(*data),
            final(self)@.wakes() ==> old(self)@.widget_id is Some && wake == Some(
                Command { selector: Selector::ApplyBindings, target: old(self)@.widget_id->0 },
            ),
            !final(self)@.wakes() ==> wake is None,
    {
        if let Stage::TwoWay { widget_id, pending_change } = &mut self.stage {
            self.binding.append_change_required(self.contained.bindable(), data, pending_change);
            if pending_change.is_some() {
                return Some(Selector::ApplyBindings.to(*widget_id));
            }
        }
        None
    }

    /// The start of an event pass, the one phase in which the data may be
    /// written. Returns whether the event is to be handed on to the wrapped node.
    ///
    /// In `TwoWay` the change held from the pass before is applied to the data
    /// first, so that whoever sees the data next sees it up to date.
    pub fn event(&mut self, ctx: &mut EventCtx, event: &Event, data: &mut T) -> (forward: bool)
        ensures
            forward == old(self)@.forwards(*event),
            final(self).wrapped() == old(self).wrapped(),
            final(self)@ == old(self)@.before_event(),
            *final(data) == old(self)@.data_before_event(*old(data)),
            final(ctx).widget_id == old(ctx).widget_id,
            final(ctx).commands == old(ctx).commands,
            final(ctx).is_handled == (old(ctx).is_handled || !forward),
            final(ctx).update_requested == (old(ctx).update_requested
                || (!forward && old(self)@.state is Init)),
    {
        match self.state() {
            BindingHostState::New => {
                // Just made: nothing is to be read from the node.
                true
            },
            BindingHostState::Init => {
                // The update pass cannot be asked for from a lifecycle
                // notification, so the host asked for this message, and asks for
                // the pass now. Still nothing is to be read from the node.
                match event {
                    Event::Command(Selector::InitBindings) => {
                        ctx.set_handled();
                        ctx.request_update();
                        false
                    },
                    _ => true,
                }
            },
            BindingHostState::TwoWay => {
                self.apply_pending_changes(data);
                match event {
                    Event::Command(Selector::ApplyBindings) => {
                        ctx.set_handled();
                        false
                    },
                    _ => true,
                }
            },
        }
    }

    /// The start of a lifecycle notification. On being attached the host takes
    /// note of its identifier, and, unless it is in `TwoWay` already, goes to
    /// `Init` and sends itself the message that will bring its first update
    /// pass.
    pub fn lifecycle(&mut self, ctx: &mut LifeCycleCtx, event: &LifeCycle)
        ensures
            final(self).wrapped() == old(self).wrapped(),
            final(self)@ == old(self)@.notified(*event, old(ctx).widget_id),
            old(self)@.asks_for_init(*event) ==> LifeCycleCtx::submits(
                *old(ctx),
                *final(ctx),
                Command { selector: Selector::InitBindings, target: old(ctx).widget_id },
            ),
            !old(self)@.asks_for_init(*event) ==> *final(ctx) == *old(ctx),
    {
        if let LifeCycle::WidgetAdded = event {
            let id = ctx.widget_id();
            match &mut self.stage {
                Stage::TwoWay { widget_id, .. } => {
                    *widget_id = id;
                },
                _ => {
                    self.stage = Stage::Init { widget_id: id };
                    ctx.submit_command(Selector::InitBindings.to(id));
                },
            }
        }
    }

    /// The start of an update pass, for a caller that has compared the old data
    /// with the new itself and says in `changed` whether they differ. Does what
    /// `update` does.
    pub fn update_when(&mut self, ctx: &mut UpdateCtx, changed: bool, data: &T)
        ensures
            final(self)@ == old(self)@.updated_when(changed, *data),
            old(self)@.applies_when(changed) ==> UpdateCtx::requested(
                *old(ctx),
                *final(ctx),
                old(self)@.binding.asked(),
            ),
            !old(self)@.applies_when(changed) ==> *final(ctx) == *old(ctx),
            !old(self)@.applies_when(changed) ==> final(self).wrapped() == old(self).wrapped(),
    {
        let apply_to_controlled = match self.stage {
            Stage::New => false,
            Stage::Init { widget_id } => {
                self.stage = Stage::TwoWay { widget_id, pending_change: None };
                true
            },
            Stage::TwoWay { .. } => changed,
        };
        if apply_to_controlled {
            self.binding.apply_data_to_controlled(data, self.contained.bindable_mut(), ctx);
        }
    }
}

impl<
    T: Data,
    Contained: BindableAccess<Wrapped = Controlled>,
    Controlled,
    B: Binding<T, Controlled>,
> BindingHost<T, Contained, Controlled, B> {
    /// The start of an update pass. A host in `Init` goes to `TwoWay` and writes
    /// the data to its node whether or not the data changed: this is the first
    /// moment at which the two can be brought in line. A host in `TwoWay` writes
    /// the data to its node when it is not the same as before.
    pub fn update(&mut self, ctx: &mut UpdateCtx, old_data: &T, data: &T)
        ensures
            final(self)@ == old(self)@.updated(*old_data, *data),
            old(self)@.applies(*old_data, *data) ==> UpdateCtx::requested(
                *old(ctx),
                *final(ctx),
                old(self)@.binding.asked(),
            ),
            !old(self)@.applies(*old_data, *data) ==> *final(ctx) == *old(ctx),
            !old(self)@.applies(*old_data, *data) ==> final(self).wrapped() == old(self).wrapped(),
    {
        let changed = !old_data.same(data);
        self.update_when(ctx, changed, data)
    }
}

} // verus!
