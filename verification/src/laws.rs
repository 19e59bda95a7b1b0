//! What holds of a binding host over the phases of its life.
//!
//! The laws are stated over `HostView`, in the functions that the contracts of
//! `BindingHost` are stated in.

use crate::accessor::{leaves_alone, reads_back, Accessor};
use crate::binding::{halves, BackwardOnly, Binding, ForwardOnly, LensPropBinding};
use crate::binding_host::HostView;
use crate::context::{Event, LifeCycle, WidgetId};
use crate::data::{same_is_reflexive, Data};
use crate::property::{
    Property, PropertyWrapper, ReadOnlyProperty, Value, ValueProperty, WriteOnlyProperty,
};
use vstd::prelude::*;

verus! {

/// One phase call, as a host sees it.
pub enum Phase {
    Event(Event),
    LifeCycle(LifeCycle, WidgetId),
    Update,
    Layout,
    Paint,
}

/// The host and the data after one whole phase call during which nothing happens
/// of itself: the data comes in as it was before, and the wrapped node leaves
/// both the data and the controlled node alone. The host does its part at the
/// start of the call and looks for changes at its end.
pub open spec fn quiet_phase<T: Data, Controlled, B: Binding<T, Controlled>>(
    host: HostView<T, Controlled, B>,
    data: T,
    phase: Phase,
) -> (HostView<T, Controlled, B>, T) {
    match phase {
        Phase::Event(event) => {
            let data = host.data_before_event(data);
            (host.before_event().checked(data), data)
        },
        Phase::LifeCycle(event, id) => (host.notified(event, id).checked(data), data),
        Phase::Update => (host.updated(data, data).checked(data), data),
        Phase::Layout => (host.checked(data), data),
        Phase::Paint => (host, data),
    }
}

/// The host and the data after a sequence of such phase calls.
pub open spec fn quiet_run<T: Data, Controlled, B: Binding<T, Controlled>>(
    host: HostView<T, Controlled, B>,
    data: T,
    phases: Seq<Phase>,
) -> (HostView<T, Controlled, B>, T)
    decreases phases.len(),
{
    if phases.len() == 0 {
        (host, data)
    } else {
        let before = quiet_run(host, data, phases.drop_last());
        quiet_phase(before.0, before.1, phases.last())
    }
}

/// Whether the binding finds the node and the data in step: looking at the node
/// yields no change.
pub open spec fn in_step<T, Controlled, B: Binding<T, Controlled>>(
    binding: B,
    controlled: Controlled,
    data: T,
) -> bool {
    binding.appended(controlled, data, None) is None
}

/// Whether writing to a node a value that is the same as the one it holds leaves
/// the node as it is.
pub open spec fn idle_when_same<P: ValueProperty>(property: P) -> bool {
    forall|controlled: P::Controlled, value: P::Value|
        property.value_of(controlled).same_spec(value) ==> #[trigger] property.written(
            controlled,
            value,
        ) == controlled
}

/// Whether a node holds a value once it has been written to it.
pub open spec fn holds_what_is_written<P: ValueProperty>(property: P) -> bool {
    forall|controlled: P::Controlled, value: P::Value| #[trigger]
        property.value_of(property.written(controlled, value)) == value
}

/// What must hold of a host is kept by every step that a host takes.
pub proof fn steps_keep_well_formed<T: Data, Controlled, B: Binding<T, Controlled>>(
    host: HostView<T, Controlled, B>,
    old_data: T,
    data: T,
    event: LifeCycle,
    id: WidgetId,
)
    requires
        host.wf(),
    ensures
        host.notified(event, id).wf(),
        host.before_event().wf(),
        host.checked(data).wf(),
        host.updated(old_data, data).wf(),
{
}

/// A host never goes back: whatever step it takes, it stays in its state or moves
/// on towards `TwoWay`, and once there it stays.
pub proof fn states_only_advance<T: Data, Controlled, B: Binding<T, Controlled>>(
    host: HostView<T, Controlled, B>,
    old_data: T,
    data: T,
    event: LifeCycle,
    id: WidgetId,
)
    ensures
        host.before_event().state == host.state,
        host.checked(data).state == host.state,
        host.state is New ==> host.notified(event, id).state !is TwoWay,
        host.state is Init ==> host.notified(event, id).state is Init,
        host.state is TwoWay ==> host.notified(event, id).state is TwoWay,
        host.state is New ==> host.updated(old_data, data).state is New,
        host.state !is New ==> host.updated(old_data, data).state is TwoWay,
{
}

/// One application for each change found. Once an event pass has begun, the host
/// holds nothing: whatever it held went to the data then, and cannot go there a
/// second time. Until the host has looked at its node again, another event pass
/// leaves the data as it is.
pub proof fn a_change_is_applied_once<T, Controlled, B: Binding<T, Controlled>>(
    host: HostView<T, Controlled, B>,
    data: T,
)
    requires
        host.wf(),
    ensures
        host.before_event().pending_change is None,
        host.before_event().data_before_event(data) == data,
        host.before_event().before_event() == host.before_event(),
{
}

/// No feedback write. Take a host in `TwoWay` that holds no change and whose
/// binding finds the node and the data in step. Through any sequence of phase
/// calls during which neither the node nor the data changes of itself, the node
/// is never written again, the data is never written, and no change is ever
/// produced: after every such sequence the host holds none.
pub proof fn no_feedback_write<T: Data, Controlled, B: Binding<T, Controlled>>(
    host: HostView<T, Controlled, B>,
    data: T,
    phases: Seq<Phase>,
)
    requires
        host.state is TwoWay,
        host.pending_change is None,
        in_step(host.binding, host.controlled, data),
        data.same_spec(data),
    ensures
        quiet_run(host, data, phases).1 == data,
        quiet_run(host, data, phases).0.controlled == host.controlled,
        quiet_run(host, data, phases).0.binding == host.binding,
        quiet_run(host, data, phases).0.state is TwoWay,
        quiet_run(host, data, phases).0.pending_change is None,
        !quiet_run(host, data, phases).0.wakes(),
    decreases phases.len(),
{
    if phases.len() > 0 {
        no_feedback_write(host, data, phases.drop_last());
    }
}

/// No feedback write, from the first update on. Take a host in `Init`, and let its
/// binding find the node in step with the data once the data has been written to
/// it. The update pass that seeds the node writes it once. Through any sequence
/// of phase calls after that, during which neither the node nor the data changes
/// of itself, the node stays as it was seeded, the data stays as it is, and no
/// change is ever produced.
pub proof fn no_feedback_write_after_seeding<T: Data, Controlled, B: Binding<T, Controlled>>(
    host: HostView<T, Controlled, B>,
    data: T,
    phases: Seq<Phase>,
)
    requires
        host.wf(),
        host.state is Init,
        in_step(host.binding, host.binding.applied(data, host.controlled), data),
        data.same_spec(data),
    ensures
        ({
            let seeded = quiet_phase(host, data, Phase::Update);
            let after = quiet_run(seeded.0, seeded.1, phases);
            &&& seeded.0.controlled == host.binding.applied(data, host.controlled)
            &&& seeded.1 == data
            &&& after.1 == data
            &&& after.0.controlled == host.binding.applied(data, host.controlled)
            &&& after.0.state is TwoWay
            &&& after.0.pending_change is None
        }),
{
    let seeded = quiet_phase(host, data, Phase::Update);
    no_feedback_write(seeded.0, seeded.1, phases);
}

/// Seed on transition. The update pass that takes a host from `Init` to `TwoWay`
/// writes the data to the node, whether or not the data changed and whatever the
/// node held before: the node then is what the binding makes of it from the data.
pub proof fn seed_on_transition<T: Data, Controlled, B: Binding<T, Controlled>>(
    host: HostView<T, Controlled, B>,
    old_data: T,
    data: T,
)
    requires
        host.state is Init,
    ensures
        host.applies(old_data, data),
        host.updated(old_data, data).state is TwoWay,
        host.updated(old_data, data).controlled == host.binding.applied(data, host.controlled),
{
}

/// Seed on transition, for one field bound to one value property. Where the
/// node holds what is written to it, the attribute equals the field of the data
/// as soon as the host has entered `TwoWay`.
pub proof fn seeded_attribute_is_the_field<
    T: Data,
    Controlled,
    V: Data,
    L: Accessor<T, V>,
    P: ValueProperty<Controlled = Controlled, Value = V>,
>(
    host: HostView<T, Controlled, LensPropBinding<T, Controlled, V, L, PropertyWrapper<Value, P>>>,
    old_data: T,
    data: T,
)
    requires
        host.state is Init,
        holds_what_is_written(host.binding.prop().inner()),
    ensures
        host.updated(old_data, data).state is TwoWay,
        host.binding.prop().inner().value_of(host.updated(old_data, data).controlled)
            == host.binding.lens().get_spec(data),
{
}

/// Round trip. Let the node of a host in `TwoWay` hold the value `x`, however it
/// came by it. The host looks at the node at the end of the phase, and applies
/// what it found at the start of the next event pass. The field of the data then
/// is `x`: `x` itself where the field was not the same as `x` before, and
/// untouched where it was. Nothing is left to apply after that. Writing that
/// data back writes `x`, and changes nothing about a node for which writing what
/// it holds changes nothing.
pub proof fn round_trip<
    T: Data,
    Controlled,
    V: Data,
    L: Accessor<T, V>,
    P: ValueProperty<Controlled = Controlled, Value = V>,
>(
    host: HostView<T, Controlled, LensPropBinding<T, Controlled, V, L, PropertyWrapper<Value, P>>>,
    data: T,
)
    requires
        host.state is TwoWay,
        host.pending_change is None,
        reads_back::<T, V, L>(host.binding.lens()),
        same_is_reflexive::<V>(),
    ensures
        ({
            let lens = host.binding.lens();
            let property = host.binding.prop().inner();
            let x = property.value_of(host.controlled);
            let found = host.checked(data);
            let next_data = found.data_before_event(data);
            let next = found.before_event();
            &&& found.wakes() == !x.same_spec(lens.get_spec(data))
            &&& next.controlled == host.controlled
            &&& x.same_spec(lens.get_spec(next_data))
            &&& !x.same_spec(lens.get_spec(data)) ==> lens.get_spec(next_data) == x
            &&& x.same_spec(lens.get_spec(data)) ==> next_data == data
            &&& next.pending_change is None
            &&& next.checked(next_data).pending_change is None
            &&& !x.same_spec(lens.get_spec(data)) ==> host.binding.applied(
                next_data,
                next.controlled,
            ) == property.written(host.controlled, x)
            &&& idle_when_same(property) ==> host.binding.applied(next_data, next.controlled)
                == host.controlled
        }),
{
}

/// Composite independence. Where of a pair of bindings only the first finds the
/// node out of step with the data, the change that the host holds is the first
/// binding's alone, and applying it is all that happens to the data: the second
/// binding is passed over, and the node is not touched.
pub proof fn composite_independence<
    T: Data,
    Controlled,
    B1: Binding<T, Controlled>,
    B2: Binding<T, Controlled>,
>(host: HostView<T, Controlled, (B1, B2)>, data: T)
    requires
        host.state is TwoWay,
        host.pending_change is None,
        !in_step(host.binding.0, host.controlled, data),
        in_step(host.binding.1, host.controlled, data),
    ensures
        ({
            let change = host.binding.0.appended(host.controlled, data, None);
            let found = host.checked(data);
            &&& found.pending_change == Some((change, None::<B2::Change>))
            &&& found.data_before_event(data) == host.binding.0.consumed(
                host.controlled,
                data,
                change->0,
            )
            &&& found.before_event().controlled == host.controlled
        }),
{
}

/// Composite independence, for two fields. Where the two bindings of a pair each
/// bind a field, a write to the first field leaves the second alone, and only the
/// first binding finds the node out of step, the second field of the data is
/// after the next event pass what it was before.
pub proof fn composite_independence_of_fields<
    T: Data,
    Controlled,
    V1,
    V2,
    L1: Accessor<T, V1>,
    L2: Accessor<T, V2>,
    Prop1: Property<Controlled = Controlled, Value = V1>,
    Prop2: Property<Controlled = Controlled, Value = V2>,
>(
    host: HostView<
        T,
        Controlled,
        (
            LensPropBinding<T, Controlled, V1, L1, Prop1>,
            LensPropBinding<T, Controlled, V2, L2, Prop2>,
        ),
    >,
    data: T,
)
    requires
        host.state is TwoWay,
        host.pending_change is None,
        !in_step(host.binding.0, host.controlled, data),
        in_step(host.binding.1, host.controlled, data),
        leaves_alone::<T, V1, V2, L1, L2>(host.binding.0.lens(), host.binding.1.lens()),
    ensures
        host.binding.1.lens().get_spec(host.checked(data).data_before_event(data))
            == host.binding.1.lens().get_spec(data),
        host.checked(data).before_event().controlled == host.controlled,
{
}

/// A value that is the same suppresses divergence. Where the attribute of a node
/// is the same as the value last known to the data, looking at the node adds
/// nothing to what is held, and bringing the field in line leaves the field as it
/// is.
pub proof fn same_suppresses_divergence<P: ValueProperty>(
    property: PropertyWrapper<Value, P>,
    controlled: P::Controlled,
    value: P::Value,
    change: Option<()>,
)
    requires
        property.inner().value_of(controlled).same_spec(value),
    ensures
        property.appended(controlled, value, change) == change,
        property.updated(controlled, value, ()) == value,
        property.initialised(controlled, value) == value,
{
}

/// A pair of bindings holds no change exactly when neither of the two holds one:
/// a pair of empty halves never stands for a change.
pub proof fn a_pair_is_empty_when_both_halves_are<
    T,
    Controlled,
    B1: Binding<T, Controlled>,
    B2: Binding<T, Controlled>,
>(
    pair: (B1, B2),
    controlled: Controlled,
    data: T,
    change: Option<(Option<B1::Change>, Option<B2::Change>)>,
)
    ensures
        ({
            let held = halves(change);
            let first = pair.0.appended(controlled, data, held.0);
            let second = pair.1.appended(controlled, data, held.1);
            &&& pair.appended(controlled, data, change) is None <==> first is None && second is None
            &&& pair.appended(controlled, data, change) is Some ==> pair.appended(
                controlled,
                data,
                change,
            ) == Some((first, second))
        }),
{
}

/// A binding restricted to flow from the data to the node never carries anything
/// back: it finds no change whatever the node holds, so a host in `TwoWay` that
/// holds nothing goes on holding nothing, and the next event pass leaves the data
/// as it is. The node is written as it would be without the restriction.
pub proof fn forward_only_keeps_the_data<T, Controlled, B: Binding<T, Controlled>>(
    host: HostView<T, Controlled, ForwardOnly<B>>,
    data: T,
)
    requires
        host.pending_change is None,
    ensures
        in_step(host.binding, host.controlled, data),
        host.checked(data) == host,
        !host.checked(data).wakes(),
        host.checked(data).data_before_event(data) == data,
        host.binding.applied(data, host.controlled) == host.binding.0.applied(
            data,
            host.controlled,
        ),
{
}

/// A binding restricted to flow from the node to the data never writes the node:
/// an update pass leaves the node as it is, in whatever state the host is.
/// Changes come back as they would without the restriction.
pub proof fn backward_only_keeps_the_node<T, Controlled, B: Binding<T, Controlled>>(
    host: HostView<T, Controlled, BackwardOnly<B>>,
    changed: bool,
    data: T,
)
    ensures
        host.binding.applied(data, host.controlled) == host.controlled,
        host.updated_when(changed, data).controlled == host.controlled,
        host.binding.appended(host.controlled, data, host.pending_change)
            == host.binding.0.appended(host.controlled, data, host.pending_change),
{
}

/// The same holds of a binding whose property is restricted: one over a property
/// that is only written finds no change whatever the node holds and leaves the
/// data alone, and one over a property that is only read never writes the node.
pub proof fn restricted_properties_restrict_bindings<
    T,
    Controlled,
    V,
    L: Accessor<T, V>,
    P: Property<Controlled = Controlled, Value = V>,
>(
    forward: LensPropBinding<T, Controlled, V, L, WriteOnlyProperty<P>>,
    backward: LensPropBinding<T, Controlled, V, L, ReadOnlyProperty<P>>,
    controlled: Controlled,
    data: T,
    change: Option<P::Change>,
)
    ensures
        forward.appended(controlled, data, change) == change,
        in_step(forward, controlled, data),
        backward.applied(data, controlled) == controlled,
{
}

/// No premature mutation. A host that has not reached `TwoWay` neither looks at
/// its node for changes nor writes to the data, whatever the binding would find:
/// an event pass leaves the data and the host as they are, and so does the look
/// at the end of any phase.
pub proof fn no_premature_mutation<T: Data, Controlled, B: Binding<T, Controlled>>(
    host: HostView<T, Controlled, B>,
    data: T,
)
    requires
        host.state !is TwoWay,
    ensures
        host.data_before_event(data) == data,
        host.before_event() == host,
        host.checked(data) == host,
        !host.wakes(),
{
}

} // verus!
