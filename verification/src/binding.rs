//! Bindings between the data and a controlled node.

use crate::accessor::Accessor;
use crate::context::{Requests, UpdateCtx};
use crate::context_requests::ContextRequests;
use crate::property::Property;
use std::marker::PhantomData;
use vstd::prelude::*;

verus! {

/// A two-way binding between some data `T` and something it controls, usually one
/// field of the data bound to one property of a node.
///
/// Each operation is a function of its arguments alone, named by a spec function.
/// There is rarely a need to implement this by hand: `LensPropBinding` binds one
/// field to one property, and a pair of bindings is a binding again.
pub trait Binding<T, Controlled> {
    /// What is gathered of the node's divergence until it can be applied to the
    /// data.
    type Change;

    /// The node after the bound value has been taken from `data` and written to
    /// it.
    spec fn applied(&self, data: T, controlled: Controlled) -> Controlled;

    /// The invalidations to ask for after the node has been written.
    spec fn asked(&self) -> Requests;

    /// The pending change after the node has been compared with `data`.
    spec fn appended(
        &self,
        controlled: Controlled,
        data: T,
        change: Option<Self::Change>,
    ) -> Option<Self::Change>;

    /// The data after `change` has been applied to it.
    spec fn consumed(&self, controlled: Controlled, data: T, change: Self::Change) -> T;

    /// The data after it has been brought in line with the node, with no change at
    /// hand.
    spec fn initialised(&self, controlled: Controlled, data: T) -> T;

    /// Takes the bound value from the data and writes it to the controlled node,
    /// then asks the tree for the invalidations that go with the write.
    fn apply_data_to_controlled(&self, data: &T, controlled: &mut Controlled, ctx: &mut UpdateCtx)
        ensures
            *final(controlled) == self.applied(*data, *old(controlled)),
            UpdateCtx::requested(*old(ctx), *final(ctx), self.asked()),
    ;

    /// Notes in `change` that the data will have to be updated, if the node has
    /// moved away from it. Can be called in any phase: the change waits until the
    /// data may be written.
    fn append_change_required(
        &self,
        controlled: &Controlled,
        data: &T,
        change: &mut Option<Self::Change>,
    )
        ensures
            *final(change) == self.appended(*controlled, *data, *old(change)),
    ;

    /// Applies a gathered change to the data.
    fn apply_change_to_data(&self, controlled: &Controlled, data: &mut T, change: Self::Change)
        ensures
            *final(data) == self.consumed(*controlled, *old(data), change),
    ;

    /// Brings the data in line with the node where there is no change to go by.
    fn initialise_data(&self, controlled: &Controlled, data: &mut T)
        ensures
            *final(data) == self.initialised(*controlled, *old(data)),
    ;
}

/// The two halves of a pair's pending change: those of a change that is there, and
/// two empty ones where none is.
pub open spec fn halves<C0, C1>(change: Option<(Option<C0>, Option<C1>)>) -> (
    Option<C0>,
    Option<C1>,
) {
    match change {
        Some(pair) => pair,
        None => (None, None),
    }
}

/// A pair of bindings is a binding. Either side may be a pair again, so any number
/// of bindings between the same data and the same node can be put together. The
/// first of the pair always goes first.
impl<T, Controlled, Bind1: Binding<T, Controlled>, Bind2: Binding<T, Controlled>> Binding<
    T,
    Controlled,
> for (Bind1, Bind2) {
    type Change = (Option<Bind1::Change>, Option<Bind2::Change>);

    /// Both are applied, whatever they hold.
    open spec fn applied(&self, data: T, controlled: Controlled) -> Controlled {
        self.1.applied(data, self.0.applied(data, controlled))
    }

    open spec fn asked(&self) -> Requests {
        self.0.asked().union(self.1.asked())
    }

    /// Each binding adds to its own half. Where both halves are empty afterwards,
    /// there is no change at all.
    open spec fn appended(
        &self,
        controlled: Controlled,
        data: T,
        change: Option<Self::Change>,
    ) -> Option<Self::Change> {
        let change0 = self.0.appended(controlled, data, halves(change).0);
        let change1 = self.1.appended(controlled, data, halves(change).1);
        if change0 is None && change1 is None {
            None
        } else {
            Some((change0, change1))
        }
    }

    /// Each binding applies its own half, and one with an empty half is passed
    /// over.
    open spec fn consumed(&self, controlled: Controlled, data: T, change: Self::Change) -> T {
        let data0 = match change.0 {
            Some(change0) => self.0.consumed(controlled, data, change0),
            None => data,
        };
        match change.1 {
            Some(change1) => self.1.consumed(controlled, data0, change1),
            None => data0,
        }
    }

    open spec fn initialised(&self, controlled: Controlled, data: T) -> T {
        self.1.initialised(controlled, self.0.initialised(controlled, data))
    }

    fn apply_data_to_controlled(&self, data: &T, controlled: &mut Controlled, ctx: &mut UpdateCtx) {
        self.0.apply_data_to_controlled(data, controlled, ctx);
        self.1.apply_data_to_controlled(data, controlled, ctx);
    }

    fn append_change_required(
        &self,
        controlled: &Controlled,
        data: &T,
        change: &mut Option<Self::Change>,
    ) {
        let (mut change0, mut change1) = match change.take() {
            Some(pair) => pair,
            None => (None, None),
        };
        self.0.append_change_required(controlled, data, &mut change0);
        self.1.append_change_required(controlled, data, &mut change1);
        if change0.is_some() || change1.is_some() {
            *change = Some((change0, change1));
        }
    }

    fn apply_change_to_data(&self, controlled: &Controlled, data: &mut T, change: Self::Change) {
        let (change0, change1) = change;

        if let Some(change0) = change0 {
            self.0.apply_change_to_data(controlled, data, change0);
        }
        if let Some(change1) = change1 {
            self.1.apply_change_to_data(controlled, data, change1);
        }
    }

    fn initialise_data(&self, controlled: &Controlled, data: &mut T) {
        self.0.initialise_data(controlled, data);
        self.1.initialise_data(controlled, data);
    }
}

/// A binding restricted to flow from the data to the node: the node is written as
/// before, and nothing ever comes back from it.
pub struct ForwardOnly<B>(pub B);

impl<T, Controlled, B: Binding<T, Controlled>> Binding<T, Controlled> for ForwardOnly<B> {
    type Change = B::Change;

    open spec fn applied(&self, data: T, controlled: Controlled) -> Controlled {
        self.0.applied(data, controlled)
    }

    open spec fn asked(&self) -> Requests {
        self.0.asked()
    }

    open spec fn appended(
        &self,
        controlled: Controlled,
        data: T,
        change: Option<Self::Change>,
    ) -> Option<Self::Change> {
        change
    }

    open spec fn consumed(&self, controlled: Controlled, data: T, change: Self::Change) -> T {
        data
    }

    open spec fn initialised(&self, controlled: Controlled, data: T) -> T {
        data
    }

    fn apply_data_to_controlled(&self, data: &T, controlled: &mut Controlled, ctx: &mut UpdateCtx) {
        self.0.apply_data_to_controlled(data, controlled, ctx);
    }

    fn append_change_required(
        &self,
        controlled: &Controlled,
        data: &T,
        change: &mut Option<Self::Change>,
    ) {
    }

    fn apply_change_to_data(&self, controlled: &Controlled, data: &mut T, change: Self::Change) {
    }

    fn initialise_data(&self, controlled: &Controlled, data: &mut T) {
    }
}

/// A binding restricted to flow from the node to the data: changes come back from
/// the node as before, and the node is never written.
pub struct BackwardOnly<B>(pub B);

impl<T, Controlled, B: Binding<T, Controlled>> Binding<T, Controlled> for BackwardOnly<B> {
    type Change = B::Change;

    open spec fn applied(&self, data: T, controlled: Controlled) -> Controlled {
        controlled
    }

    open spec fn asked(&self) -> Requests {
        Requests::none()
    }

    open spec fn appended(
        &self,
        controlled: Controlled,
        data: T,
        change: Option<Self::Change>,
    ) -> Option<Self::Change> {
        self.0.appended(controlled, data, change)
    }

    open spec fn consumed(&self, controlled: Controlled, data: T, change: Self::Change) -> T {
        self.0.consumed(controlled, data, change)
    }

    open spec fn initialised(&self, controlled: Controlled, data: T) -> T {
        self.0.initialised(controlled, data)
    }

    fn apply_data_to_controlled(&self, data: &T, controlled: &mut Controlled, ctx: &mut UpdateCtx) {
    }

    fn append_change_required(
        &self,
        controlled: &Controlled,
        data: &T,
        change: &mut Option<Self::Change>,
    ) {
        self.0.append_change_required(controlled, data, change);
    }

    fn apply_change_to_data(&self, controlled: &Controlled, data: &mut T, change: Self::Change) {
        self.0.apply_change_to_data(controlled, data, change);
    }

    fn initialise_data(&self, controlled: &Controlled, data: &mut T) {
        self.0.initialise_data(controlled, data);
    }
}

/// Binds a field of the data `T`, reached through the accessor `LT`, to the
/// property `PropC` of a controlled node.
#[verifier::reject_recursive_types(T)]
#[verifier::reject_recursive_types(Controlled)]
#[verifier::reject_recursive_types(PropValue)]
pub struct LensPropBinding<
    T,
    Controlled,
    PropValue,
    LT: Accessor<T, PropValue>,
    PropC: Property<Controlled = Controlled, Value = PropValue>,
> {
    lens_from_data: LT,
    prop_from_controlled: PropC,
    phantom_t: PhantomData<T>,
    phantom_c: PhantomData<Controlled>,
    phantom_p: PhantomData<PropValue>,
}

impl<
    T,
    Controlled,
    PropValue,
    LT: Accessor<T, PropValue>,
    PropC: Property<Controlled = Controlled, Value = PropValue>,
> LensPropBinding<T, Controlled, PropValue, LT, PropC> {
    /// The accessor that reaches the bound field.
    pub closed spec fn lens(&self) -> LT {
        self.lens_from_data
    }

    /// The bound property.
    pub closed spec fn prop(&self) -> PropC {
        self.prop_from_controlled
    }

    /// Creates a binding between a field of the data and a property of a
    /// controlled node.
    pub fn new(lens_from_data: LT, prop_from_controlled: PropC) -> (binding: Self)
        ensures
            binding.lens() == lens_from_data,
            binding.prop() == prop_from_controlled,
    {
        LensPropBinding {
            lens_from_data,
            prop_from_controlled,
            phantom_t: PhantomData,
            phantom_c: PhantomData,
            phantom_p: PhantomData,
        }
    }
}

impl<
    T,
    Controlled,
    PropValue,
    LT: Accessor<T, PropValue>,
    PropC: Property<Controlled = Controlled, Value = PropValue>,
> Binding<T, Controlled> for LensPropBinding<T, Controlled, PropValue, LT, PropC> {
    type Change = PropC::Change;

    /// The field is read and written to the property.
    open spec fn applied(&self, data: T, controlled: Controlled) -> Controlled {
        self.prop().written(controlled, self.lens().get_spec(data))
    }

    open spec fn asked(&self) -> Requests {
        PropC::Requests::asked()
    }

    /// The property compares the node with the field.
    open spec fn appended(
        &self,
        controlled: Controlled,
        data: T,
        change: Option<Self::Change>,
    ) -> Option<Self::Change> {
        self.prop().appended(controlled, self.lens().get_spec(data), change)
    }

    /// The field is read, the property folds the change into it, and the result is
    /// put back.
    open spec fn consumed(&self, controlled: Controlled, data: T, change: Self::Change) -> T {
        self.lens().put_spec(
            data,
            self.prop().updated(controlled, self.lens().get_spec(data), change),
        )
    }

    open spec fn initialised(&self, controlled: Controlled, data: T) -> T {
        self.lens().put_spec(data, self.prop().initialised(controlled, self.lens().get_spec(data)))
    }

    fn apply_data_to_controlled(&self, data: &T, controlled: &mut Controlled, ctx: &mut UpdateCtx) {
        let field_val = self.lens_from_data.get(data);
        self.prop_from_controlled.write_prop(controlled, &field_val);
        PropC::Requests::notify(ctx);
    }

    fn append_change_required(
        &self,
        controlled: &Controlled,
        data: &T,
        change: &mut Option<Self::Change>,
    ) {
        let field_val = self.lens_from_data.get(data);
        self.prop_from_controlled.append_changes(controlled, &field_val, change)
    }

    fn apply_change_to_data(&self, controlled: &Controlled, data: &mut T, change: Self::Change) {
        let mut field = self.lens_from_data.get(data);
        self.prop_from_controlled.update_data_from_change(controlled, &mut field, change);
        self.lens_from_data.put(data, field);
    }

    fn initialise_data(&self, controlled: &Controlled, data: &mut T) {
        let mut field = self.lens_from_data.get(data);
        self.prop_from_controlled.initialise_data(controlled, &mut field);
        self.lens_from_data.put(data, field);
    }
}

} // verus!
