//! Bindable attributes of a node.

use crate::context_requests::ContextRequests;
use crate::data::Data;
use std::marker::PhantomData;
use vstd::prelude::*;

verus! {

/// One attribute of a controlled node that can be bound to a value in the data.
///
/// A property knows how to write a value into the node, how to tell that the node
/// has moved away from a value, and how to carry what the node now holds back into
/// that value. Each operation is a function of its arguments alone, named by a
/// spec function an implementation defines.
pub trait Property: Sized {
    /// The controlled node, or the part of it that holds the attribute.
    type Controlled;

    /// The type of the attribute.
    type Value;

    /// What is remembered of a divergence until it can be applied to the data.
    /// Where the node can simply be read again, this is `()`, and the presence of
    /// a change says all there is to say.
    type Change;

    /// The invalidations to ask for after a write.
    type Requests: ContextRequests;

    /// The node after `value` has been written to the attribute.
    spec fn written(&self, controlled: Self::Controlled, value: Self::Value) -> Self::Controlled;

    /// The pending change after the node has been compared with `value`, the value
    /// last known to the data.
    spec fn appended(
        &self,
        controlled: Self::Controlled,
        value: Self::Value,
        change: Option<Self::Change>,
    ) -> Option<Self::Change>;

    /// The data-side value after `change` has been folded into `field`.
    spec fn updated(
        &self,
        controlled: Self::Controlled,
        field: Self::Value,
        change: Self::Change,
    ) -> Self::Value;

    /// The data-side value after it has been brought in line with the node, with no
    /// change at hand.
    spec fn initialised(&self, controlled: Self::Controlled, field: Self::Value) -> Self::Value;

    /// Writes a value of the data to the attribute. Asks for no invalidation: that
    /// is left to `Requests`.
    fn write_prop(&self, controlled: &mut Self::Controlled, field_val: &Self::Value)
        ensures
            *final(controlled) == self.written(*old(controlled), *field_val),
    ;

    /// Adds to `change` what has to be done to the data because the attribute no
    /// longer is `field_val`.
    fn append_changes(
        &self,
        controlled: &Self::Controlled,
        field_val: &Self::Value,
        change: &mut Option<Self::Change>,
    )
        ensures
            *final(change) == self.appended(*controlled, *field_val, *old(change)),
    ;

    /// Brings `field` up to date with the changes gathered in `change`.
    fn update_data_from_change(
        &self,
        controlled: &Self::Controlled,
        field: &mut Self::Value,
        change: Self::Change,
    )
        ensures
            *final(field) == self.updated(*controlled, *old(field), change),
    ;

    /// Brings `field` in line with the node where there is no change to go by.
    fn initialise_data(&self, controlled: &Self::Controlled, field: &mut Self::Value)
        ensures
            *final(field) == self.initialised(*controlled, *old(field)),
    ;

    /// This property, restricted to flow from the node to the data.
    fn read(self) -> (property: ReadOnlyProperty<Self>)
        ensures
            property.0 == self,
    {
        ReadOnlyProperty(self)
    }

    /// This property, restricted to flow from the data to the node.
    fn write(self) -> (property: WriteOnlyProperty<Self>)
        ensures
            property.0 == self,
    {
        WriteOnlyProperty(self)
    }
}

/// A property that is never written: it only reports what the node does.
pub struct ReadOnlyProperty<B>(pub B);

impl<B: Property> Property for ReadOnlyProperty<B> {
    type Controlled = B::Controlled;

    type Value = B::Value;

    type Change = B::Change;

    type Requests = ();

    open spec fn written(
        &self,
        controlled: Self::Controlled,
        value: Self::Value,
    ) -> Self::Controlled {
        controlled
    }

    open spec fn appended(
        &self,
        controlled: Self::Controlled,
        value: Self::Value,
        change: Option<Self::Change>,
    ) -> Option<Self::Change> {
        self.0.appended(controlled, value, change)
    }

    open spec fn updated(
        &self,
        controlled: Self::Controlled,
        field: Self::Value,
        change: Self::Change,
    ) -> Self::Value {
        self.0.updated(controlled, field, change)
    }

    open spec fn initialised(
        &self,
        controlled: Self::Controlled,
        field: Self::Value,
    ) -> Self::Value {
        self.0.initialised(controlled, field)
    }

    fn write_prop(&self, controlled: &mut Self::Controlled, field_val: &Self::Value) {
    }

    fn append_changes(
        &self,
        controlled: &Self::Controlled,
        field_val: &Self::Value,
        change: &mut Option<Self::Change>,
    ) {
        self.0.append_changes(controlled, field_val, change)
    }

    fn update_data_from_change(
        &self,
        controlled: &Self::Controlled,
        field: &mut Self::Value,
        change: Self::Change,
    ) {
        self.0.update_data_from_change(controlled, field, change)
    }

    fn initialise_data(&self, controlled: &Self::Controlled, field: &mut Self::Value) {
        self.0.initialise_data(controlled, field)
    }
}

/// A property that is only written: it never reports a divergence and never
/// touches the data.
pub struct WriteOnlyProperty<B>(pub B);

impl<B: Property> Property for WriteOnlyProperty<B> {
    type Controlled = B::Controlled;

    type Value = B::Value;

    type Change = B::Change;

    type Requests = B::Requests;

    open spec fn written(
        &self,
        controlled: Self::Controlled,
        value: Self::Value,
    ) -> Self::Controlled {
        self.0.written(controlled, value)
    }

    open spec fn appended(
        &self,
        controlled: Self::Controlled,
        value: Self::Value,
        change: Option<Self::Change>,
    ) -> Option<Self::Change> {
        change
    }

    open spec fn updated(
        &self,
        controlled: Self::Controlled,
        field: Self::Value,
        change: Self::Change,
    ) -> Self::Value {
        field
    }

    open spec fn initialised(
        &self,
        controlled: Self::Controlled,
        field: Self::Value,
    ) -> Self::Value {
        field
    }

    fn write_prop(&self, controlled: &mut Self::Controlled, field_val: &Self::Value) {
        self.0.write_prop(controlled, field_val)
    }

    fn append_changes(
        &self,
        controlled: &Self::Controlled,
        field_val: &Self::Value,
        change: &mut Option<Self::Change>,
    ) {
    }

    fn update_data_from_change(
        &self,
        controlled: &Self::Controlled,
        field: &mut Self::Value,
        change: Self::Change,
    ) {
    }

    fn initialise_data(&self, controlled: &Self::Controlled, field: &mut Self::Value) {
    }
}

/// Turns one of the convenience property kinds into a `Property`. `Marker` says
/// which kind `P` is: `Value`, `Ref` or `Writing`.
pub struct PropertyWrapper<Marker, P> {
    marker: PhantomData<Marker>,
    wrapped: P,
}

impl<Marker, P> PropertyWrapper<Marker, P> {
    /// The property that was wrapped.
    pub closed spec fn inner(&self) -> P {
        self.wrapped
    }

    /// Wraps a property of the kind that `Marker` names.
    pub fn new(wrapped: P) -> (property: Self)
        ensures
            property.inner() == wrapped,
    {
        PropertyWrapper { marker: PhantomData, wrapped }
    }
}

/// Marks a `PropertyWrapper` around a `ValueProperty`.
pub struct Value;

/// An attribute that is read and written as a whole value.
pub trait ValueProperty {
    type Controlled;

    type Value: Data;

    type Requests: ContextRequests;

    /// The node after `value` has been written to the attribute.
    spec fn written(&self, controlled: Self::Controlled, value: Self::Value) -> Self::Controlled;

    /// The value that the attribute holds.
    spec fn value_of(&self, controlled: Self::Controlled) -> Self::Value;

    /// Writes `value` to the attribute.
    fn write(&self, controlled: &mut Self::Controlled, value: &Self::Value)
        ensures
            *final(controlled) == self.written(*old(controlled), *value),
    ;

    /// Reads the attribute.
    fn read(&self, controlled: &Self::Controlled) -> (value: Self::Value)
        ensures
            value == self.value_of(*controlled),
    ;
}

impl<TP: ValueProperty> Property for PropertyWrapper<Value, TP> {
    type Controlled = TP::Controlled;

    type Value = TP::Value;

    type Change = ();

    type Requests = TP::Requests;

    open spec fn written(
        &self,
        controlled: Self::Controlled,
        value: Self::Value,
    ) -> Self::Controlled {
        self.inner().written(controlled, value)
    }

    /// A change is due exactly when the attribute is not the same as the value
    /// last known to the data.
    open spec fn appended(
        &self,
        controlled: Self::Controlled,
        value: Self::Value,
        change: Option<Self::Change>,
    ) -> Option<Self::Change> {
        if self.inner().value_of(controlled).same_spec(value) {
            change
        } else {
            Some(())
        }
    }

    open spec fn updated(
        &self,
        controlled: Self::Controlled,
        field: Self::Value,
        change: Self::Change,
    ) -> Self::Value {
        self.initialised(controlled, field)
    }

    /// The field takes the attribute's value, unless it is the same already.
    open spec fn initialised(
        &self,
        controlled: Self::Controlled,
        field: Self::Value,
    ) -> Self::Value {
        if self.inner().value_of(controlled).same_spec(field) {
            field
        } else {
            self.inner().value_of(controlled)
        }
    }

    fn write_prop(&self, controlled: &mut Self::Controlled, field_val: &Self::Value) {
        self.wrapped.write(controlled, field_val)
    }

    fn append_changes(
        &self,
        controlled: &Self::Controlled,
        field_val: &Self::Value,
        change: &mut Option<Self::Change>,
    ) {
        let val = self.wrapped.read(controlled);
        if !val.same(field_val) {
            *change = Some(())
        }
    }

    fn update_data_from_change(
        &self,
        controlled: &Self::Controlled,
        field: &mut Self::Value,
        change: Self::Change,
    ) {
        self.initialise_data(controlled, field);
    }

    fn initialise_data(&self, controlled: &Self::Controlled, field: &mut Self::Value) {
        let val = self.wrapped.read(controlled);
        if !val.same(field) {
            *field = val;
        }
    }
}

/// Marks a `PropertyWrapper` around a `RefProperty`.
pub struct Ref;

/// An attribute that is read by reference, and that a node may not hold at all.
pub trait RefProperty {
    type Controlled;

    type Value: Data;

    type Requests: ContextRequests;

    /// The node after `value` has been written to the attribute.
    spec fn written(&self, controlled: Self::Controlled, value: Self::Value) -> Self::Controlled;

    /// The value that the attribute holds, if the node holds one.
    spec fn value_of(&self, controlled: Self::Controlled) -> Option<Self::Value>;

    /// Writes `value` to the attribute.
    fn write(&self, controlled: &mut Self::Controlled, value: &Self::Value)
        ensures
            *final(controlled) == self.written(*old(controlled), *value),
    ;

    /// Reads the attribute, if the node holds a value for it.
    fn read<'a>(&self, controlled: &'a Self::Controlled) -> (value: Option<&'a Self::Value>)
        ensures
            match value {
                Some(held) => self.value_of(*controlled) == Some(*held),
                None => self.value_of(*controlled) is None,
            },
    ;
}

impl<RP: RefProperty> Property for PropertyWrapper<Ref, RP> {
    type Controlled = RP::Controlled;

    type Value = RP::Value;

    type Change = ();

    type Requests = RP::Requests;

    open spec fn written(
        &self,
        controlled: Self::Controlled,
        value: Self::Value,
    ) -> Self::Controlled {
        self.inner().written(controlled, value)
    }

    /// A change is due exactly when the node holds a value that is not the same as
    /// the one last known to the data.
    open spec fn appended(
        &self,
        controlled: Self::Controlled,
        value: Self::Value,
        change: Option<Self::Change>,
    ) -> Option<Self::Change> {
        match self.inner().value_of(controlled) {
            Some(item) => if item.same_spec(value) {
                change
            } else {
                Some(())
            },
            None => change,
        }
    }

    open spec fn updated(
        &self,
        controlled: Self::Controlled,
        field: Self::Value,
        change: Self::Change,
    ) -> Self::Value {
        self.initialised(controlled, field)
    }

    /// The field takes the value that the node holds, if it holds one.
    open spec fn initialised(
        &self,
        controlled: Self::Controlled,
        field: Self::Value,
    ) -> Self::Value {
        match self.inner().value_of(controlled) {
            Some(item) => item,
            None => field,
        }
    }

    fn write_prop(&self, controlled: &mut Self::Controlled, field_val: &Self::Value) {
        self.wrapped.write(controlled, field_val);
    }

    fn append_changes(
        &self,
        controlled: &Self::Controlled,
        field_val: &Self::Value,
        change: &mut Option<Self::Change>,
    ) {
        if let Some(item) = self.wrapped.read(controlled) {
            if !item.same(field_val) {
                *change = Some(())
            }
        }
    }

    fn update_data_from_change(
        &self,
        controlled: &Self::Controlled,
        field: &mut Self::Value,
        change: Self::Change,
    ) {
        self.initialise_data(controlled, field);
    }

    fn initialise_data(&self, controlled: &Self::Controlled, field: &mut Self::Value) {
        if let Some(item) = self.wrapped.read(controlled) {
            *field = item.duplicate()
        }
    }
}

/// Marks a `PropertyWrapper` around a `WritingProperty`.
pub struct Writing;

/// An attribute that can be written and never read back.
pub trait WritingProperty {
    type Controlled;

    type Value: Data;

    type Requests: ContextRequests;

    /// The node after `value` has been written to the attribute.
    spec fn written(&self, controlled: Self::Controlled, value: Self::Value) -> Self::Controlled;

    /// Writes `value` to the attribute.
    fn write(&self, controlled: &mut Self::Controlled, value: &Self::Value)
        ensures
            *final(controlled) == self.written(*old(controlled), *value),
    ;
}

impl<S: WritingProperty> Property for PropertyWrapper<Writing, S> {
    type Controlled = S::Controlled;

    type Value = S::Value;

    type Change = ();

    type Requests = S::Requests;

    open spec fn written(
        &self,
        controlled: Self::Controlled,
        value: Self::Value,
    ) -> Self::Controlled {
        self.inner().written(controlled, value)
    }

    open spec fn appended(
        &self,
        controlled: Self::Controlled,
        value: Self::Value,
        change: Option<Self::Change>,
    ) -> Option<Self::Change> {
        change
    }

    open spec fn updated(
        &self,
        controlled: Self::Controlled,
        field: Self::Value,
        change: Self::Change,
    ) -> Self::Value {
        field
    }

    open spec fn initialised(
        &self,
        controlled: Self::Controlled,
        field: Self::Value,
    ) -> Self::Value {
        field
    }

    fn write_prop(&self, controlled: &mut Self::Controlled, field_val: &Self::Value) {
        self.wrapped.write(controlled, field_val);
    }

    fn append_changes(
        &self,
        controlled: &Self::Controlled,
        field_val: &Self::Value,
        change: &mut Option<Self::Change>,
    ) {
    }

    fn update_data_from_change(
        &self,
        controlled: &Self::Controlled,
        field: &mut Self::Value,
        change: Self::Change,
    ) {
    }

    fn initialise_data(&self, controlled: &Self::Controlled, field: &mut Self::Value) {
    }
}

} // verus!
