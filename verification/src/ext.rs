//! Building bindings by chaining.

use crate::accessor::Accessor;
use crate::bindable_access::BindableAccess;
use crate::binding::{BackwardOnly, Binding, ForwardOnly, LensPropBinding};
use crate::binding_host::{BindingHost, BindingHostState, HostView};
use crate::property::Property;
use vstd::prelude::*;

verus! {

/// Lets any node that can be reached into be bound in place: `node.binding(b)`.
pub trait WidgetBindingExt<T>: BindableAccess + Sized {
    /// Binds properties of this node with the binding `binding`.
    fn binding<B: Binding<T, Self::Wrapped>>(self, binding: B) -> (host: BindingHost<
        T,
        Self,
        Self::Wrapped,
        B,
    >)
        ensures
            host.wrapped() == self,
            host@ == (HostView::<T, Self::Wrapped, B> {
                state: BindingHostState::New,
                pending_change: None,
                widget_id: None,
                controlled: self.reached(),
                binding,
            }),
    {
        BindingHost::new(self, binding)
    }
}

impl<T, W: BindableAccess> WidgetBindingExt<T> for W {
}

/// Lets any binding be restricted in place: `binding.forward()`.
pub trait BindingExt<T, Controlled>: Binding<T, Controlled> + Sized {
    /// This binding, restricted to flow from the data to the node.
    fn forward(self) -> (binding: ForwardOnly<Self>)
        ensures
            binding.0 == self,
    {
        ForwardOnly(self)
    }

    /// This binding, restricted to flow from the node to the data.
    fn backward(self) -> (binding: BackwardOnly<Self>)
        ensures
            binding.0 == self,
    {
        BackwardOnly(self)
    }
}

impl<T, Controlled, B: Binding<T, Controlled>> BindingExt<T, Controlled> for B {
}

/// Lets any property be bound in place: `property.with(lens)`.
pub trait PropertyExt: Property {
    /// This property bound to the field of the data that `lens` reaches.
    fn with<T, L: Accessor<T, Self::Value>>(self, lens: L) -> (binding: LensPropBinding<
        T,
        Self::Controlled,
        Self::Value,
        L,
        Self,
    >)
        ensures
            binding.lens() == lens,
            binding.prop() == self,
    {
        LensPropBinding::new(lens, self)
    }
}

impl<P: Property> PropertyExt for P {
}

} // verus!
