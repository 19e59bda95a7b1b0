//! Two-way bindings between application data and the live state of the nodes of a
//! retained-mode tree.

pub mod accessor;
pub mod bindable_access;
pub mod binding;
pub mod binding_host;
pub mod context;
pub mod context_requests;
pub mod data;
pub mod ext;
pub mod laws;
pub mod property;

pub use accessor::{Accessor, Identity, Then};
pub use bindable_access::BindableAccess;
pub use binding::{BackwardOnly, Binding, ForwardOnly, LensPropBinding};
pub use binding_host::{BindingHost, BindingHostState, HostView};
pub use context::{
    Command, CommandCtx, Event, EventCtx, LayoutCtx, LifeCycle, LifeCycleCtx, Requests, Selector,
    UpdateCtx, WidgetId,
};
pub use context_requests::{AnimFrame, ContextRequests, Layout, Paint};
pub use data::Data;
pub use ext::{BindingExt, PropertyExt, WidgetBindingExt};
pub use property::{
    Property, PropertyWrapper, ReadOnlyProperty, Ref, RefProperty, Value, ValueProperty,
    WriteOnlyProperty, Writing, WritingProperty,
};
