//! Values that a binding can carry between the data and a node.

use vstd::prelude::*;

verus! {

/// A value that can be compared cheaply and copied.
///
/// `same` need not be full equality: where values are shared, it may compare
/// identities and so answer `false` for two equal values. A binding treats two
/// values that are the same as interchangeable, and never writes one over the other.
pub trait Data: Sized {
    /// What `same` answers.
    spec fn same_spec(self, other: Self) -> bool;

    /// Whether the two values can stand for each other.
    fn same(&self, other: &Self) -> (same: bool)
        ensures
            same == self.same_spec(*other),
    ;

    /// A second value equal to this one.
    fn duplicate(&self) -> (copy: Self)
        ensures
            copy == *self,
    ;
}

/// Whether every value of `V` is the same as itself.
pub open spec fn same_is_reflexive<V: Data>() -> bool {
    forall|v: V| #[trigger] v.same_spec(v)
}

impl Data for () {
    open spec fn same_spec(self, other: Self) -> bool {
        true
    }

    fn same(&self, other: &Self) -> (same: bool) {
        true
    }

    fn duplicate(&self) -> (copy: Self) {
    }
}

impl Data for bool {
    open spec fn same_spec(self, other: Self) -> bool {
        self == other
    }

    fn same(&self, other: &Self) -> (same: bool) {
        *self == *other
    }

    fn duplicate(&self) -> (copy: Self) {
        *self
    }
}

impl Data for char {
    open spec fn same_spec(self, other: Self) -> bool {
        self == other
    }

    fn same(&self, other: &Self) -> (same: bool) {
        *self == *other
    }

    fn duplicate(&self) -> (copy: Self) {
        *self
    }
}

impl Data for u8 {
    open spec fn same_spec(self, other: Self) -> bool {
        self == other
    }

    fn same(&self, other: &Self) -> (same: bool) {
        *self == *other
    }

    fn duplicate(&self) -> (copy: Self) {
        *self
    }
}

impl Data for u16 {
    open spec fn same_spec(self, other: Self) -> bool {
        self == other
    }

    fn same(&self, other: &Self) -> (same: bool) {
        *self == *other
    }

    fn duplicate(&self) -> (copy: Self) {
        *self
    }
}

impl Data for u32 {
    open spec fn same_spec(self, other: Self) -> bool {
        self == other
    }

    fn same(&self, other: &Self) -> (same: bool) {
        *self == *other
    }

    fn duplicate(&self) -> (copy: Self) {
        *self
    }
}

impl Data for u64 {
    open spec fn same_spec(self, other: Self) -> bool {
        self == other
    }

    fn same(&self, other: &Self) -> (same: bool) {
        *self == *other
    }

    fn duplicate(&self) -> (copy: Self) {
        *self
    }
}

impl Data for u128 {
    open spec fn same_spec(self, other: Self) -> bool {
        self == other
    }

    fn same(&self, other: &Self) -> (same: bool) {
        *self == *other
    }

    fn duplicate(&self) -> (copy: Self) {
        *self
    }
}

impl Data for usize {
    open spec fn same_spec(self, other: Self) -> bool {
        self == other
    }

    fn same(&self, other: &Self) -> (same: bool) {
        *self == *other
    }

    fn duplicate(&self) -> (copy: Self) {
        *self
    }
}

impl Data for i8 {
    open spec fn same_spec(self, other: Self) -> bool {
        self == other
    }

    fn same(&self, other: &Self) -> (same: bool) {
        *self == *other
    }

    fn duplicate(&self) -> (copy: Self) {
        *self
    }
}

impl Data for i16 {
    open spec fn same_spec(self, other: Self) -> bool {
        self == other
    }

    fn same(&self, other: &Self) -> (same: bool) {
        *self == *other
    }

    fn duplicate(&self) -> (copy: Self) {
        *self
    }
}

impl Data for i32 {
    open spec fn same_spec(self, other: Self) -> bool {
        self == other
    }

    fn same(&self, other: &Self) -> (same: bool) {
        *self == *other
    }

    fn duplicate(&self) -> (copy: Self) {
        *self
    }
}

impl Data for i64 {
    open spec fn same_spec(self, other: Self) -> bool {
        self == other
    }

    fn same(&self, other: &Self) -> (same: bool) {
        *self == *other
    }

    fn duplicate(&self) -> (copy: Self) {
        *self
    }
}

impl Data for i128 {
    open spec fn same_spec(self, other: Self) -> bool {
        self == other
    }

    fn same(&self, other: &Self) -> (same: bool) {
        *self == *other
    }

    fn duplicate(&self) -> (copy: Self) {
        *self
    }
}

impl Data for isize {
    open spec fn same_spec(self, other: Self) -> bool {
        self == other
    }

    fn same(&self, other: &Self) -> (same: bool) {
        *self == *other
    }

    fn duplicate(&self) -> (copy: Self) {
        *self
    }
}

} // verus!
