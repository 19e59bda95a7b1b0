//! Access to one field of the data.

use crate::data::Data;
use std::marker::PhantomData;
use vstd::prelude::*;

verus! {

/// Reads and writes one field, of type `V`, of an owner of type `T`.
///
/// A binding asks nothing more of the data than this: it never takes the field by
/// reference and knows nothing of where in the owner it lies.
pub trait Accessor<T, V> {
    /// The field's value in `owner`.
    spec fn get_spec(&self, owner: T) -> V;

    /// `owner` with `value` in the field.
    spec fn put_spec(&self, owner: T, value: V) -> T;

    /// Reads the field.
    fn get(&self, owner: &T) -> (value: V)
        ensures
            value == self.get_spec(*owner),
    ;

    /// Writes the field.
    fn put(&self, owner: &mut T, value: V)
        ensures
            *final(owner) == self.put_spec(*old(owner), value),
    ;
}

/// Whether `accessor` gives back what was put: reading the field after a write
/// yields the value written.
pub open spec fn reads_back<T, V, A: Accessor<T, V>>(accessor: A) -> bool {
    forall|owner: T, value: V| #[trigger]
        accessor.get_spec(accessor.put_spec(owner, value)) == value
}

/// Whether a write through `first` leaves alone what `second` reads.
pub open spec fn leaves_alone<T, V1, V2, A1: Accessor<T, V1>, A2: Accessor<T, V2>>(
    first: A1,
    second: A2,
) -> bool {
    forall|owner: T, value: V1| #[trigger]
        second.get_spec(first.put_spec(owner, value)) == second.get_spec(owner)
}

/// The accessor whose field is the owner itself.
pub struct Identity;

impl<T: Data> Accessor<T, T> for Identity {
    open spec fn get_spec(&self, owner: T) -> T {
        owner
    }

    open spec fn put_spec(&self, owner: T, value: T) -> T {
        value
    }

    fn get(&self, owner: &T) -> (value: T) {
        owner.duplicate()
    }

    fn put(&self, owner: &mut T, value: T) {
        *owner = value;
    }
}

/// Two accessors end to end: `outer` reaches a part of the owner, `inner` a field
/// of that part.
pub struct Then<A, B, Mid> {
    outer: A,
    inner: B,
    mid: PhantomData<Mid>,
}

impl<A, B, Mid> Then<A, B, Mid> {
    /// The accessor that reaches the part.
    pub closed spec fn outer(&self) -> A {
        self.outer
    }

    /// The accessor that reaches the field within the part.
    pub closed spec fn inner(&self) -> B {
        self.inner
    }

    /// Puts two accessors end to end.
    pub fn new(outer: A, inner: B) -> (then: Self)
        ensures
            then.outer() == outer,
            then.inner() == inner,
    {
        Then { outer, inner, mid: PhantomData }
    }
}

impl<T, Mid, V, A: Accessor<T, Mid>, B: Accessor<Mid, V>> Accessor<T, V> for Then<A, B, Mid> {
    open spec fn get_spec(&self, owner: T) -> V {
        self.inner().get_spec(self.outer().get_spec(owner))
    }

    /// The part is read, the field is put into it, and the part is put back.
    open spec fn put_spec(&self, owner: T, value: V) -> T {
        self.outer().put_spec(owner, self.inner().put_spec(self.outer().get_spec(owner), value))
    }

    fn get(&self, owner: &T) -> (value: V) {
        let part = self.outer.get(owner);
        self.inner.get(&part)
    }

    fn put(&self, owner: &mut T, value: V) {
        let mut part = self.outer.get(owner);
        self.inner.put(&mut part, value);
        self.outer.put(owner, part);
    }
}

/// Chaining keeps the law: where both accessors give back what was put, so does
/// the chain.
pub proof fn then_reads_back<T, Mid, V, A: Accessor<T, Mid>, B: Accessor<Mid, V>>(
    then: Then<A, B, Mid>,
)
    requires
        reads_back::<T, Mid, A>(then.outer()),
        reads_back::<Mid, V, B>(then.inner()),
    ensures
        reads_back::<T, V, Then<A, B, Mid>>(then),
{
}

} // verus!
