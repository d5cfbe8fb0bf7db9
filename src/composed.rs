use vstd::prelude::*;
use crate::accessor::AccessorPair;
use core::marker::PhantomData;

verus! {

/// The accessor for a nested field: `outer` leads from the container to an
/// intermediate value of type `Middle`, and `inner` from there to the field.
pub struct Composed<'a, P, Q, Middle> {
    pub outer: &'a P,
    pub inner: Q,
    pub middle: PhantomData<Middle>,
}

impl<'a, P, Q, Middle> Composed<'a, P, Q, Middle> {
    /// The accessor that applies `outer`, then `inner`.
    pub fn new(outer: &'a P, inner: Q) -> (r: Self)
        ensures
            *r.outer == *outer,
            r.inner == inner,
    {
        Composed { outer, inner, middle: PhantomData }
    }
}

impl<'a, Struct, Middle, Field, P, Q> AccessorPair<Struct, Field> for Composed<'a, P, Q, Middle> where
    P: AccessorPair<Struct, Middle>,
    Q: AccessorPair<Middle, Field>,
    Middle: 'static,
 {
    open spec fn field_of(&self, on: Struct) -> Field {
        self.inner.field_of(self.outer.field_of(on))
    }

    open spec fn with_field(&self, on: Struct, value: Field) -> Struct {
        self.outer.with_field(on, self.inner.with_field(self.outer.field_of(on), value))
    }

    proof fn lemma_read_written(&self, on: Struct, value: Field) {
        let mid = self.inner.with_field(self.outer.field_of(on), value);
        self.outer.lemma_read_written(on, mid);
        self.inner.lemma_read_written(self.outer.field_of(on), value);
    }

    proof fn lemma_write_read(&self, on: Struct) {
        self.inner.lemma_write_read(self.outer.field_of(on));
        self.outer.lemma_write_read(on);
    }

    proof fn lemma_write_twice(&self, on: Struct, first: Field, second: Field) {
        let mid = self.outer.field_of(on);
        let mid1 = self.inner.with_field(mid, first);
        self.outer.lemma_read_written(on, mid1);
        self.inner.lemma_write_twice(mid, first, second);
        self.outer.lemma_write_twice(on, mid1, self.inner.with_field(mid1, second));
    }

    fn get<'b>(&self, on: &'b Struct) -> (r: &'b Field) {
        self.inner.get(self.outer.get(on))
    }

    fn set<'b>(&self, on: &'b mut Struct) -> (r: &'b mut Field) {
        self.inner.set(self.outer.set(on))
    }
}

} // verus!
