use vstd::prelude::*;
use crate::composed::Composed;

verus! {

/// A pair of a getter and a setter that address one field of a container.
///
/// The field is described by two spec functions: `field_of` reads it and
/// `with_field` replaces it. Every implementation proves the three laws that
/// make these two address one and the same field.
pub trait AccessorPair<Struct, Field> {
    /// The value of the addressed field in `on`.
    spec fn field_of(&self, on: Struct) -> Field;

    /// `on` with the addressed field replaced by `value`.
    spec fn with_field(&self, on: Struct, value: Field) -> Struct;

    /// Reading a field that was just written gives the written value.
    proof fn lemma_read_written(&self, on: Struct, value: Field)
        ensures
            self.field_of(self.with_field(on, value)) == value,
    ;

    /// Writing back the value that was read changes nothing.
    proof fn lemma_write_read(&self, on: Struct)
        ensures
            self.with_field(on, self.field_of(on)) == on,
    ;

    /// A second write overrides the first.
    proof fn lemma_write_twice(&self, on: Struct, first: Field, second: Field)
        ensures
            self.with_field(self.with_field(on, first), second) == self.with_field(on, second),
    ;

    /// Borrows the field of `on`.
    fn get<'a>(&self, on: &'a Struct) -> (r: &'a Field)
        ensures
            *r == self.field_of(*on),
    ;

    /// Borrows the field of `on` mutably: whatever the caller leaves behind
    /// the returned reference becomes the field of `on`, and nothing else
    /// of `on` changes.
    fn set<'a>(&self, on: &'a mut Struct) -> (r: &'a mut Field)
        ensures
            *r == self.field_of(*old(on)),
            *final(on) == self.with_field(*old(on), *final(r)),
    ;

    /// Chains this accessor with `other`, which addresses a field inside
    /// this accessor's field. Where `other` is an `AccessorPair<Field, Next>`
    /// the result is an `AccessorPair<Struct, Next>`.
    fn compose<'a, Other>(&'a self, other: Other) -> (r: Composed<
        'a,
        Self,
        Other,
        Field,
    >) where Self: Sized
        ensures
            *r.outer == *self,
            r.inner == other,
    {
        Composed::new(self, other)
    }
}

} // verus!
