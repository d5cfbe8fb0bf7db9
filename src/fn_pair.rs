//! The accessor pair made of two callables: a getter and a setter.
use vstd::prelude::*;

verus! {

/// A getter and a setter that address one field of a container. Each call
/// is forwarded to the stored callable and gives what that callable's own
/// contract gives.
#[derive(Clone, Copy)]
pub struct FnPair<G, H> {
    pub getter: G,
    pub setter: H,
}

/// Pairs `getter` and `setter`, which are to address one and the same field.
pub fn field_accessors<Struct, Field, G, H>(getter: G, setter: H) -> (r: FnPair<G, H>) where
    G: Fn(&Struct) -> &Field,
    H: Fn(&mut Struct) -> &mut Field,

    ensures
        r.getter == getter,
        r.setter == setter,
{
    FnPair { getter, setter }
}

impl<G, H> FnPair<G, H> {
    /// Borrows the field of `on` through the getter.
    pub fn get<'a, Struct, Field>(&self, on: &'a Struct) -> (r: &'a Field) where
        G: Fn(&Struct) -> &Field,

        requires
            call_requires(self.getter, (on,)),
        ensures
            call_ensures(self.getter, (on,), r),
    {
        (self.getter)(on)
    }

    /// Borrows the field of `on` mutably through the setter.
    pub fn set<'a, Struct, Field>(&self, on: &'a mut Struct) -> (r: &'a mut Field) where
        H: Fn(&mut Struct) -> &mut Field,

        requires
            forall|o: &mut Struct| #[trigger] call_requires(self.setter, (o,)),
        ensures
            exists|o: &mut Struct|
                {
                    &&& *o == *old(on)
                    &&& *final(o) == *final(on)
                    &&& #[trigger] call_ensures(self.setter, (o,), r)
                },
    {
        (self.setter)(on)
    }
}

} // verus!
