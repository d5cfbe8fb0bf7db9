use vstd::prelude::*;
use crate::accessor::AccessorPair;
use crate::composed::Composed;
use crate::fn_pair::FnPair;

verus! {

/// Writing `value` through `p` and reading the field back gives `value`;
/// and the write touches nothing but the field: putting the old field value
/// back gives the original container exactly.
pub proof fn lemma_write_then_read<Struct, Field, P: AccessorPair<Struct, Field>>(
    p: &P,
    on: Struct,
    value: Field,
)
    ensures
        p.field_of(p.with_field(on, value)) == value,
        p.with_field(p.with_field(on, value), p.field_of(on)) == on,
{
    p.lemma_read_written(on, value);
    p.lemma_write_twice(on, value, p.field_of(on));
    p.lemma_write_read(on);
}

/// For `composed`, built from `outer` and `inner`: reading goes through
/// `outer`, then `inner`; a write is read back as written; and it changes
/// neither the container outside the intermediate value nor the
/// intermediate value outside the inner field.
pub proof fn lemma_composition<'a, Struct, Middle, Field, P, Q>(
    outer: &P,
    inner: &Q,
    composed: Composed<'a, P, Q, Middle>,
    on: Struct,
    value: Field,
) where
    P: AccessorPair<Struct, Middle>,
    Q: AccessorPair<Middle, Field>,
    Middle: 'static,

    requires
        *composed.outer == *outer,
        composed.inner == *inner,
    ensures
        composed.field_of(on) == inner.field_of(outer.field_of(on)),
        composed.field_of(composed.with_field(on, value)) == value,
        outer.with_field(composed.with_field(on, value), outer.field_of(on)) == on,
        inner.with_field(
            outer.field_of(composed.with_field(on, value)),
            inner.field_of(outer.field_of(on)),
        ) == outer.field_of(on),
{
    let mid = outer.field_of(on);
    let new_mid = inner.with_field(mid, value);
    composed.lemma_read_written(on, value);
    lemma_write_then_read(outer, on, new_mid);
    lemma_write_then_read(inner, mid, value);
}

/// The lens laws on a reader and a writer of one field.
pub open spec fn lawful<Struct, Field>(
    read: spec_fn(Struct) -> Field,
    write: spec_fn(Struct, Field) -> Struct,
) -> bool {
    &&& forall|on: Struct, value: Field| #[trigger] read(write(on, value)) == value
    &&& forall|on: Struct| #[trigger] write(on, read(on)) == on
    &&& forall|on: Struct, v: Field, w: Field| #[trigger] write(write(on, v), w) == write(on, w)
}

/// For a pair of callables whose getter reads with `read` and whose setter
/// writes with `write`, where `read` and `write` obey the lens laws: the
/// getter reads the field as `read` gives it; after a write through the
/// setter the getter reads the written value; and the write changes nothing
/// but the field: putting the old value back gives the old container.
pub proof fn lemma_pair_write_then_read<Struct, Field, G, H>(
    p: FnPair<G, H>,
    read: spec_fn(Struct) -> Field,
    write: spec_fn(Struct, Field) -> Struct,
    on: &mut Struct,
    written: &mut Field,
    after: &Struct,
    read_back: &Field,
) where
    G: Fn(&Struct) -> &Field,
    H: Fn(&mut Struct) -> &mut Field,

    requires
        lawful(read, write),
        forall|o: &Struct, r: &Field| #[trigger] call_ensures(p.getter, (o,), r) ==> *r == read(*o),
        forall|o: &mut Struct, r: &mut Field| #[trigger] call_ensures(p.setter, (o,), r) ==> {
            &&& *r == read(*o)
            &&& *final(o) == write(*o, *final(r))
        },
        call_ensures(p.setter, (old(on),), old(written)),
        *after == *final(old(on)),
        call_ensures(p.getter, (after,), read_back),
    ensures
        *old(written) == read(*old(on)),
        *read_back == *final(old(written)),
        write(*final(old(on)), read(*old(on))) == *old(on),
{
}

} // verus!
