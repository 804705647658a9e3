//! What holds of the holders in general, proved from their definitions.
//!
//! The lemmas speak of the holders through the spec functions that the
//! contracts of the executable functions use: the view, `spec_is_owned`,
//! `from_spec`, `made_owned` and the `add_spec` of the operator traits.

use crate::immutable::MaybeOwned;
use crate::mutable::MaybeOwnedMut;
use core::ops::Add;
use vstd::prelude::*;
use vstd::std_specs::cmp::{OrdSpec, PartialEqSpec, PartialOrdSpec};
use vstd::std_specs::convert::FromSpec;
use vstd::std_specs::ops::AddSpec;

verus! {

/// A holder made from a value owns it and holds that very value.
pub proof fn lemma_from_value_is_owned<'a, T>(v: T)
    ensures
        <MaybeOwned<'a, T> as FromSpec<T>>::obeys_from_spec(),
        <MaybeOwned<'a, T> as FromSpec<T>>::from_spec(v).spec_is_owned(),
        <MaybeOwned<'a, T> as FromSpec<T>>::from_spec(v)@ == v,
        <MaybeOwnedMut<'a, T> as FromSpec<T>>::obeys_from_spec(),
        <MaybeOwnedMut<'a, T> as FromSpec<T>>::from_spec(v).spec_is_owned(),
        <MaybeOwnedMut<'a, T> as FromSpec<T>>::from_spec(v)@ == v,
{
}

/// A holder made from a reference borrows, and holds the value that the
/// reference leads to.
pub proof fn lemma_from_reference_is_borrowed<'a, T>(r: &'a T)
    ensures
        <MaybeOwned<'a, T> as FromSpec<&'a T>>::obeys_from_spec(),
        !<MaybeOwned<'a, T> as FromSpec<&'a T>>::from_spec(r).spec_is_owned(),
        <MaybeOwned<'a, T> as FromSpec<&'a T>>::from_spec(r)@ == *r,
{
}

/// The value that a holder gives access to is the same whether the holder
/// was made from the value or from a reference to it.
pub proof fn lemma_content_ignores_representation<'a, T>(v: T)
    ensures
        <MaybeOwned<'a, T> as FromSpec<T>>::from_spec(v)@ == <MaybeOwned<'a, T> as FromSpec<
            &'a T,
        >>::from_spec(&v)@,
{
}

/// `make_owned` is idempotent: after one call the holder is owned, and a
/// second call leaves it as it is, whatever duplicate it is offered. So the
/// second call clones nothing.
pub proof fn lemma_make_owned_idempotent<'a, T>(h: MaybeOwned<'a, T>, first: T, second: T)
    ensures
        h.made_owned(first).spec_is_owned(),
        h.made_owned(first).made_owned(second) == h.made_owned(first),
        h.spec_is_owned() ==> h.made_owned(first) == h,
{
}

/// `make_owned` of the mutable holder is idempotent in the same way.
pub proof fn lemma_make_owned_mut_idempotent<'a, T>(h: MaybeOwnedMut<'a, T>, first: T, second: T)
    ensures
        h.made_owned(first).spec_is_owned(),
        h.made_owned(first).made_owned(second) == h.made_owned(first),
        h.spec_is_owned() ==> h.made_owned(first) == h,
{
}

/// Turning a holder into its owned form does not show in equality or in the
/// order: where the duplicate that is made of a borrowed value equals that
/// value, the holder compares with any other as it did before.
pub proof fn lemma_make_owned_keeps_comparisons<'a, T: Ord>(
    h: MaybeOwned<'a, T>,
    copy: T,
    g: MaybeOwned<'a, T>,
)
    requires
        !h.spec_is_owned() ==> copy == h@,
    ensures
        h.made_owned(copy).spec_is_owned(),
        h.made_owned(copy)@ == h@,
        h.made_owned(copy).eq_spec(&g) == h.eq_spec(&g),
        g.eq_spec(&h.made_owned(copy)) == g.eq_spec(&h),
        h.made_owned(copy).partial_cmp_spec(&g) == h.partial_cmp_spec(&g),
        g.partial_cmp_spec(&h.made_owned(copy)) == g.partial_cmp_spec(&h),
        h.made_owned(copy)@.cmp_spec(&g@) == h@.cmp_spec(&g@),
        g@.cmp_spec(&h.made_owned(copy)@) == g@.cmp_spec(&h@),
{
}

/// Turning a mutable holder into its owned form does not show in equality or
/// in the order either.
pub proof fn lemma_make_owned_mut_keeps_comparisons<'a, T: Ord>(
    h: MaybeOwnedMut<'a, T>,
    copy: T,
    g: MaybeOwnedMut<'a, T>,
)
    requires
        !h.spec_is_owned() ==> copy == h@,
    ensures
        h.made_owned(copy).spec_is_owned(),
        h.made_owned(copy)@ == h@,
        h.made_owned(copy).eq_spec(&g) == h.eq_spec(&g),
        g.eq_spec(&h.made_owned(copy)) == g.eq_spec(&h),
        h.made_owned(copy).partial_cmp_spec(&g) == h.partial_cmp_spec(&g),
        g.partial_cmp_spec(&h.made_owned(copy)) == g.partial_cmp_spec(&h),
        h.made_owned(copy)@.cmp_spec(&g@) == h@.cmp_spec(&g@),
        g@.cmp_spec(&h.made_owned(copy)@) == g@.cmp_spec(&h@),
{
}

/// `+` is transitive: where the four forms of `+` of the contained types
/// give one result on the values held, the sum of two holders is that
/// result in an owned holder, whichever of the two is owned or borrowed.
pub proof fn lemma_add_ignores_representation<'min, L, R, OUT: 'min>(
    x: MaybeOwned<'min, L>,
    y: MaybeOwned<'min, R>,
) where
    L: Add<R, Output = OUT> + Add<&'min R, Output = OUT>,
    &'min L: Add<R, Output = OUT> + Add<&'min R, Output = OUT>,

    requires
        x@.add_spec(&y@) == x@.add_spec(y@),
        (&x@).add_spec(y@) == x@.add_spec(y@),
        (&x@).add_spec(&y@) == x@.add_spec(y@),
    ensures
        x.add_spec(y).spec_is_owned(),
        x.add_spec(y)@ == x@.add_spec(y@),
{
}

/// `+` of the mutable holder is transitive in the same way.
pub proof fn lemma_add_mut_ignores_representation<'min, L, R, OUT: 'min>(
    x: MaybeOwnedMut<'min, L>,
    y: MaybeOwnedMut<'min, R>,
) where
    L: Add<R, Output = OUT> + Add<&'min R, Output = OUT>,
    &'min L: Add<R, Output = OUT> + Add<&'min R, Output = OUT>,

    requires
        x@.add_spec(&y@) == x@.add_spec(y@),
        (&x@).add_spec(y@) == x@.add_spec(y@),
        (&x@).add_spec(&y@) == x@.add_spec(y@),
    ensures
        x.add_spec(y).spec_is_owned(),
        x.add_spec(y)@ == x@.add_spec(y@),
{
}

/// Equality sees the values held alone: two pairs of holders that hold the
/// same values compare alike, whichever of them are owned or borrowed.
pub proof fn lemma_eq_ignores_representation<'a, 'b, A: PartialEq<B>, B>(
    x1: MaybeOwned<'a, A>,
    x2: MaybeOwned<'a, A>,
    y1: MaybeOwned<'b, B>,
    y2: MaybeOwned<'b, B>,
)
    requires
        x1@ == x2@,
        y1@ == y2@,
    ensures
        x1.eq_spec(&y1) == x2.eq_spec(&y2),
        x1.eq_spec(&y1) == x1@.eq_spec(&y1@),
{
}

/// The order sees the values held alone: two pairs of holders that hold the
/// same values are ordered alike, whichever of them are owned or borrowed.
pub proof fn lemma_order_ignores_representation<'a, T: PartialOrd>(
    x1: MaybeOwned<'a, T>,
    x2: MaybeOwned<'a, T>,
    y1: MaybeOwned<'a, T>,
    y2: MaybeOwned<'a, T>,
)
    requires
        x1@ == x2@,
        y1@ == y2@,
    ensures
        x1.partial_cmp_spec(&y1) == x2.partial_cmp_spec(&y2),
        x1.partial_cmp_spec(&y1) == x1@.partial_cmp_spec(&y1@),
{
}

/// Equality of mutable holders sees the values held alone.
pub proof fn lemma_eq_mut_ignores_representation<'a, 'b, A: PartialEq<B>, B>(
    x1: MaybeOwnedMut<'a, A>,
    x2: MaybeOwnedMut<'a, A>,
    y1: MaybeOwnedMut<'b, B>,
    y2: MaybeOwnedMut<'b, B>,
)
    requires
        x1@ == x2@,
        y1@ == y2@,
    ensures
        x1.eq_spec(&y1) == x2.eq_spec(&y2),
        x1.eq_spec(&y1) == x1@.eq_spec(&y1@),
{
}

/// The order of mutable holders sees the values held alone.
pub proof fn lemma_order_mut_ignores_representation<'a, T: PartialOrd>(
    x1: MaybeOwnedMut<'a, T>,
    x2: MaybeOwnedMut<'a, T>,
    y1: MaybeOwnedMut<'a, T>,
    y2: MaybeOwnedMut<'a, T>,
)
    requires
        x1@ == x2@,
        y1@ == y2@,
    ensures
        x1.partial_cmp_spec(&y1) == x2.partial_cmp_spec(&y2),
        x1.partial_cmp_spec(&y1) == x1@.partial_cmp_spec(&y1@),
{
}

} // verus!
