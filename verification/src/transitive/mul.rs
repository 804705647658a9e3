//! `*` between holders.

use crate::immutable::MaybeOwned;
use crate::mutable::MaybeOwnedMut;
use core::ops::Mul;
use vstd::prelude::*;
use vstd::std_specs::ops::{MulSpec, MulSpecImpl};

verus! {

impl<'min, L, R, OUT: 'min> MulSpecImpl<MaybeOwned<'min, R>> for MaybeOwned<'min, L> where
    L: Mul<R, Output = OUT> + Mul<&'min R, Output = OUT>,
    &'min L: Mul<R, Output = OUT> + Mul<&'min R, Output = OUT>,
{
    /// `*` between two holders is specified where each of its four forms is.
    open spec fn obeys_mul_spec() -> bool {
        &&& <L as MulSpec<R>>::obeys_mul_spec()
        &&& <L as MulSpec<&'min R>>::obeys_mul_spec()
        &&& <&'min L as MulSpec<R>>::obeys_mul_spec()
        &&& <&'min L as MulSpec<&'min R>>::obeys_mul_spec()
    }

    /// What the form that the two holders select asks of its operands.
    open spec fn mul_req(self, rhs: MaybeOwned<'min, R>) -> bool {
        match (self, rhs) {
            (MaybeOwned::Owned(l), MaybeOwned::Owned(r)) => l.mul_req(r),
            (MaybeOwned::Owned(l), MaybeOwned::Borrowed(r)) => l.mul_req(r),
            (MaybeOwned::Borrowed(l), MaybeOwned::Owned(r)) => l.mul_req(r),
            (MaybeOwned::Borrowed(l), MaybeOwned::Borrowed(r)) => l.mul_req(r),
        }
    }

    /// The result of the form that the two holders select, in an owned holder.
    open spec fn mul_spec(self, rhs: MaybeOwned<'min, R>) -> MaybeOwned<'min, OUT> {
        MaybeOwned::Owned(
            match (self, rhs) {
                (MaybeOwned::Owned(l), MaybeOwned::Owned(r)) => l.mul_spec(r),
                (MaybeOwned::Owned(l), MaybeOwned::Borrowed(r)) => l.mul_spec(r),
                (MaybeOwned::Borrowed(l), MaybeOwned::Owned(r)) => l.mul_spec(r),
                (MaybeOwned::Borrowed(l), MaybeOwned::Borrowed(r)) => l.mul_spec(r),
            },
        )
    }
}

impl<'min, L, R, OUT: 'min> Mul<MaybeOwned<'min, R>> for MaybeOwned<'min, L> where
    L: Mul<R, Output = OUT> + Mul<&'min R, Output = OUT>,
    &'min L: Mul<R, Output = OUT> + Mul<&'min R, Output = OUT>,
{
    type Output = MaybeOwned<'min, OUT>;

    /// Applies `*` to the values held, by the form that fits the way each is
    /// held, and returns the result in an owned holder.
    fn mul(self, rhs: MaybeOwned<'min, R>) -> (ret: MaybeOwned<'min, OUT>)
        ensures
            ret.spec_is_owned(),
            match (self, rhs) {
                (MaybeOwned::Owned(l), MaybeOwned::Owned(r)) => {
                    &&& call_ensures(<L as Mul<R>>::mul, (l, r), ret@)
                    &&& <L as MulSpec<R>>::obeys_mul_spec()
                        ==> ret@ == l.mul_spec(r)
                },
                (MaybeOwned::Owned(l), MaybeOwned::Borrowed(r)) => {
                    &&& call_ensures(<L as Mul<&'min R>>::mul, (l, r), ret@)
                    &&& <L as MulSpec<&'min R>>::obeys_mul_spec()
                        ==> ret@ == l.mul_spec(r)
                },
                (MaybeOwned::Borrowed(l), MaybeOwned::Owned(r)) => {
                    &&& call_ensures(<&'min L as Mul<R>>::mul, (l, r), ret@)
                    &&& <&'min L as MulSpec<R>>::obeys_mul_spec()
                        ==> ret@ == l.mul_spec(r)
                },
                (MaybeOwned::Borrowed(l), MaybeOwned::Borrowed(r)) => {
                    &&& call_ensures(<&'min L as Mul<&'min R>>::mul, (l, r), ret@)
                    &&& <&'min L as MulSpec<&'min R>>::obeys_mul_spec()
                        ==> ret@ == l.mul_spec(r)
                },
            },
    {
        let result = match (self, rhs) {
            (MaybeOwned::Owned(l), MaybeOwned::Owned(r)) => l.mul(r),
            (MaybeOwned::Owned(l), MaybeOwned::Borrowed(r)) => l.mul(r),
            (MaybeOwned::Borrowed(l), MaybeOwned::Owned(r)) => l.mul(r),
            (MaybeOwned::Borrowed(l), MaybeOwned::Borrowed(r)) => l.mul(r),
        };
        MaybeOwned::Owned(result)
    }
}

impl<'min, L, R, OUT: 'min> MulSpecImpl<MaybeOwnedMut<'min, R>> for MaybeOwnedMut<'min, L> where
    L: Mul<R, Output = OUT> + Mul<&'min R, Output = OUT>,
    &'min L: Mul<R, Output = OUT> + Mul<&'min R, Output = OUT>,
{
    /// `*` between two holders is specified where each of its four forms is.
    open spec fn obeys_mul_spec() -> bool {
        &&& <L as MulSpec<R>>::obeys_mul_spec()
        &&& <L as MulSpec<&'min R>>::obeys_mul_spec()
        &&& <&'min L as MulSpec<R>>::obeys_mul_spec()
        &&& <&'min L as MulSpec<&'min R>>::obeys_mul_spec()
    }

    /// What the form that the two holders select asks of its operands.
    open spec fn mul_req(self, rhs: MaybeOwnedMut<'min, R>) -> bool {
        match (self, rhs) {
            (MaybeOwnedMut::Owned(l), MaybeOwnedMut::Owned(r)) => l.mul_req(r),
            (MaybeOwnedMut::Owned(l), MaybeOwnedMut::Borrowed(r)) => l.mul_req(&*r),
            (MaybeOwnedMut::Borrowed(l), MaybeOwnedMut::Owned(r)) => (&*l).mul_req(r),
            (MaybeOwnedMut::Borrowed(l), MaybeOwnedMut::Borrowed(r)) => (&*l).mul_req(&*r),
        }
    }

    /// The result of the form that the two holders select, in an owned holder.
    open spec fn mul_spec(self, rhs: MaybeOwnedMut<'min, R>) -> MaybeOwnedMut<'min, OUT> {
        MaybeOwnedMut::Owned(
            match (self, rhs) {
                (MaybeOwnedMut::Owned(l), MaybeOwnedMut::Owned(r)) => l.mul_spec(r),
                (MaybeOwnedMut::Owned(l), MaybeOwnedMut::Borrowed(r)) => l.mul_spec(&*r),
                (MaybeOwnedMut::Borrowed(l), MaybeOwnedMut::Owned(r)) => (&*l).mul_spec(r),
                (MaybeOwnedMut::Borrowed(l), MaybeOwnedMut::Borrowed(r)) => (&*l).mul_spec(&*r),
            },
        )
    }
}

impl<'min, L, R, OUT: 'min> Mul<MaybeOwnedMut<'min, R>> for MaybeOwnedMut<'min, L> where
    L: Mul<R, Output = OUT> + Mul<&'min R, Output = OUT>,
    &'min L: Mul<R, Output = OUT> + Mul<&'min R, Output = OUT>,
{
    type Output = MaybeOwnedMut<'min, OUT>;

    /// Applies `*` to the values held, by the form that fits the way each is
    /// held, and returns the result in an owned holder.
    ///
    /// A borrowed operand is only read: its loan ends with the lent value as
    /// it was.
    fn mul(self, rhs: MaybeOwnedMut<'min, R>) -> (ret: MaybeOwnedMut<'min, OUT>)
        ensures
            ret.spec_is_owned(),
            match (self, rhs) {
                (MaybeOwnedMut::Owned(l), MaybeOwnedMut::Owned(r)) => {
                    &&& call_ensures(<L as Mul<R>>::mul, (l, r), ret@)
                    &&& <L as MulSpec<R>>::obeys_mul_spec()
                        ==> ret@ == l.mul_spec(r)
                },
                (MaybeOwnedMut::Owned(l), MaybeOwnedMut::Borrowed(r)) => {
                    &&& call_ensures(<L as Mul<&'min R>>::mul, (l, &*r), ret@)
                    &&& <L as MulSpec<&'min R>>::obeys_mul_spec()
                        ==> ret@ == l.mul_spec(&*r)
                },
                (MaybeOwnedMut::Borrowed(l), MaybeOwnedMut::Owned(r)) => {
                    &&& call_ensures(<&'min L as Mul<R>>::mul, (&*l, r), ret@)
                    &&& <&'min L as MulSpec<R>>::obeys_mul_spec()
                        ==> ret@ == (&*l).mul_spec(r)
                },
                (MaybeOwnedMut::Borrowed(l), MaybeOwnedMut::Borrowed(r)) => {
                    &&& call_ensures(<&'min L as Mul<&'min R>>::mul, (&*l, &*r), ret@)
                    &&& <&'min L as MulSpec<&'min R>>::obeys_mul_spec()
                        ==> ret@ == (&*l).mul_spec(&*r)
                },
            },
            self matches MaybeOwnedMut::Borrowed(lent) ==> mut_ref_future(lent) == *lent,
            rhs matches MaybeOwnedMut::Borrowed(lent) ==> mut_ref_future(lent) == *lent,
    {
        let result = match (self, rhs) {
            (MaybeOwnedMut::Owned(l), MaybeOwnedMut::Owned(r)) => l.mul(r),
            (MaybeOwnedMut::Owned(l), MaybeOwnedMut::Borrowed(r)) => l.mul(&*r),
            (MaybeOwnedMut::Borrowed(l), MaybeOwnedMut::Owned(r)) => (&*l).mul(r),
            (MaybeOwnedMut::Borrowed(l), MaybeOwnedMut::Borrowed(r)) => (&*l).mul(&*r),
        };
        MaybeOwnedMut::Owned(result)
    }
}

} // verus!
