//! `<<` between holders.

use crate::immutable::MaybeOwned;
use crate::mutable::MaybeOwnedMut;
use core::ops::Shl;
use vstd::prelude::*;
use vstd::std_specs::ops::{ShlSpec, ShlSpecImpl};

verus! {

impl<'min, L, R, OUT: 'min> ShlSpecImpl<MaybeOwned<'min, R>> for MaybeOwned<'min, L> where
    L: Shl<R, Output = OUT> + Shl<&'min R, Output = OUT>,
    &'min L: Shl<R, Output = OUT> + Shl<&'min R, Output = OUT>,
{
    /// `<<` between two holders is specified where each of its four forms is.
    open spec fn obeys_shl_spec() -> bool {
        &&& <L as ShlSpec<R>>::obeys_shl_spec()
        &&& <L as ShlSpec<&'min R>>::obeys_shl_spec()
        &&& <&'min L as ShlSpec<R>>::obeys_shl_spec()
        &&& <&'min L as ShlSpec<&'min R>>::obeys_shl_spec()
    }

    /// What the form that the two holders select asks of its operands.
    open spec fn shl_req(self, rhs: MaybeOwned<'min, R>) -> bool {
        match (self, rhs) {
            (MaybeOwned::Owned(l), MaybeOwned::Owned(r)) => l.shl_req(r),
            (MaybeOwned::Owned(l), MaybeOwned::Borrowed(r)) => l.shl_req(r),
            (MaybeOwned::Borrowed(l), MaybeOwned::Owned(r)) => l.shl_req(r),
            (MaybeOwned::Borrowed(l), MaybeOwned::Borrowed(r)) => l.shl_req(r),
        }
    }

    /// The result of the form that the two holders select, in an owned holder.
    open spec fn shl_spec(self, rhs: MaybeOwned<'min, R>) -> MaybeOwned<'min, OUT> {
        MaybeOwned::Owned(
            match (self, rhs) {
                (MaybeOwned::Owned(l), MaybeOwned::Owned(r)) => l.shl_spec(r),
                (MaybeOwned::Owned(l), MaybeOwned::Borrowed(r)) => l.shl_spec(r),
                (MaybeOwned::Borrowed(l), MaybeOwned::Owned(r)) => l.shl_spec(r),
                (MaybeOwned::Borrowed(l), MaybeOwned::Borrowed(r)) => l.shl_spec(r),
            },
        )
    }
}

impl<'min, L, R, OUT: 'min> Shl<MaybeOwned<'min, R>> for MaybeOwned<'min, L> where
    L: Shl<R, Output = OUT> + Shl<&'min R, Output = OUT>,
    &'min L: Shl<R, Output = OUT> + Shl<&'min R, Output = OUT>,
{
    type Output = MaybeOwned<'min, OUT>;

    /// Applies `<<` to the values held, by the form that fits the way each is
    /// held, and returns the result in an owned holder.
    fn shl(self, rhs: MaybeOwned<'min, R>) -> (ret: MaybeOwned<'min, OUT>)
        ensures
            ret.spec_is_owned(),
            match (self, rhs) {
                (MaybeOwned::Owned(l), MaybeOwned::Owned(r)) => {
                    &&& call_ensures(<L as Shl<R>>::shl, (l, r), ret@)
                    &&& <L as ShlSpec<R>>::obeys_shl_spec()
                        ==> ret@ == l.shl_spec(r)
                },
                (MaybeOwned::Owned(l), MaybeOwned::Borrowed(r)) => {
                    &&& call_ensures(<L as Shl<&'min R>>::shl, (l, r), ret@)
                    &&& <L as ShlSpec<&'min R>>::obeys_shl_spec()
                        ==> ret@ == l.shl_spec(r)
                },
                (MaybeOwned::Borrowed(l), MaybeOwned::Owned(r)) => {
                    &&& call_ensures(<&'min L as Shl<R>>::shl, (l, r), ret@)
                    &&& <&'min L as ShlSpec<R>>::obeys_shl_spec()
                        ==> ret@ == l.shl_spec(r)
                },
                (MaybeOwned::Borrowed(l), MaybeOwned::Borrowed(r)) => {
                    &&& call_ensures(<&'min L as Shl<&'min R>>::shl, (l, r), ret@)
                    &&& <&'min L as ShlSpec<&'min R>>::obeys_shl_spec()
                        ==> ret@ == l.shl_spec(r)
                },
            },
    {
        let result = match (self, rhs) {
            (MaybeOwned::Owned(l), MaybeOwned::Owned(r)) => l.shl(r),
            (MaybeOwned::Owned(l), MaybeOwned::Borrowed(r)) => l.shl(r),
            (MaybeOwned::Borrowed(l), MaybeOwned::Owned(r)) => l.shl(r),
            (MaybeOwned::Borrowed(l), MaybeOwned::Borrowed(r)) => l.shl(r),
        };
        MaybeOwned::Owned(result)
    }
}

impl<'min, L, R, OUT: 'min> ShlSpecImpl<MaybeOwnedMut<'min, R>> for MaybeOwnedMut<'min, L> where
    L: Shl<R, Output = OUT> + Shl<&'min R, Output = OUT>,
    &'min L: Shl<R, Output = OUT> + Shl<&'min R, Output = OUT>,
{
    /// `<<` between two holders is specified where each of its four forms is.
    open spec fn obeys_shl_spec() -> bool {
        &&& <L as ShlSpec<R>>::obeys_shl_spec()
        &&& <L as ShlSpec<&'min R>>::obeys_shl_spec()
        &&& <&'min L as ShlSpec<R>>::obeys_shl_spec()
        &&& <&'min L as ShlSpec<&'min R>>::obeys_shl_spec()
    }

    /// What the form that the two holders select asks of its operands.
    open spec fn shl_req(self, rhs: MaybeOwnedMut<'min, R>) -> bool {
        match (self, rhs) {
            (MaybeOwnedMut::Owned(l), MaybeOwnedMut::Owned(r)) => l.shl_req(r),
            (MaybeOwnedMut::Owned(l), MaybeOwnedMut::Borrowed(r)) => l.shl_req(&*r),
            (MaybeOwnedMut::Borrowed(l), MaybeOwnedMut::Owned(r)) => (&*l).shl_req(r),
            (MaybeOwnedMut::Borrowed(l), MaybeOwnedMut::Borrowed(r)) => (&*l).shl_req(&*r),
        }
    }

    /// The result of the form that the two holders select, in an owned holder.
    open spec fn shl_spec(self, rhs: MaybeOwnedMut<'min, R>) -> MaybeOwnedMut<'min, OUT> {
        MaybeOwnedMut::Owned(
            match (self, rhs) {
                (MaybeOwnedMut::Owned(l), MaybeOwnedMut::Owned(r)) => l.shl_spec(r),
                (MaybeOwnedMut::Owned(l), MaybeOwnedMut::Borrowed(r)) => l.shl_spec(&*r),
                (MaybeOwnedMut::Borrowed(l), MaybeOwnedMut::Owned(r)) => (&*l).shl_spec(r),
                (MaybeOwnedMut::Borrowed(l), MaybeOwnedMut::Borrowed(r)) => (&*l).shl_spec(&*r),
            },
        )
    }
}

impl<'min, L, R, OUT: 'min> Shl<MaybeOwnedMut<'min, R>> for MaybeOwnedMut<'min, L> where
    L: Shl<R, Output = OUT> + Shl<&'min R, Output = OUT>,
    &'min L: Shl<R, Output = OUT> + Shl<&'min R, Output = OUT>,
{
    type Output = MaybeOwnedMut<'min, OUT>;

    /// Applies `<<` to the values held, by the form that fits the way each is
    /// held, and returns the result in an owned holder.
    ///
    /// A borrowed operand is only read: its loan ends with the lent value as
    /// it was.
    fn shl(self, rhs: MaybeOwnedMut<'min, R>) -> (ret: MaybeOwnedMut<'min, OUT>)
        ensures
            ret.spec_is_owned(),
            match (self, rhs) {
                (MaybeOwnedMut::Owned(l), MaybeOwnedMut::Owned(r)) => {
                    &&& call_ensures(<L as Shl<R>>::shl, (l, r), ret@)
                    &&& <L as ShlSpec<R>>::obeys_shl_spec()
                        ==> ret@ == l.shl_spec(r)
                },
                (MaybeOwnedMut::Owned(l), MaybeOwnedMut::Borrowed(r)) => {
                    &&& call_ensures(<L as Shl<&'min R>>::shl, (l, &*r), ret@)
                    &&& <L as ShlSpec<&'min R>>::obeys_shl_spec()
                        ==> ret@ == l.shl_spec(&*r)
                },
                (MaybeOwnedMut::Borrowed(l), MaybeOwnedMut::Owned(r)) => {
                    &&& call_ensures(<&'min L as Shl<R>>::shl, (&*l, r), ret@)
                    &&& <&'min L as ShlSpec<R>>::obeys_shl_spec()
                        ==> ret@ == (&*l).shl_spec(r)
                },
                (MaybeOwnedMut::Borrowed(l), MaybeOwnedMut::Borrowed(r)) => {
                    &&& call_ensures(<&'min L as Shl<&'min R>>::shl, (&*l, &*r), ret@)
                    &&& <&'min L as ShlSpec<&'min R>>::obeys_shl_spec()
                        ==> ret@ == (&*l).shl_spec(&*r)
                },
            },
            self matches MaybeOwnedMut::Borrowed(lent) ==> mut_ref_future(lent) == *lent,
            rhs matches MaybeOwnedMut::Borrowed(lent) ==> mut_ref_future(lent) == *lent,
    {
        let result = match (self, rhs) {
            (MaybeOwnedMut::Owned(l), MaybeOwnedMut::Owned(r)) => l.shl(r),
            (MaybeOwnedMut::Owned(l), MaybeOwnedMut::Borrowed(r)) => l.shl(&*r),
            (MaybeOwnedMut::Borrowed(l), MaybeOwnedMut::Owned(r)) => (&*l).shl(r),
            (MaybeOwnedMut::Borrowed(l), MaybeOwnedMut::Borrowed(r)) => (&*l).shl(&*r),
        };
        MaybeOwnedMut::Owned(result)
    }
}

} // verus!
