//! `>>` between holders.

use crate::immutable::MaybeOwned;
use crate::mutable::MaybeOwnedMut;
use core::ops::Shr;
use vstd::prelude::*;
use vstd::std_specs::ops::{ShrSpec, ShrSpecImpl};

verus! {

impl<'min, L, R, OUT: 'min> ShrSpecImpl<MaybeOwned<'min, R>> for MaybeOwned<'min, L> where
    L: Shr<R, Output = OUT> + Shr<&'min R, Output = OUT>,
    &'min L: Shr<R, Output = OUT> + Shr<&'min R, Output = OUT>,
{
    /// `>>` between two holders is specified where each of its four forms is.
    open spec fn obeys_shr_spec() -> bool {
        &&& <L as ShrSpec<R>>::obeys_shr_spec()
        &&& <L as ShrSpec<&'min R>>::obeys_shr_spec()
        &&& <&'min L as ShrSpec<R>>::obeys_shr_spec()
        &&& <&'min L as ShrSpec<&'min R>>::obeys_shr_spec()
    }

    /// What the form that the two holders select asks of its operands.
    open spec fn shr_req(self, rhs: MaybeOwned<'min, R>) -> bool {
        match (self, rhs) {
            (MaybeOwned::Owned(l), MaybeOwned::Owned(r)) => l.shr_req(r),
            (MaybeOwned::Owned(l), MaybeOwned::Borrowed(r)) => l.shr_req(r),
            (MaybeOwned::Borrowed(l), MaybeOwned::Owned(r)) => l.shr_req(r),
            (MaybeOwned::Borrowed(l), MaybeOwned::Borrowed(r)) => l.shr_req(r),
        }
    }

    /// The result of the form that the two holders select, in an owned holder.
    open spec fn shr_spec(self, rhs: MaybeOwned<'min, R>) -> MaybeOwned<'min, OUT> {
        MaybeOwned::Owned(
            match (self, rhs) {
                (MaybeOwned::Owned(l), MaybeOwned::Owned(r)) => l.shr_spec(r),
                (MaybeOwned::Owned(l), MaybeOwned::Borrowed(r)) => l.shr_spec(r),
                (MaybeOwned::Borrowed(l), MaybeOwned::Owned(r)) => l.shr_spec(r),
                (MaybeOwned::Borrowed(l), MaybeOwned::Borrowed(r)) => l.shr_spec(r),
            },
        )
    }
}

impl<'min, L, R, OUT: 'min> Shr<MaybeOwned<'min, R>> for MaybeOwned<'min, L> where
    L: Shr<R, Output = OUT> + Shr<&'min R, Output = OUT>,
    &'min L: Shr<R, Output = OUT> + Shr<&'min R, Output = OUT>,
{
    type Output = MaybeOwned<'min, OUT>;

    /// Applies `>>` to the values held, by the form that fits the way each is
    /// held, and returns the result in an owned holder.
    fn shr(self, rhs: MaybeOwned<'min, R>) -> (ret: MaybeOwned<'min, OUT>)
        ensures
            ret.spec_is_owned(),
            match (self, rhs) {
                (MaybeOwned::Owned(l), MaybeOwned::Owned(r)) => {
                    &&& call_ensures(<L as Shr<R>>::shr, (l, r), ret@)
                    &&& <L as ShrSpec<R>>::obeys_shr_spec()
                        ==> ret@ == l.shr_spec(r)
                },
                (MaybeOwned::Owned(l), MaybeOwned::Borrowed(r)) => {
                    &&& call_ensures(<L as Shr<&'min R>>::shr, (l, r), ret@)
                    &&& <L as ShrSpec<&'min R>>::obeys_shr_spec()
                        ==> ret@ == l.shr_spec(r)
                },
                (MaybeOwned::Borrowed(l), MaybeOwned::Owned(r)) => {
                    &&& call_ensures(<&'min L as Shr<R>>::shr, (l, r), ret@)
                    &&& <&'min L as ShrSpec<R>>::obeys_shr_spec()
                        ==> ret@ == l.shr_spec(r)
                },
                (MaybeOwned::Borrowed(l), MaybeOwned::Borrowed(r)) => {
                    &&& call_ensures(<&'min L as Shr<&'min R>>::shr, (l, r), ret@)
                    &&& <&'min L as ShrSpec<&'min R>>::obeys_shr_spec()
                        ==> ret@ == l.shr_spec(r)
                },
            },
    {
        let result = match (self, rhs) {
            (MaybeOwned::Owned(l), MaybeOwned::Owned(r)) => l.shr(r),
            (MaybeOwned::Owned(l), MaybeOwned::Borrowed(r)) => l.shr(r),
            (MaybeOwned::Borrowed(l), MaybeOwned::Owned(r)) => l.shr(r),
            (MaybeOwned::Borrowed(l), MaybeOwned::Borrowed(r)) => l.shr(r),
        };
        MaybeOwned::Owned(result)
    }
}

impl<'min, L, R, OUT: 'min> ShrSpecImpl<MaybeOwnedMut<'min, R>> for MaybeOwnedMut<'min, L> where
    L: Shr<R, Output = OUT> + Shr<&'min R, Output = OUT>,
    &'min L: Shr<R, Output = OUT> + Shr<&'min R, Output = OUT>,
{
    /// `>>` between two holders is specified where each of its four forms is.
    open spec fn obeys_shr_spec() -> bool {
        &&& <L as ShrSpec<R>>::obeys_shr_spec()
        &&& <L as ShrSpec<&'min R>>::obeys_shr_spec()
        &&& <&'min L as ShrSpec<R>>::obeys_shr_spec()
        &&& <&'min L as ShrSpec<&'min R>>::obeys_shr_spec()
    }

    /// What the form that the two holders select asks of its operands.
    open spec fn shr_req(self, rhs: MaybeOwnedMut<'min, R>) -> bool {
        match (self, rhs) {
            (MaybeOwnedMut::Owned(l), MaybeOwnedMut::Owned(r)) => l.shr_req(r),
            (MaybeOwnedMut::Owned(l), MaybeOwnedMut::Borrowed(r)) => l.shr_req(&*r),
            (MaybeOwnedMut::Borrowed(l), MaybeOwnedMut::Owned(r)) => (&*l).shr_req(r),
            (MaybeOwnedMut::Borrowed(l), MaybeOwnedMut::Borrowed(r)) => (&*l).shr_req(&*r),
        }
    }

    /// The result of the form that the two holders select, in an owned holder.
    open spec fn shr_spec(self, rhs: MaybeOwnedMut<'min, R>) -> MaybeOwnedMut<'min, OUT> {
        MaybeOwnedMut::Owned(
            match (self, rhs) {
                (MaybeOwnedMut::Owned(l), MaybeOwnedMut::Owned(r)) => l.shr_spec(r),
                (MaybeOwnedMut::Owned(l), MaybeOwnedMut::Borrowed(r)) => l.shr_spec(&*r),
                (MaybeOwnedMut::Borrowed(l), MaybeOwnedMut::Owned(r)) => (&*l).shr_spec(r),
                (MaybeOwnedMut::Borrowed(l), MaybeOwnedMut::Borrowed(r)) => (&*l).shr_spec(&*r),
            },
        )
    }
}

impl<'min, L, R, OUT: 'min> Shr<MaybeOwnedMut<'min, R>> for MaybeOwnedMut<'min, L> where
    L: Shr<R, Output = OUT> + Shr<&'min R, Output = OUT>,
    &'min L: Shr<R, Output = OUT> + Shr<&'min R, Output = OUT>,
{
    type Output = MaybeOwnedMut<'min, OUT>;

    /// Applies `>>` to the values held, by the form that fits the way each is
    /// held, and returns the result in an owned holder.
    ///
    /// A borrowed operand is only read: its loan ends with the lent value as
    /// it was.
    fn shr(self, rhs: MaybeOwnedMut<'min, R>) -> (ret: MaybeOwnedMut<'min, OUT>)
        ensures
            ret.spec_is_owned(),
            match (self, rhs) {
                (MaybeOwnedMut::Owned(l), MaybeOwnedMut::Owned(r)) => {
                    &&& call_ensures(<L as Shr<R>>::shr, (l, r), ret@)
                    &&& <L as ShrSpec<R>>::obeys_shr_spec()
                        ==> ret@ == l.shr_spec(r)
                },
                (MaybeOwnedMut::Owned(l), MaybeOwnedMut::Borrowed(r)) => {
                    &&& call_ensures(<L as Shr<&'min R>>::shr, (l, &*r), ret@)
                    &&& <L as ShrSpec<&'min R>>::obeys_shr_spec()
                        ==> ret@ == l.shr_spec(&*r)
                },
                (MaybeOwnedMut::Borrowed(l), MaybeOwnedMut::Owned(r)) => {
                    &&& call_ensures(<&'min L as Shr<R>>::shr, (&*l, r), ret@)
                    &&& <&'min L as ShrSpec<R>>::obeys_shr_spec()
                        ==> ret@ == (&*l).shr_spec(r)
                },
                (MaybeOwnedMut::Borrowed(l), MaybeOwnedMut::Borrowed(r)) => {
                    &&& call_ensures(<&'min L as Shr<&'min R>>::shr, (&*l, &*r), ret@)
                    &&& <&'min L as ShrSpec<&'min R>>::obeys_shr_spec()
                        ==> ret@ == (&*l).shr_spec(&*r)
                },
            },
            self matches MaybeOwnedMut::Borrowed(lent) ==> mut_ref_future(lent) == *lent,
            rhs matches MaybeOwnedMut::Borrowed(lent) ==> mut_ref_future(lent) == *lent,
    {
        let result = match (self, rhs) {
            (MaybeOwnedMut::Owned(l), MaybeOwnedMut::Owned(r)) => l.shr(r),
            (MaybeOwnedMut::Owned(l), MaybeOwnedMut::Borrowed(r)) => l.shr(&*r),
            (MaybeOwnedMut::Borrowed(l), MaybeOwnedMut::Owned(r)) => (&*l).shr(r),
            (MaybeOwnedMut::Borrowed(l), MaybeOwnedMut::Borrowed(r)) => (&*l).shr(&*r),
        };
        MaybeOwnedMut::Owned(result)
    }
}

} // verus!
