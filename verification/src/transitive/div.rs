//! `/` between holders.

use crate::immutable::MaybeOwned;
use crate::mutable::MaybeOwnedMut;
use core::ops::Div;
use vstd::prelude::*;
use vstd::std_specs::ops::{DivSpec, DivSpecImpl};

verus! {

impl<'min, L, R, OUT: 'min> DivSpecImpl<MaybeOwned<'min, R>> for MaybeOwned<'min, L> where
    L: Div<R, Output = OUT> + Div<&'min R, Output = OUT>,
    &'min L: Div<R, Output = OUT> + Div<&'min R, Output = OUT>,
{
    /// `/` between two holders is specified where each of its four forms is.
    open spec fn obeys_div_spec() -> bool {
        &&& <L as DivSpec<R>>::obeys_div_spec()
        &&& <L as DivSpec<&'min R>>::obeys_div_spec()
        &&& <&'min L as DivSpec<R>>::obeys_div_spec()
        &&& <&'min L as DivSpec<&'min R>>::obeys_div_spec()
    }

    /// What the form that the two holders select asks of its operands.
    open spec fn div_req(self, rhs: MaybeOwned<'min, R>) -> bool {
        match (self, rhs) {
            (MaybeOwned::Owned(l), MaybeOwned::Owned(r)) => l.div_req(r),
            (MaybeOwned::Owned(l), MaybeOwned::Borrowed(r)) => l.div_req(r),
            (MaybeOwned::Borrowed(l), MaybeOwned::Owned(r)) => l.div_req(r),
            (MaybeOwned::Borrowed(l), MaybeOwned::Borrowed(r)) => l.div_req(r),
        }
    }

    /// The result of the form that the two holders select, in an owned holder.
    open spec fn div_spec(self, rhs: MaybeOwned<'min, R>) -> MaybeOwned<'min, OUT> {
        MaybeOwned::Owned(
            match (self, rhs) {
                (MaybeOwned::Owned(l), MaybeOwned::Owned(r)) => l.div_spec(r),
                (MaybeOwned::Owned(l), MaybeOwned::Borrowed(r)) => l.div_spec(r),
                (MaybeOwned::Borrowed(l), MaybeOwned::Owned(r)) => l.div_spec(r),
                (MaybeOwned::Borrowed(l), MaybeOwned::Borrowed(r)) => l.div_spec(r),
            },
        )
    }
}

impl<'min, L, R, OUT: 'min> Div<MaybeOwned<'min, R>> for MaybeOwned<'min, L> where
    L: Div<R, Output = OUT> + Div<&'min R, Output = OUT>,
    &'min L: Div<R, Output = OUT> + Div<&'min R, Output = OUT>,
{
    type Output = MaybeOwned<'min, OUT>;

    /// Applies `/` to the values held, by the form that fits the way each is
    /// held, and returns the result in an owned holder.
    fn div(self, rhs: MaybeOwned<'min, R>) -> (ret: MaybeOwned<'min, OUT>)
        ensures
            ret.spec_is_owned(),
            match (self, rhs) {
                (MaybeOwned::Owned(l), MaybeOwned::Owned(r)) => {
                    &&& call_ensures(<L as Div<R>>::div, (l, r), ret@)
                    &&& <L as DivSpec<R>>::obeys_div_spec()
                        ==> ret@ == l.div_spec(r)
                },
                (MaybeOwned::Owned(l), MaybeOwned::Borrowed(r)) => {
                    &&& call_ensures(<L as Div<&'min R>>::div, (l, r), ret@)
                    &&& <L as DivSpec<&'min R>>::obeys_div_spec()
                        ==> ret@ == l.div_spec(r)
                },
                (MaybeOwned::Borrowed(l), MaybeOwned::Owned(r)) => {
                    &&& call_ensures(<&'min L as Div<R>>::div, (l, r), ret@)
                    &&& <&'min L as DivSpec<R>>::obeys_div_spec()
                        ==> ret@ == l.div_spec(r)
                },
                (MaybeOwned::Borrowed(l), MaybeOwned::Borrowed(r)) => {
                    &&& call_ensures(<&'min L as Div<&'min R>>::div, (l, r), ret@)
                    &&& <&'min L as DivSpec<&'min R>>::obeys_div_spec()
                        ==> ret@ == l.div_spec(r)
                },
            },
    {
        let result = match (self, rhs) {
            (MaybeOwned::Owned(l), MaybeOwned::Owned(r)) => l.div(r),
            (MaybeOwned::Owned(l), MaybeOwned::Borrowed(r)) => l.div(r),
            (MaybeOwned::Borrowed(l), MaybeOwned::Owned(r)) => l.div(r),
            (MaybeOwned::Borrowed(l), MaybeOwned::Borrowed(r)) => l.div(r),
        };
        MaybeOwned::Owned(result)
    }
}

impl<'min, L, R, OUT: 'min> DivSpecImpl<MaybeOwnedMut<'min, R>> for MaybeOwnedMut<'min, L> where
    L: Div<R, Output = OUT> + Div<&'min R, Output = OUT>,
    &'min L: Div<R, Output = OUT> + Div<&'min R, Output = OUT>,
{
    /// `/` between two holders is specified where each of its four forms is.
    open spec fn obeys_div_spec() -> bool {
        &&& <L as DivSpec<R>>::obeys_div_spec()
        &&& <L as DivSpec<&'min R>>::obeys_div_spec()
        &&& <&'min L as DivSpec<R>>::obeys_div_spec()
        &&& <&'min L as DivSpec<&'min R>>::obeys_div_spec()
    }

    /// What the form that the two holders select asks of its operands.
    open spec fn div_req(self, rhs: MaybeOwnedMut<'min, R>) -> bool {
        match (self, rhs) {
            (MaybeOwnedMut::Owned(l), MaybeOwnedMut::Owned(r)) => l.div_req(r),
            (MaybeOwnedMut::Owned(l), MaybeOwnedMut::Borrowed(r)) => l.div_req(&*r),
            (MaybeOwnedMut::Borrowed(l), MaybeOwnedMut::Owned(r)) => (&*l).div_req(r),
            (MaybeOwnedMut::Borrowed(l), MaybeOwnedMut::Borrowed(r)) => (&*l).div_req(&*r),
        }
    }

    /// The result of the form that the two holders select, in an owned holder.
    open spec fn div_spec(self, rhs: MaybeOwnedMut<'min, R>) -> MaybeOwnedMut<'min, OUT> {
        MaybeOwnedMut::Owned(
            match (self, rhs) {
                (MaybeOwnedMut::Owned(l), MaybeOwnedMut::Owned(r)) => l.div_spec(r),
                (MaybeOwnedMut::Owned(l), MaybeOwnedMut::Borrowed(r)) => l.div_spec(&*r),
                (MaybeOwnedMut::Borrowed(l), MaybeOwnedMut::Owned(r)) => (&*l).div_spec(r),
                (MaybeOwnedMut::Borrowed(l), MaybeOwnedMut::Borrowed(r)) => (&*l).div_spec(&*r),
            },
        )
    }
}

impl<'min, L, R, OUT: 'min> Div<MaybeOwnedMut<'min, R>> for MaybeOwnedMut<'min, L> where
    L: Div<R, Output = OUT> + Div<&'min R, Output = OUT>,
    &'min L: Div<R, Output = OUT> + Div<&'min R, Output = OUT>,
{
    type Output = MaybeOwnedMut<'min, OUT>;

    /// Applies `/` to the values held, by the form that fits the way each is
    /// held, and returns the result in an owned holder.
    ///
    /// A borrowed operand is only read: its loan ends with the lent value as
    /// it was.
    fn div(self, rhs: MaybeOwnedMut<'min, R>) -> (ret: MaybeOwnedMut<'min, OUT>)
        ensures
            ret.spec_is_owned(),
            match (self, rhs) {
                (MaybeOwnedMut::Owned(l), MaybeOwnedMut::Owned(r)) => {
                    &&& call_ensures(<L as Div<R>>::div, (l, r), ret@)
                    &&& <L as DivSpec<R>>::obeys_div_spec()
                        ==> ret@ == l.div_spec(r)
                },
                (MaybeOwnedMut::Owned(l), MaybeOwnedMut::Borrowed(r)) => {
                    &&& call_ensures(<L as Div<&'min R>>::div, (l, &*r), ret@)
                    &&& <L as DivSpec<&'min R>>::obeys_div_spec()
                        ==> ret@ == l.div_spec(&*r)
                },
                (MaybeOwnedMut::Borrowed(l), MaybeOwnedMut::Owned(r)) => {
                    &&& call_ensures(<&'min L as Div<R>>::div, (&*l, r), ret@)
                    &&& <&'min L as DivSpec<R>>::obeys_div_spec()
                        ==> ret@ == (&*l).div_spec(r)
                },
                (MaybeOwnedMut::Borrowed(l), MaybeOwnedMut::Borrowed(r)) => {
                    &&& call_ensures(<&'min L as Div<&'min R>>::div, (&*l, &*r), ret@)
                    &&& <&'min L as DivSpec<&'min R>>::obeys_div_spec()
                        ==> ret@ == (&*l).div_spec(&*r)
                },
            },
            self matches MaybeOwnedMut::Borrowed(lent) ==> mut_ref_future(lent) == *lent,
            rhs matches MaybeOwnedMut::Borrowed(lent) ==> mut_ref_future(lent) == *lent,
    {
        let result = match (self, rhs) {
            (MaybeOwnedMut::Owned(l), MaybeOwnedMut::Owned(r)) => l.div(r),
            (MaybeOwnedMut::Owned(l), MaybeOwnedMut::Borrowed(r)) => l.div(&*r),
            (MaybeOwnedMut::Borrowed(l), MaybeOwnedMut::Owned(r)) => (&*l).div(r),
            (MaybeOwnedMut::Borrowed(l), MaybeOwnedMut::Borrowed(r)) => (&*l).div(&*r),
        };
        MaybeOwnedMut::Owned(result)
    }
}

} // verus!
