//! `-` between holders.

use crate::immutable::MaybeOwned;
use crate::mutable::MaybeOwnedMut;
use core::ops::Sub;
use vstd::prelude::*;
use vstd::std_specs::ops::{SubSpec, SubSpecImpl};

verus! {

impl<'min, L, R, OUT: 'min> SubSpecImpl<MaybeOwned<'min, R>> for MaybeOwned<'min, L> where
    L: Sub<R, Output = OUT> + Sub<&'min R, Output = OUT>,
    &'min L: Sub<R, Output = OUT> + Sub<&'min R, Output = OUT>,
{
    /// `-` between two holders is specified where each of its four forms is.
    open spec fn obeys_sub_spec() -> bool {
        &&& <L as SubSpec<R>>::obeys_sub_spec()
        &&& <L as SubSpec<&'min R>>::obeys_sub_spec()
        &&& <&'min L as SubSpec<R>>::obeys_sub_spec()
        &&& <&'min L as SubSpec<&'min R>>::obeys_sub_spec()
    }

    /// What the form that the two holders select asks of its operands.
    open spec fn sub_req(self, rhs: MaybeOwned<'min, R>) -> bool {
        match (self, rhs) {
            (MaybeOwned::Owned(l), MaybeOwned::Owned(r)) => l.sub_req(r),
            (MaybeOwned::Owned(l), MaybeOwned::Borrowed(r)) => l.sub_req(r),
            (MaybeOwned::Borrowed(l), MaybeOwned::Owned(r)) => l.sub_req(r),
            (MaybeOwned::Borrowed(l), MaybeOwned::Borrowed(r)) => l.sub_req(r),
        }
    }

    /// The result of the form that the two holders select, in an owned holder.
    open spec fn sub_spec(self, rhs: MaybeOwned<'min, R>) -> MaybeOwned<'min, OUT> {
        MaybeOwned::Owned(
            match (self, rhs) {
                (MaybeOwned::Owned(l), MaybeOwned::Owned(r)) => l.sub_spec(r),
                (MaybeOwned::Owned(l), MaybeOwned::Borrowed(r)) => l.sub_spec(r),
                (MaybeOwned::Borrowed(l), MaybeOwned::Owned(r)) => l.sub_spec(r),
                (MaybeOwned::Borrowed(l), MaybeOwned::Borrowed(r)) => l.sub_spec(r),
            },
        )
    }
}

impl<'min, L, R, OUT: 'min> Sub<MaybeOwned<'min, R>> for MaybeOwned<'min, L> where
    L: Sub<R, Output = OUT> + Sub<&'min R, Output = OUT>,
    &'min L: Sub<R, Output = OUT> + Sub<&'min R, Output = OUT>,
{
    type Output = MaybeOwned<'min, OUT>;

    /// Applies `-` to the values held, by the form that fits the way each is
    /// held, and returns the result in an owned holder.
    fn sub(self, rhs: MaybeOwned<'min, R>) -> (ret: MaybeOwned<'min, OUT>)
        ensures
            ret.spec_is_owned(),
            match (self, rhs) {
                (MaybeOwned::Owned(l), MaybeOwned::Owned(r)) => {
                    &&& call_ensures(<L as Sub<R>>::sub, (l, r), ret@)
                    &&& <L as SubSpec<R>>::obeys_sub_spec()
                        ==> ret@ == l.sub_spec(r)
                },
                (MaybeOwned::Owned(l), MaybeOwned::Borrowed(r)) => {
                    &&& call_ensures(<L as Sub<&'min R>>::sub, (l, r), ret@)
                    &&& <L as SubSpec<&'min R>>::obeys_sub_spec()
                        ==> ret@ == l.sub_spec(r)
                },
                (MaybeOwned::Borrowed(l), MaybeOwned::Owned(r)) => {
                    &&& call_ensures(<&'min L as Sub<R>>::sub, (l, r), ret@)
                    &&& <&'min L as SubSpec<R>>::obeys_sub_spec()
                        ==> ret@ == l.sub_spec(r)
                },
                (MaybeOwned::Borrowed(l), MaybeOwned::Borrowed(r)) => {
                    &&& call_ensures(<&'min L as Sub<&'min R>>::sub, (l, r), ret@)
                    &&& <&'min L as SubSpec<&'min R>>::obeys_sub_spec()
                        ==> ret@ == l.sub_spec(r)
                },
            },
    {
        let result = match (self, rhs) {
            (MaybeOwned::Owned(l), MaybeOwned::Owned(r)) => l.sub(r),
            (MaybeOwned::Owned(l), MaybeOwned::Borrowed(r)) => l.sub(r),
            (MaybeOwned::Borrowed(l), MaybeOwned::Owned(r)) => l.sub(r),
            (MaybeOwned::Borrowed(l), MaybeOwned::Borrowed(r)) => l.sub(r),
        };
        MaybeOwned::Owned(result)
    }
}

impl<'min, L, R, OUT: 'min> SubSpecImpl<MaybeOwnedMut<'min, R>> for MaybeOwnedMut<'min, L> where
    L: Sub<R, Output = OUT> + Sub<&'min R, Output = OUT>,
    &'min L: Sub<R, Output = OUT> + Sub<&'min R, Output = OUT>,
{
    /// `-` between two holders is specified where each of its four forms is.
    open spec fn obeys_sub_spec() -> bool {
        &&& <L as SubSpec<R>>::obeys_sub_spec()
        &&& <L as SubSpec<&'min R>>::obeys_sub_spec()
        &&& <&'min L as SubSpec<R>>::obeys_sub_spec()
        &&& <&'min L as SubSpec<&'min R>>::obeys_sub_spec()
    }

    /// What the form that the two holders select asks of its operands.
    open spec fn sub_req(self, rhs: MaybeOwnedMut<'min, R>) -> bool {
        match (self, rhs) {
            (MaybeOwnedMut::Owned(l), MaybeOwnedMut::Owned(r)) => l.sub_req(r),
            (MaybeOwnedMut::Owned(l), MaybeOwnedMut::Borrowed(r)) => l.sub_req(&*r),
            (MaybeOwnedMut::Borrowed(l), MaybeOwnedMut::Owned(r)) => (&*l).sub_req(r),
            (MaybeOwnedMut::Borrowed(l), MaybeOwnedMut::Borrowed(r)) => (&*l).sub_req(&*r),
        }
    }

    /// The result of the form that the two holders select, in an owned holder.
    open spec fn sub_spec(self, rhs: MaybeOwnedMut<'min, R>) -> MaybeOwnedMut<'min, OUT> {
        MaybeOwnedMut::Owned(
            match (self, rhs) {
                (MaybeOwnedMut::Owned(l), MaybeOwnedMut::Owned(r)) => l.sub_spec(r),
                (MaybeOwnedMut::Owned(l), MaybeOwnedMut::Borrowed(r)) => l.sub_spec(&*r),
                (MaybeOwnedMut::Borrowed(l), MaybeOwnedMut::Owned(r)) => (&*l).sub_spec(r),
                (MaybeOwnedMut::Borrowed(l), MaybeOwnedMut::Borrowed(r)) => (&*l).sub_spec(&*r),
            },
        )
    }
}

impl<'min, L, R, OUT: 'min> Sub<MaybeOwnedMut<'min, R>> for MaybeOwnedMut<'min, L> where
    L: Sub<R, Output = OUT> + Sub<&'min R, Output = OUT>,
    &'min L: Sub<R, Output = OUT> + Sub<&'min R, Output = OUT>,
{
    type Output = MaybeOwnedMut<'min, OUT>;

    /// Applies `-` to the values held, by the form that fits the way each is
    /// held, and returns the result in an owned holder.
    ///
    /// A borrowed operand is only read: its loan ends with the lent value as
    /// it was.
    fn sub(self, rhs: MaybeOwnedMut<'min, R>) -> (ret: MaybeOwnedMut<'min, OUT>)
        ensures
            ret.spec_is_owned(),
            match (self, rhs) {
                (MaybeOwnedMut::Owned(l), MaybeOwnedMut::Owned(r)) => {
                    &&& call_ensures(<L as Sub<R>>::sub, (l, r), ret@)
                    &&& <L as SubSpec<R>>::obeys_sub_spec()
                        ==> ret@ == l.sub_spec(r)
                },
                (MaybeOwnedMut::Owned(l), MaybeOwnedMut::Borrowed(r)) => {
                    &&& call_ensures(<L as Sub<&'min R>>::sub, (l, &*r), ret@)
                    &&& <L as SubSpec<&'min R>>::obeys_sub_spec()
                        ==> ret@ == l.sub_spec(&*r)
                },
                (MaybeOwnedMut::Borrowed(l), MaybeOwnedMut::Owned(r)) => {
                    &&& call_ensures(<&'min L as Sub<R>>::sub, (&*l, r), ret@)
                    &&& <&'min L as SubSpec<R>>::obeys_sub_spec()
                        ==> ret@ == (&*l).sub_spec(r)
                },
                (MaybeOwnedMut::Borrowed(l), MaybeOwnedMut::Borrowed(r)) => {
                    &&& call_ensures(<&'min L as Sub<&'min R>>::sub, (&*l, &*r), ret@)
                    &&& <&'min L as SubSpec<&'min R>>::obeys_sub_spec()
                        ==> ret@ == (&*l).sub_spec(&*r)
                },
            },
            self matches MaybeOwnedMut::Borrowed(lent) ==> mut_ref_future(lent) == *lent,
            rhs matches MaybeOwnedMut::Borrowed(lent) ==> mut_ref_future(lent) == *lent,
    {
        let result = match (self, rhs) {
            (MaybeOwnedMut::Owned(l), MaybeOwnedMut::Owned(r)) => l.sub(r),
            (MaybeOwnedMut::Owned(l), MaybeOwnedMut::Borrowed(r)) => l.sub(&*r),
            (MaybeOwnedMut::Borrowed(l), MaybeOwnedMut::Owned(r)) => (&*l).sub(r),
            (MaybeOwnedMut::Borrowed(l), MaybeOwnedMut::Borrowed(r)) => (&*l).sub(&*r),
        };
        MaybeOwnedMut::Owned(result)
    }
}

} // verus!
