//! `+` between holders.

use crate::immutable::MaybeOwned;
use crate::mutable::MaybeOwnedMut;
use core::ops::Add;
use vstd::prelude::*;
use vstd::std_specs::ops::{AddSpec, AddSpecImpl};

verus! {

impl<'min, L, R, OUT: 'min> AddSpecImpl<MaybeOwned<'min, R>> for MaybeOwned<'min, L> where
    L: Add<R, Output = OUT> + Add<&'min R, Output = OUT>,
    &'min L: Add<R, Output = OUT> + Add<&'min R, Output = OUT>,
{
    /// `+` between two holders is specified where each of its four forms is.
    open spec fn obeys_add_spec() -> bool {
        &&& <L as AddSpec<R>>::obeys_add_spec()
        &&& <L as AddSpec<&'min R>>::obeys_add_spec()
        &&& <&'min L as AddSpec<R>>::obeys_add_spec()
        &&& <&'min L as AddSpec<&'min R>>::obeys_add_spec()
    }

    /// What the form that the two holders select asks of its operands.
    open spec fn add_req(self, rhs: MaybeOwned<'min, R>) -> bool {
        match (self, rhs) {
            (MaybeOwned::Owned(l), MaybeOwned::Owned(r)) => l.add_req(r),
            (MaybeOwned::Owned(l), MaybeOwned::Borrowed(r)) => l.add_req(r),
            (MaybeOwned::Borrowed(l), MaybeOwned::Owned(r)) => l.add_req(r),
            (MaybeOwned::Borrowed(l), MaybeOwned::Borrowed(r)) => l.add_req(r),
        }
    }

    /// The result of the form that the two holders select, in an owned holder.
    open spec fn add_spec(self, rhs: MaybeOwned<'min, R>) -> MaybeOwned<'min, OUT> {
        MaybeOwned::Owned(
            match (self, rhs) {
                (MaybeOwned::Owned(l), MaybeOwned::Owned(r)) => l.add_spec(r),
                (MaybeOwned::Owned(l), MaybeOwned::Borrowed(r)) => l.add_spec(r),
                (MaybeOwned::Borrowed(l), MaybeOwned::Owned(r)) => l.add_spec(r),
                (MaybeOwned::Borrowed(l), MaybeOwned::Borrowed(r)) => l.add_spec(r),
            },
        )
    }
}

impl<'min, L, R, OUT: 'min> Add<MaybeOwned<'min, R>> for MaybeOwned<'min, L> where
    L: Add<R, Output = OUT> + Add<&'min R, Output = OUT>,
    &'min L: Add<R, Output = OUT> + Add<&'min R, Output = OUT>,
{
    type Output = MaybeOwned<'min, OUT>;

    /// Applies `+` to the values held, by the form that fits the way each is
    /// held, and returns the result in an owned holder.
    fn add(self, rhs: MaybeOwned<'min, R>) -> (ret: MaybeOwned<'min, OUT>)
        ensures
            ret.spec_is_owned(),
            match (self, rhs) {
                (MaybeOwned::Owned(l), MaybeOwned::Owned(r)) => {
                    &&& call_ensures(<L as Add<R>>::add, (l, r), ret@)
                    &&& <L as AddSpec<R>>::obeys_add_spec()
                        ==> ret@ == l.add_spec(r)
                },
                (MaybeOwned::Owned(l), MaybeOwned::Borrowed(r)) => {
                    &&& call_ensures(<L as Add<&'min R>>::add, (l, r), ret@)
                    &&& <L as AddSpec<&'min R>>::obeys_add_spec()
                        ==> ret@ == l.add_spec(r)
                },
                (MaybeOwned::Borrowed(l), MaybeOwned::Owned(r)) => {
                    &&& call_ensures(<&'min L as Add<R>>::add, (l, r), ret@)
                    &&& <&'min L as AddSpec<R>>::obeys_add_spec()
                        ==> ret@ == l.add_spec(r)
                },
                (MaybeOwned::Borrowed(l), MaybeOwned::Borrowed(r)) => {
                    &&& call_ensures(<&'min L as Add<&'min R>>::add, (l, r), ret@)
                    &&& <&'min L as AddSpec<&'min R>>::obeys_add_spec()
                        ==> ret@ == l.add_spec(r)
                },
            },
    {
        let result = match (self, rhs) {
            (MaybeOwned::Owned(l), MaybeOwned::Owned(r)) => l.add(r),
            (MaybeOwned::Owned(l), MaybeOwned::Borrowed(r)) => l.add(r),
            (MaybeOwned::Borrowed(l), MaybeOwned::Owned(r)) => l.add(r),
            (MaybeOwned::Borrowed(l), MaybeOwned::Borrowed(r)) => l.add(r),
        };
        MaybeOwned::Owned(result)
    }
}

impl<'min, L, R, OUT: 'min> AddSpecImpl<MaybeOwnedMut<'min, R>> for MaybeOwnedMut<'min, L> where
    L: Add<R, Output = OUT> + Add<&'min R, Output = OUT>,
    &'min L: Add<R, Output = OUT> + Add<&'min R, Output = OUT>,
{
    /// `+` between two holders is specified where each of its four forms is.
    open spec fn obeys_add_spec() -> bool {
        &&& <L as AddSpec<R>>::obeys_add_spec()
        &&& <L as AddSpec<&'min R>>::obeys_add_spec()
        &&& <&'min L as AddSpec<R>>::obeys_add_spec()
        &&& <&'min L as AddSpec<&'min R>>::obeys_add_spec()
    }

    /// What the form that the two holders select asks of its operands.
    open spec fn add_req(self, rhs: MaybeOwnedMut<'min, R>) -> bool {
        match (self, rhs) {
            (MaybeOwnedMut::Owned(l), MaybeOwnedMut::Owned(r)) => l.add_req(r),
            (MaybeOwnedMut::Owned(l), MaybeOwnedMut::Borrowed(r)) => l.add_req(&*r),
            (MaybeOwnedMut::Borrowed(l), MaybeOwnedMut::Owned(r)) => (&*l).add_req(r),
            (MaybeOwnedMut::Borrowed(l), MaybeOwnedMut::Borrowed(r)) => (&*l).add_req(&*r),
        }
    }

    /// The result of the form that the two holders select, in an owned holder.
    open spec fn add_spec(self, rhs: MaybeOwnedMut<'min, R>) -> MaybeOwnedMut<'min, OUT> {
        MaybeOwnedMut::Owned(
            match (self, rhs) {
                (MaybeOwnedMut::Owned(l), MaybeOwnedMut::Owned(r)) => l.add_spec(r),
                (MaybeOwnedMut::Owned(l), MaybeOwnedMut::Borrowed(r)) => l.add_spec(&*r),
                (MaybeOwnedMut::Borrowed(l), MaybeOwnedMut::Owned(r)) => (&*l).add_spec(r),
                (MaybeOwnedMut::Borrowed(l), MaybeOwnedMut::Borrowed(r)) => (&*l).add_spec(&*r),
            },
        )
    }
}

impl<'min, L, R, OUT: 'min> Add<MaybeOwnedMut<'min, R>> for MaybeOwnedMut<'min, L> where
    L: Add<R, Output = OUT> + Add<&'min R, Output = OUT>,
    &'min L: Add<R, Output = OUT> + Add<&'min R, Output = OUT>,
{
    type Output = MaybeOwnedMut<'min, OUT>;

    /// Applies `+` to the values held, by the form that fits the way each is
    /// held, and returns the result in an owned holder.
    ///
    /// A borrowed operand is only read: its loan ends with the lent value as
    /// it was.
    fn add(self, rhs: MaybeOwnedMut<'min, R>) -> (ret: MaybeOwnedMut<'min, OUT>)
        ensures
            ret.spec_is_owned(),
            match (self, rhs) {
                (MaybeOwnedMut::Owned(l), MaybeOwnedMut::Owned(r)) => {
                    &&& call_ensures(<L as Add<R>>::add, (l, r), ret@)
                    &&& <L as AddSpec<R>>::obeys_add_spec()
                        ==> ret@ == l.add_spec(r)
                },
                (MaybeOwnedMut::Owned(l), MaybeOwnedMut::Borrowed(r)) => {
                    &&& call_ensures(<L as Add<&'min R>>::add, (l, &*r), ret@)
                    &&& <L as AddSpec<&'min R>>::obeys_add_spec()
                        ==> ret@ == l.add_spec(&*r)
                },
                (MaybeOwnedMut::Borrowed(l), MaybeOwnedMut::Owned(r)) => {
                    &&& call_ensures(<&'min L as Add<R>>::add, (&*l, r), ret@)
                    &&& <&'min L as AddSpec<R>>::obeys_add_spec()
                        ==> ret@ == (&*l).add_spec(r)
                },
                (MaybeOwnedMut::Borrowed(l), MaybeOwnedMut::Borrowed(r)) => {
                    &&& call_ensures(<&'min L as Add<&'min R>>::add, (&*l, &*r), ret@)
                    &&& <&'min L as AddSpec<&'min R>>::obeys_add_spec()
                        ==> ret@ == (&*l).add_spec(&*r)
                },
            },
            self matches MaybeOwnedMut::Borrowed(lent) ==> mut_ref_future(lent) == *lent,
            rhs matches MaybeOwnedMut::Borrowed(lent) ==> mut_ref_future(lent) == *lent,
    {
        let result = match (self, rhs) {
            (MaybeOwnedMut::Owned(l), MaybeOwnedMut::Owned(r)) => l.add(r),
            (MaybeOwnedMut::Owned(l), MaybeOwnedMut::Borrowed(r)) => l.add(&*r),
            (MaybeOwnedMut::Borrowed(l), MaybeOwnedMut::Owned(r)) => (&*l).add(r),
            (MaybeOwnedMut::Borrowed(l), MaybeOwnedMut::Borrowed(r)) => (&*l).add(&*r),
        };
        MaybeOwnedMut::Owned(result)
    }
}

} // verus!
