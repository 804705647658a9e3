//! `|` and `|=` between holders.

use crate::contained::bitor_assign_to;
use crate::immutable::MaybeOwned;
use crate::mutable::MaybeOwnedMut;
use core::ops::{BitOr, BitOrAssign};
use vstd::prelude::*;
use vstd::std_specs::ops::{BitOrSpec, BitOrSpecImpl};

verus! {

impl<'min, L, R, OUT: 'min> BitOrSpecImpl<MaybeOwned<'min, R>> for MaybeOwned<'min, L> where
    L: BitOr<R, Output = OUT> + BitOr<&'min R, Output = OUT>,
    &'min L: BitOr<R, Output = OUT> + BitOr<&'min R, Output = OUT>,
{
    /// `|` between two holders is specified where each of its four forms is.
    open spec fn obeys_bitor_spec() -> bool {
        &&& <L as BitOrSpec<R>>::obeys_bitor_spec()
        &&& <L as BitOrSpec<&'min R>>::obeys_bitor_spec()
        &&& <&'min L as BitOrSpec<R>>::obeys_bitor_spec()
        &&& <&'min L as BitOrSpec<&'min R>>::obeys_bitor_spec()
    }

    /// What the form that the two holders select asks of its operands.
    open spec fn bitor_req(self, rhs: MaybeOwned<'min, R>) -> bool {
        match (self, rhs) {
            (MaybeOwned::Owned(l), MaybeOwned::Owned(r)) => l.bitor_req(r),
            (MaybeOwned::Owned(l), MaybeOwned::Borrowed(r)) => l.bitor_req(r),
            (MaybeOwned::Borrowed(l), MaybeOwned::Owned(r)) => l.bitor_req(r),
            (MaybeOwned::Borrowed(l), MaybeOwned::Borrowed(r)) => l.bitor_req(r),
        }
    }

    /// The result of the form that the two holders select, in an owned holder.
    open spec fn bitor_spec(self, rhs: MaybeOwned<'min, R>) -> MaybeOwned<'min, OUT> {
        MaybeOwned::Owned(
            match (self, rhs) {
                (MaybeOwned::Owned(l), MaybeOwned::Owned(r)) => l.bitor_spec(r),
                (MaybeOwned::Owned(l), MaybeOwned::Borrowed(r)) => l.bitor_spec(r),
                (MaybeOwned::Borrowed(l), MaybeOwned::Owned(r)) => l.bitor_spec(r),
                (MaybeOwned::Borrowed(l), MaybeOwned::Borrowed(r)) => l.bitor_spec(r),
            },
        )
    }
}

impl<'min, L, R, OUT: 'min> BitOr<MaybeOwned<'min, R>> for MaybeOwned<'min, L> where
    L: BitOr<R, Output = OUT> + BitOr<&'min R, Output = OUT>,
    &'min L: BitOr<R, Output = OUT> + BitOr<&'min R, Output = OUT>,
{
    type Output = MaybeOwned<'min, OUT>;

    /// Applies `|` to the values held, by the form that fits the way each is
    /// held, and returns the result in an owned holder.
    fn bitor(self, rhs: MaybeOwned<'min, R>) -> (ret: MaybeOwned<'min, OUT>)
        ensures
            ret.spec_is_owned(),
            match (self, rhs) {
                (MaybeOwned::Owned(l), MaybeOwned::Owned(r)) => {
                    &&& call_ensures(<L as BitOr<R>>::bitor, (l, r), ret@)
                    &&& <L as BitOrSpec<R>>::obeys_bitor_spec()
                        ==> ret@ == l.bitor_spec(r)
                },
                (MaybeOwned::Owned(l), MaybeOwned::Borrowed(r)) => {
                    &&& call_ensures(<L as BitOr<&'min R>>::bitor, (l, r), ret@)
                    &&& <L as BitOrSpec<&'min R>>::obeys_bitor_spec()
                        ==> ret@ == l.bitor_spec(r)
                },
                (MaybeOwned::Borrowed(l), MaybeOwned::Owned(r)) => {
                    &&& call_ensures(<&'min L as BitOr<R>>::bitor, (l, r), ret@)
                    &&& <&'min L as BitOrSpec<R>>::obeys_bitor_spec()
                        ==> ret@ == l.bitor_spec(r)
                },
                (MaybeOwned::Borrowed(l), MaybeOwned::Borrowed(r)) => {
                    &&& call_ensures(<&'min L as BitOr<&'min R>>::bitor, (l, r), ret@)
                    &&& <&'min L as BitOrSpec<&'min R>>::obeys_bitor_spec()
                        ==> ret@ == l.bitor_spec(r)
                },
            },
    {
        let result = match (self, rhs) {
            (MaybeOwned::Owned(l), MaybeOwned::Owned(r)) => l.bitor(r),
            (MaybeOwned::Owned(l), MaybeOwned::Borrowed(r)) => l.bitor(r),
            (MaybeOwned::Borrowed(l), MaybeOwned::Owned(r)) => l.bitor(r),
            (MaybeOwned::Borrowed(l), MaybeOwned::Borrowed(r)) => l.bitor(r),
        };
        MaybeOwned::Owned(result)
    }
}

impl<'min, L, R, OUT: 'min> BitOrSpecImpl<MaybeOwnedMut<'min, R>> for MaybeOwnedMut<'min, L> where
    L: BitOr<R, Output = OUT> + BitOr<&'min R, Output = OUT>,
    &'min L: BitOr<R, Output = OUT> + BitOr<&'min R, Output = OUT>,
{
    /// `|` between two holders is specified where each of its four forms is.
    open spec fn obeys_bitor_spec() -> bool {
        &&& <L as BitOrSpec<R>>::obeys_bitor_spec()
        &&& <L as BitOrSpec<&'min R>>::obeys_bitor_spec()
        &&& <&'min L as BitOrSpec<R>>::obeys_bitor_spec()
        &&& <&'min L as BitOrSpec<&'min R>>::obeys_bitor_spec()
    }

    /// What the form that the two holders select asks of its operands.
    open spec fn bitor_req(self, rhs: MaybeOwnedMut<'min, R>) -> bool {
        match (self, rhs) {
            (MaybeOwnedMut::Owned(l), MaybeOwnedMut::Owned(r)) => l.bitor_req(r),
            (MaybeOwnedMut::Owned(l), MaybeOwnedMut::Borrowed(r)) => l.bitor_req(&*r),
            (MaybeOwnedMut::Borrowed(l), MaybeOwnedMut::Owned(r)) => (&*l).bitor_req(r),
            (MaybeOwnedMut::Borrowed(l), MaybeOwnedMut::Borrowed(r)) => (&*l).bitor_req(&*r),
        }
    }

    /// The result of the form that the two holders select, in an owned holder.
    open spec fn bitor_spec(self, rhs: MaybeOwnedMut<'min, R>) -> MaybeOwnedMut<'min, OUT> {
        MaybeOwnedMut::Owned(
            match (self, rhs) {
                (MaybeOwnedMut::Owned(l), MaybeOwnedMut::Owned(r)) => l.bitor_spec(r),
                (MaybeOwnedMut::Owned(l), MaybeOwnedMut::Borrowed(r)) => l.bitor_spec(&*r),
                (MaybeOwnedMut::Borrowed(l), MaybeOwnedMut::Owned(r)) => (&*l).bitor_spec(r),
                (MaybeOwnedMut::Borrowed(l), MaybeOwnedMut::Borrowed(r)) => (&*l).bitor_spec(&*r),
            },
        )
    }
}

impl<'min, L, R, OUT: 'min> BitOr<MaybeOwnedMut<'min, R>> for MaybeOwnedMut<'min, L> where
    L: BitOr<R, Output = OUT> + BitOr<&'min R, Output = OUT>,
    &'min L: BitOr<R, Output = OUT> + BitOr<&'min R, Output = OUT>,
{
    type Output = MaybeOwnedMut<'min, OUT>;

    /// Applies `|` to the values held, by the form that fits the way each is
    /// held, and returns the result in an owned holder.
    ///
    /// A borrowed operand is only read: its loan ends with the lent value as
    /// it was.
    fn bitor(self, rhs: MaybeOwnedMut<'min, R>) -> (ret: MaybeOwnedMut<'min, OUT>)
        ensures
            ret.spec_is_owned(),
            match (self, rhs) {
                (MaybeOwnedMut::Owned(l), MaybeOwnedMut::Owned(r)) => {
                    &&& call_ensures(<L as BitOr<R>>::bitor, (l, r), ret@)
                    &&& <L as BitOrSpec<R>>::obeys_bitor_spec()
                        ==> ret@ == l.bitor_spec(r)
                },
                (MaybeOwnedMut::Owned(l), MaybeOwnedMut::Borrowed(r)) => {
                    &&& call_ensures(<L as BitOr<&'min R>>::bitor, (l, &*r), ret@)
                    &&& <L as BitOrSpec<&'min R>>::obeys_bitor_spec()
                        ==> ret@ == l.bitor_spec(&*r)
                },
                (MaybeOwnedMut::Borrowed(l), MaybeOwnedMut::Owned(r)) => {
                    &&& call_ensures(<&'min L as BitOr<R>>::bitor, (&*l, r), ret@)
                    &&& <&'min L as BitOrSpec<R>>::obeys_bitor_spec()
                        ==> ret@ == (&*l).bitor_spec(r)
                },
                (MaybeOwnedMut::Borrowed(l), MaybeOwnedMut::Borrowed(r)) => {
                    &&& call_ensures(<&'min L as BitOr<&'min R>>::bitor, (&*l, &*r), ret@)
                    &&& <&'min L as BitOrSpec<&'min R>>::obeys_bitor_spec()
                        ==> ret@ == (&*l).bitor_spec(&*r)
                },
            },
            self matches MaybeOwnedMut::Borrowed(lent) ==> mut_ref_future(lent) == *lent,
            rhs matches MaybeOwnedMut::Borrowed(lent) ==> mut_ref_future(lent) == *lent,
    {
        let result = match (self, rhs) {
            (MaybeOwnedMut::Owned(l), MaybeOwnedMut::Owned(r)) => l.bitor(r),
            (MaybeOwnedMut::Owned(l), MaybeOwnedMut::Borrowed(r)) => l.bitor(&*r),
            (MaybeOwnedMut::Borrowed(l), MaybeOwnedMut::Owned(r)) => (&*l).bitor(r),
            (MaybeOwnedMut::Borrowed(l), MaybeOwnedMut::Borrowed(r)) => (&*l).bitor(&*r),
        };
        MaybeOwnedMut::Owned(result)
    }
}

impl<'min, L, R> BitOrAssign<MaybeOwned<'min, R>> for MaybeOwned<'min, L> where
    L: Clone + BitOrAssign<R> + BitOrAssign<&'min R>,
{
    /// Applies `|=` of the contained type to the value held, with the right
    /// value by value if it is owned and by reference if it is borrowed.
    ///
    /// The holder does not write to a value it has borrowed: it first turns
    /// into its owned form, which clones a borrowed value, and is owned
    /// afterwards.
    fn bitor_assign(&mut self, rhs: MaybeOwned<'min, R>)
        ensures
            final(self).spec_is_owned(),
    {
        match rhs {
            MaybeOwned::Owned(r) => bitor_assign_to(self.make_owned(), r),
            MaybeOwned::Borrowed(r) => bitor_assign_to(self.make_owned(), r),
        }
    }
}

impl<'min, L, R> BitOrAssign<MaybeOwnedMut<'min, R>> for MaybeOwnedMut<'min, L> where
    L: BitOrAssign<R> + BitOrAssign<&'min R>,
{
    /// Applies `|=` of the contained type to the value held, with the right
    /// value by value if it is owned and by reference if it is borrowed.
    ///
    /// The holder stays in the state it is in: a borrowing holder writes
    /// through its reference, so that the lender finds the result, and
    /// nothing is cloned. A borrowed right operand is only read.
    fn bitor_assign(&mut self, rhs: MaybeOwnedMut<'min, R>)
        ensures
            final(self).spec_is_owned() == old(self).spec_is_owned(),
            *old(self) matches MaybeOwnedMut::Borrowed(lent) ==> {
                &&& *final(self) matches MaybeOwnedMut::Borrowed(kept)
                &&& mut_ref_future(kept) == mut_ref_future(lent)
            },
            rhs matches MaybeOwnedMut::Borrowed(lent) ==> mut_ref_future(lent) == *lent,
    {
        match rhs {
            MaybeOwnedMut::Owned(r) => bitor_assign_to(self.as_mut(), r),
            MaybeOwnedMut::Borrowed(r) => bitor_assign_to(self.as_mut(), &*r),
        }
    }
}

} // verus!
