//! `&` and `&=` between holders.

use crate::contained::bitand_assign_to;
use crate::immutable::MaybeOwned;
use crate::mutable::MaybeOwnedMut;
use core::ops::{BitAnd, BitAndAssign};
use vstd::prelude::*;
use vstd::std_specs::ops::{BitAndSpec, BitAndSpecImpl};

verus! {

impl<'min, L, R, OUT: 'min> BitAndSpecImpl<MaybeOwned<'min, R>> for MaybeOwned<'min, L> where
    L: BitAnd<R, Output = OUT> + BitAnd<&'min R, Output = OUT>,
    &'min L: BitAnd<R, Output = OUT> + BitAnd<&'min R, Output = OUT>,
{
    /// `&` between two holders is specified where each of its four forms is.
    open spec fn obeys_bitand_spec() -> bool {
        &&& <L as BitAndSpec<R>>::obeys_bitand_spec()
        &&& <L as BitAndSpec<&'min R>>::obeys_bitand_spec()
        &&& <&'min L as BitAndSpec<R>>::obeys_bitand_spec()
        &&& <&'min L as BitAndSpec<&'min R>>::obeys_bitand_spec()
    }

    /// What the form that the two holders select asks of its operands.
    open spec fn bitand_req(self, rhs: MaybeOwned<'min, R>) -> bool {
        match (self, rhs) {
            (MaybeOwned::Owned(l), MaybeOwned::Owned(r)) => l.bitand_req(r),
            (MaybeOwned::Owned(l), MaybeOwned::Borrowed(r)) => l.bitand_req(r),
            (MaybeOwned::Borrowed(l), MaybeOwned::Owned(r)) => l.bitand_req(r),
            (MaybeOwned::Borrowed(l), MaybeOwned::Borrowed(r)) => l.bitand_req(r),
        }
    }

    /// The result of the form that the two holders select, in an owned holder.
    open spec fn bitand_spec(self, rhs: MaybeOwned<'min, R>) -> MaybeOwned<'min, OUT> {
        MaybeOwned::Owned(
            match (self, rhs) {
                (MaybeOwned::Owned(l), MaybeOwned::Owned(r)) => l.bitand_spec(r),
                (MaybeOwned::Owned(l), MaybeOwned::Borrowed(r)) => l.bitand_spec(r),
                (MaybeOwned::Borrowed(l), MaybeOwned::Owned(r)) => l.bitand_spec(r),
                (MaybeOwned::Borrowed(l), MaybeOwned::Borrowed(r)) => l.bitand_spec(r),
            },
        )
    }
}

impl<'min, L, R, OUT: 'min> BitAnd<MaybeOwned<'min, R>> for MaybeOwned<'min, L> where
    L: BitAnd<R, Output = OUT> + BitAnd<&'min R, Output = OUT>,
    &'min L: BitAnd<R, Output = OUT> + BitAnd<&'min R, Output = OUT>,
{
    type Output = MaybeOwned<'min, OUT>;

    /// Applies `&` to the values held, by the form that fits the way each is
    /// held, and returns the result in an owned holder.
    fn bitand(self, rhs: MaybeOwned<'min, R>) -> (ret: MaybeOwned<'min, OUT>)
        ensures
            ret.spec_is_owned(),
            match (self, rhs) {
                (MaybeOwned::Owned(l), MaybeOwned::Owned(r)) => {
                    &&& call_ensures(<L as BitAnd<R>>::bitand, (l, r), ret@)
                    &&& <L as BitAndSpec<R>>::obeys_bitand_spec()
                        ==> ret@ == l.bitand_spec(r)
                },
                (MaybeOwned::Owned(l), MaybeOwned::Borrowed(r)) => {
                    &&& call_ensures(<L as BitAnd<&'min R>>::bitand, (l, r), ret@)
                    &&& <L as BitAndSpec<&'min R>>::obeys_bitand_spec()
                        ==> ret@ == l.bitand_spec(r)
                },
                (MaybeOwned::Borrowed(l), MaybeOwned::Owned(r)) => {
                    &&& call_ensures(<&'min L as BitAnd<R>>::bitand, (l, r), ret@)
                    &&& <&'min L as BitAndSpec<R>>::obeys_bitand_spec()
                        ==> ret@ == l.bitand_spec(r)
                },
                (MaybeOwned::Borrowed(l), MaybeOwned::Borrowed(r)) => {
                    &&& call_ensures(<&'min L as BitAnd<&'min R>>::bitand, (l, r), ret@)
                    &&& <&'min L as BitAndSpec<&'min R>>::obeys_bitand_spec()
                        ==> ret@ == l.bitand_spec(r)
                },
            },
    {
        let result = match (self, rhs) {
            (MaybeOwned::Owned(l), MaybeOwned::Owned(r)) => l.bitand(r),
            (MaybeOwned::Owned(l), MaybeOwned::Borrowed(r)) => l.bitand(r),
            (MaybeOwned::Borrowed(l), MaybeOwned::Owned(r)) => l.bitand(r),
            (MaybeOwned::Borrowed(l), MaybeOwned::Borrowed(r)) => l.bitand(r),
        };
        MaybeOwned::Owned(result)
    }
}

impl<'min, L, R, OUT: 'min> BitAndSpecImpl<MaybeOwnedMut<'min, R>> for MaybeOwnedMut<'min, L> where
    L: BitAnd<R, Output = OUT> + BitAnd<&'min R, Output = OUT>,
    &'min L: BitAnd<R, Output = OUT> + BitAnd<&'min R, Output = OUT>,
{
    /// `&` between two holders is specified where each of its four forms is.
    open spec fn obeys_bitand_spec() -> bool {
        &&& <L as BitAndSpec<R>>::obeys_bitand_spec()
        &&& <L as BitAndSpec<&'min R>>::obeys_bitand_spec()
        &&& <&'min L as BitAndSpec<R>>::obeys_bitand_spec()
        &&& <&'min L as BitAndSpec<&'min R>>::obeys_bitand_spec()
    }

    /// What the form that the two holders select asks of its operands.
    open spec fn bitand_req(self, rhs: MaybeOwnedMut<'min, R>) -> bool {
        match (self, rhs) {
            (MaybeOwnedMut::Owned(l), MaybeOwnedMut::Owned(r)) => l.bitand_req(r),
            (MaybeOwnedMut::Owned(l), MaybeOwnedMut::Borrowed(r)) => l.bitand_req(&*r),
            (MaybeOwnedMut::Borrowed(l), MaybeOwnedMut::Owned(r)) => (&*l).bitand_req(r),
            (MaybeOwnedMut::Borrowed(l), MaybeOwnedMut::Borrowed(r)) => (&*l).bitand_req(&*r),
        }
    }

    /// The result of the form that the two holders select, in an owned holder.
    open spec fn bitand_spec(self, rhs: MaybeOwnedMut<'min, R>) -> MaybeOwnedMut<'min, OUT> {
        MaybeOwnedMut::Owned(
            match (self, rhs) {
                (MaybeOwnedMut::Owned(l), MaybeOwnedMut::Owned(r)) => l.bitand_spec(r),
                (MaybeOwnedMut::Owned(l), MaybeOwnedMut::Borrowed(r)) => l.bitand_spec(&*r),
                (MaybeOwnedMut::Borrowed(l), MaybeOwnedMut::Owned(r)) => (&*l).bitand_spec(r),
                (MaybeOwnedMut::Borrowed(l), MaybeOwnedMut::Borrowed(r)) => (&*l).bitand_spec(&*r),
            },
        )
    }
}

impl<'min, L, R, OUT: 'min> BitAnd<MaybeOwnedMut<'min, R>> for MaybeOwnedMut<'min, L> where
    L: BitAnd<R, Output = OUT> + BitAnd<&'min R, Output = OUT>,
    &'min L: BitAnd<R, Output = OUT> + BitAnd<&'min R, Output = OUT>,
{
    type Output = MaybeOwnedMut<'min, OUT>;

    /// Applies `&` to the values held, by the form that fits the way each is
    /// held, and returns the result in an owned holder.
    ///
    /// A borrowed operand is only read: its loan ends with the lent value as
    /// it was.
    fn bitand(self, rhs: MaybeOwnedMut<'min, R>) -> (ret: MaybeOwnedMut<'min, OUT>)
        ensures
            ret.spec_is_owned(),
            match (self, rhs) {
                (MaybeOwnedMut::Owned(l), MaybeOwnedMut::Owned(r)) => {
                    &&& call_ensures(<L as BitAnd<R>>::bitand, (l, r), ret@)
                    &&& <L as BitAndSpec<R>>::obeys_bitand_spec()
                        ==> ret@ == l.bitand_spec(r)
                },
                (MaybeOwnedMut::Owned(l), MaybeOwnedMut::Borrowed(r)) => {
                    &&& call_ensures(<L as BitAnd<&'min R>>::bitand, (l, &*r), ret@)
                    &&& <L as BitAndSpec<&'min R>>::obeys_bitand_spec()
                        ==> ret@ == l.bitand_spec(&*r)
                },
                (MaybeOwnedMut::Borrowed(l), MaybeOwnedMut::Owned(r)) => {
                    &&& call_ensures(<&'min L as BitAnd<R>>::bitand, (&*l, r), ret@)
                    &&& <&'min L as BitAndSpec<R>>::obeys_bitand_spec()
                        ==> ret@ == (&*l).bitand_spec(r)
                },
                (MaybeOwnedMut::Borrowed(l), MaybeOwnedMut::Borrowed(r)) => {
                    &&& call_ensures(<&'min L as BitAnd<&'min R>>::bitand, (&*l, &*r), ret@)
                    &&& <&'min L as BitAndSpec<&'min R>>::obeys_bitand_spec()
                        ==> ret@ == (&*l).bitand_spec(&*r)
                },
            },
            self matches MaybeOwnedMut::Borrowed(lent) ==> mut_ref_future(lent) == *lent,
            rhs matches MaybeOwnedMut::Borrowed(lent) ==> mut_ref_future(lent) == *lent,
    {
        let result = match (self, rhs) {
            (MaybeOwnedMut::Owned(l), MaybeOwnedMut::Owned(r)) => l.bitand(r),
            (MaybeOwnedMut::Owned(l), MaybeOwnedMut::Borrowed(r)) => l.bitand(&*r),
            (MaybeOwnedMut::Borrowed(l), MaybeOwnedMut::Owned(r)) => (&*l).bitand(r),
            (MaybeOwnedMut::Borrowed(l), MaybeOwnedMut::Borrowed(r)) => (&*l).bitand(&*r),
        };
        MaybeOwnedMut::Owned(result)
    }
}

impl<'min, L, R> BitAndAssign<MaybeOwned<'min, R>> for MaybeOwned<'min, L> where
    L: Clone + BitAndAssign<R> + BitAndAssign<&'min R>,
{
    /// Applies `&=` of the contained type to the value held, with the right
    /// value by value if it is owned and by reference if it is borrowed.
    ///
    /// The holder does not write to a value it has borrowed: it first turns
    /// into its owned form, which clones a borrowed value, and is owned
    /// afterwards.
    fn bitand_assign(&mut self, rhs: MaybeOwned<'min, R>)
        ensures
            final(self).spec_is_owned(),
    {
        match rhs {
            MaybeOwned::Owned(r) => bitand_assign_to(self.make_owned(), r),
            MaybeOwned::Borrowed(r) => bitand_assign_to(self.make_owned(), r),
        }
    }
}

impl<'min, L, R> BitAndAssign<MaybeOwnedMut<'min, R>> for MaybeOwnedMut<'min, L> where
    L: BitAndAssign<R> + BitAndAssign<&'min R>,
{
    /// Applies `&=` of the contained type to the value held, with the right
    /// value by value if it is owned and by reference if it is borrowed.
    ///
    /// The holder stays in the state it is in: a borrowing holder writes
    /// through its reference, so that the lender finds the result, and
    /// nothing is cloned. A borrowed right operand is only read.
    fn bitand_assign(&mut self, rhs: MaybeOwnedMut<'min, R>)
        ensures
            final(self).spec_is_owned() == old(self).spec_is_owned(),
            *old(self) matches MaybeOwnedMut::Borrowed(lent) ==> {
                &&& *final(self) matches MaybeOwnedMut::Borrowed(kept)
                &&& mut_ref_future(kept) == mut_ref_future(lent)
            },
            rhs matches MaybeOwnedMut::Borrowed(lent) ==> mut_ref_future(lent) == *lent,
    {
        match rhs {
            MaybeOwnedMut::Owned(r) => bitand_assign_to(self.as_mut(), r),
            MaybeOwnedMut::Borrowed(r) => bitand_assign_to(self.as_mut(), &*r),
        }
    }
}

} // verus!
