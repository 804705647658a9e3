//! `^` and `^=` between holders.

use crate::contained::bitxor_assign_to;
use crate::immutable::MaybeOwned;
use crate::mutable::MaybeOwnedMut;
use core::ops::{BitXor, BitXorAssign};
use vstd::prelude::*;
use vstd::std_specs::ops::{BitXorSpec, BitXorSpecImpl};

verus! {

impl<'min, L, R, OUT: 'min> BitXorSpecImpl<MaybeOwned<'min, R>> for MaybeOwned<'min, L> where
    L: BitXor<R, Output = OUT> + BitXor<&'min R, Output = OUT>,
    &'min L: BitXor<R, Output = OUT> + BitXor<&'min R, Output = OUT>,
{
    /// `^` between two holders is specified where each of its four forms is.
    open spec fn obeys_bitxor_spec() -> bool {
        &&& <L as BitXorSpec<R>>::obeys_bitxor_spec()
        &&& <L as BitXorSpec<&'min R>>::obeys_bitxor_spec()
        &&& <&'min L as BitXorSpec<R>>::obeys_bitxor_spec()
        &&& <&'min L as BitXorSpec<&'min R>>::obeys_bitxor_spec()
    }

    /// What the form that the two holders select asks of its operands.
    open spec fn bitxor_req(self, rhs: MaybeOwned<'min, R>) -> bool {
        match (self, rhs) {
            (MaybeOwned::Owned(l), MaybeOwned::Owned(r)) => l.bitxor_req(r),
            (MaybeOwned::Owned(l), MaybeOwned::Borrowed(r)) => l.bitxor_req(r),
            (MaybeOwned::Borrowed(l), MaybeOwned::Owned(r)) => l.bitxor_req(r),
            (MaybeOwned::Borrowed(l), MaybeOwned::Borrowed(r)) => l.bitxor_req(r),
        }
    }

    /// The result of the form that the two holders select, in an owned holder.
    open spec fn bitxor_spec(self, rhs: MaybeOwned<'min, R>) -> MaybeOwned<'min, OUT> {
        MaybeOwned::Owned(
            match (self, rhs) {
                (MaybeOwned::Owned(l), MaybeOwned::Owned(r)) => l.bitxor_spec(r),
                (MaybeOwned::Owned(l), MaybeOwned::Borrowed(r)) => l.bitxor_spec(r),
                (MaybeOwned::Borrowed(l), MaybeOwned::Owned(r)) => l.bitxor_spec(r),
                (MaybeOwned::Borrowed(l), MaybeOwned::Borrowed(r)) => l.bitxor_spec(r),
            },
        )
    }
}

impl<'min, L, R, OUT: 'min> BitXor<MaybeOwned<'min, R>> for MaybeOwned<'min, L> where
    L: BitXor<R, Output = OUT> + BitXor<&'min R, Output = OUT>,
    &'min L: BitXor<R, Output = OUT> + BitXor<&'min R, Output = OUT>,
{
    type Output = MaybeOwned<'min, OUT>;

    /// Applies `^` to the values held, by the form that fits the way each is
    /// held, and returns the result in an owned holder.
    fn bitxor(self, rhs: MaybeOwned<'min, R>) -> (ret: MaybeOwned<'min, OUT>)
        ensures
            ret.spec_is_owned(),
            match (self, rhs) {
                (MaybeOwned::Owned(l), MaybeOwned::Owned(r)) => {
                    &&& call_ensures(<L as BitXor<R>>::bitxor, (l, r), ret@)
                    &&& <L as BitXorSpec<R>>::obeys_bitxor_spec()
                        ==> ret@ == l.bitxor_spec(r)
                },
                (MaybeOwned::Owned(l), MaybeOwned::Borrowed(r)) => {
                    &&& call_ensures(<L as BitXor<&'min R>>::bitxor, (l, r), ret@)
                    &&& <L as BitXorSpec<&'min R>>::obeys_bitxor_spec()
                        ==> ret@ == l.bitxor_spec(r)
                },
                (MaybeOwned::Borrowed(l), MaybeOwned::Owned(r)) => {
                    &&& call_ensures(<&'min L as BitXor<R>>::bitxor, (l, r), ret@)
                    &&& <&'min L as BitXorSpec<R>>::obeys_bitxor_spec()
                        ==> ret@ == l.bitxor_spec(r)
                },
                (MaybeOwned::Borrowed(l), MaybeOwned::Borrowed(r)) => {
                    &&& call_ensures(<&'min L as BitXor<&'min R>>::bitxor, (l, r), ret@)
                    &&& <&'min L as BitXorSpec<&'min R>>::obeys_bitxor_spec()
                        ==> ret@ == l.bitxor_spec(r)
                },
            },
    {
        let result = match (self, rhs) {
            (MaybeOwned::Owned(l), MaybeOwned::Owned(r)) => l.bitxor(r),
            (MaybeOwned::Owned(l), MaybeOwned::Borrowed(r)) => l.bitxor(r),
            (MaybeOwned::Borrowed(l), MaybeOwned::Owned(r)) => l.bitxor(r),
            (MaybeOwned::Borrowed(l), MaybeOwned::Borrowed(r)) => l.bitxor(r),
        };
        MaybeOwned::Owned(result)
    }
}

impl<'min, L, R, OUT: 'min> BitXorSpecImpl<MaybeOwnedMut<'min, R>> for MaybeOwnedMut<'min, L> where
    L: BitXor<R, Output = OUT> + BitXor<&'min R, Output = OUT>,
    &'min L: BitXor<R, Output = OUT> + BitXor<&'min R, Output = OUT>,
{
    /// `^` between two holders is specified where each of its four forms is.
    open spec fn obeys_bitxor_spec() -> bool {
        &&& <L as BitXorSpec<R>>::obeys_bitxor_spec()
        &&& <L as BitXorSpec<&'min R>>::obeys_bitxor_spec()
        &&& <&'min L as BitXorSpec<R>>::obeys_bitxor_spec()
        &&& <&'min L as BitXorSpec<&'min R>>::obeys_bitxor_spec()
    }

    /// What the form that the two holders select asks of its operands.
    open spec fn bitxor_req(self, rhs: MaybeOwnedMut<'min, R>) -> bool {
        match (self, rhs) {
            (MaybeOwnedMut::Owned(l), MaybeOwnedMut::Owned(r)) => l.bitxor_req(r),
            (MaybeOwnedMut::Owned(l), MaybeOwnedMut::Borrowed(r)) => l.bitxor_req(&*r),
            (MaybeOwnedMut::Borrowed(l), MaybeOwnedMut::Owned(r)) => (&*l).bitxor_req(r),
            (MaybeOwnedMut::Borrowed(l), MaybeOwnedMut::Borrowed(r)) => (&*l).bitxor_req(&*r),
        }
    }

    /// The result of the form that the two holders select, in an owned holder.
    open spec fn bitxor_spec(self, rhs: MaybeOwnedMut<'min, R>) -> MaybeOwnedMut<'min, OUT> {
        MaybeOwnedMut::Owned(
            match (self, rhs) {
                (MaybeOwnedMut::Owned(l), MaybeOwnedMut::Owned(r)) => l.bitxor_spec(r),
                (MaybeOwnedMut::Owned(l), MaybeOwnedMut::Borrowed(r)) => l.bitxor_spec(&*r),
                (MaybeOwnedMut::Borrowed(l), MaybeOwnedMut::Owned(r)) => (&*l).bitxor_spec(r),
                (MaybeOwnedMut::Borrowed(l), MaybeOwnedMut::Borrowed(r)) => (&*l).bitxor_spec(&*r),
            },
        )
    }
}

impl<'min, L, R, OUT: 'min> BitXor<MaybeOwnedMut<'min, R>> for MaybeOwnedMut<'min, L> where
    L: BitXor<R, Output = OUT> + BitXor<&'min R, Output = OUT>,
    &'min L: BitXor<R, Output = OUT> + BitXor<&'min R, Output = OUT>,
{
    type Output = MaybeOwnedMut<'min, OUT>;

    /// Applies `^` to the values held, by the form that fits the way each is
    /// held, and returns the result in an owned holder.
    ///
    /// A borrowed operand is only read: its loan ends with the lent value as
    /// it was.
    fn bitxor(self, rhs: MaybeOwnedMut<'min, R>) -> (ret: MaybeOwnedMut<'min, OUT>)
        ensures
            ret.spec_is_owned(),
            match (self, rhs) {
                (MaybeOwnedMut::Owned(l), MaybeOwnedMut::Owned(r)) => {
                    &&& call_ensures(<L as BitXor<R>>::bitxor, (l, r), ret@)
                    &&& <L as BitXorSpec<R>>::obeys_bitxor_spec()
                        ==> ret@ == l.bitxor_spec(r)
                },
                (MaybeOwnedMut::Owned(l), MaybeOwnedMut::Borrowed(r)) => {
                    &&& call_ensures(<L as BitXor<&'min R>>::bitxor, (l, &*r), ret@)
                    &&& <L as BitXorSpec<&'min R>>::obeys_bitxor_spec()
                        ==> ret@ == l.bitxor_spec(&*r)
                },
                (MaybeOwnedMut::Borrowed(l), MaybeOwnedMut::Owned(r)) => {
                    &&& call_ensures(<&'min L as BitXor<R>>::bitxor, (&*l, r), ret@)
                    &&& <&'min L as BitXorSpec<R>>::obeys_bitxor_spec()
                        ==> ret@ == (&*l).bitxor_spec(r)
                },
                (MaybeOwnedMut::Borrowed(l), MaybeOwnedMut::Borrowed(r)) => {
                    &&& call_ensures(<&'min L as BitXor<&'min R>>::bitxor, (&*l, &*r), ret@)
                    &&& <&'min L as BitXorSpec<&'min R>>::obeys_bitxor_spec()
                        ==> ret@ == (&*l).bitxor_spec(&*r)
                },
            },
            self matches MaybeOwnedMut::Borrowed(lent) ==> mut_ref_future(lent) == *lent,
            rhs matches MaybeOwnedMut::Borrowed(lent) ==> mut_ref_future(lent) == *lent,
    {
        let result = match (self, rhs) {
            (MaybeOwnedMut::Owned(l), MaybeOwnedMut::Owned(r)) => l.bitxor(r),
            (MaybeOwnedMut::Owned(l), MaybeOwnedMut::Borrowed(r)) => l.bitxor(&*r),
            (MaybeOwnedMut::Borrowed(l), MaybeOwnedMut::Owned(r)) => (&*l).bitxor(r),
            (MaybeOwnedMut::Borrowed(l), MaybeOwnedMut::Borrowed(r)) => (&*l).bitxor(&*r),
        };
        MaybeOwnedMut::Owned(result)
    }
}

impl<'min, L, R> BitXorAssign<MaybeOwned<'min, R>> for MaybeOwned<'min, L> where
    L: Clone + BitXorAssign<R> + BitXorAssign<&'min R>,
{
    /// Applies `^=` of the contained type to the value held, with the right
    /// value by value if it is owned and by reference if it is borrowed.
    ///
    /// The holder does not write to a value it has borrowed: it first turns
    /// into its owned form, which clones a borrowed value, and is owned
    /// afterwards.
    fn bitxor_assign(&mut self, rhs: MaybeOwned<'min, R>)
        ensures
            final(self).spec_is_owned(),
    {
        match rhs {
            MaybeOwned::Owned(r) => bitxor_assign_to(self.make_owned(), r),
            MaybeOwned::Borrowed(r) => bitxor_assign_to(self.make_owned(), r),
        }
    }
}

impl<'min, L, R> BitXorAssign<MaybeOwnedMut<'min, R>> for MaybeOwnedMut<'min, L> where
    L: BitXorAssign<R> + BitXorAssign<&'min R>,
{
    /// Applies `^=` of the contained type to the value held, with the right
    /// value by value if it is owned and by reference if it is borrowed.
    ///
    /// The holder stays in the state it is in: a borrowing holder writes
    /// through its reference, so that the lender finds the result, and
    /// nothing is cloned. A borrowed right operand is only read.
    fn bitxor_assign(&mut self, rhs: MaybeOwnedMut<'min, R>)
        ensures
            final(self).spec_is_owned() == old(self).spec_is_owned(),
            *old(self) matches MaybeOwnedMut::Borrowed(lent) ==> {
                &&& *final(self) matches MaybeOwnedMut::Borrowed(kept)
                &&& mut_ref_future(kept) == mut_ref_future(lent)
            },
            rhs matches MaybeOwnedMut::Borrowed(lent) ==> mut_ref_future(lent) == *lent,
    {
        match rhs {
            MaybeOwnedMut::Owned(r) => bitxor_assign_to(self.as_mut(), r),
            MaybeOwnedMut::Borrowed(r) => bitxor_assign_to(self.as_mut(), &*r),
        }
    }
}

} // verus!
