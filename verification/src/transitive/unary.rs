//! `-` and `!` of a holder.
//!
//! The operator is defined for a holder of `V` where both `V` and `&V` have
//! it, with one output type. It reads the value held, by the form that fits
//! the way the value is held, and returns what the contained type returns:
//! the result is not wrapped in a holder.

use crate::immutable::MaybeOwned;
use crate::mutable::MaybeOwnedMut;
use core::ops::{Neg, Not};
use vstd::prelude::*;
use vstd::std_specs::ops::{NegSpec, NegSpecImpl, NotSpec, NotSpecImpl};

verus! {

impl<'l, V, OUT> NegSpecImpl for MaybeOwned<'l, V> where
    V: Neg<Output = OUT>,
    &'l V: Neg<Output = OUT>,
{
    /// `-` of a holder is specified where both of its forms are.
    open spec fn obeys_neg_spec() -> bool {
        &&& <V as NegSpec>::obeys_neg_spec()
        &&& <&'l V as NegSpec>::obeys_neg_spec()
    }

    /// What the form that the holder selects asks of its operand.
    open spec fn neg_req(self) -> bool {
        match self {
            MaybeOwned::Owned(s) => s.neg_req(),
            MaybeOwned::Borrowed(s) => s.neg_req(),
        }
    }

    /// The result of the form that the holder selects.
    open spec fn neg_spec(self) -> OUT {
        match self {
            MaybeOwned::Owned(s) => s.neg_spec(),
            MaybeOwned::Borrowed(s) => s.neg_spec(),
        }
    }
}

impl<'l, V, OUT> Neg for MaybeOwned<'l, V> where
    V: Neg<Output = OUT>,
    &'l V: Neg<Output = OUT>,
{
    type Output = OUT;

    /// Negates the value held, by the form of `-` that fits the way it is held.
    fn neg(self) -> (ret: OUT)
        ensures
            match self {
                MaybeOwned::Owned(s) => {
                    &&& call_ensures(<V as Neg>::neg, (s,), ret)
                    &&& <V as NegSpec>::obeys_neg_spec() ==> ret == s.neg_spec()
                },
                MaybeOwned::Borrowed(s) => {
                    &&& call_ensures(<&'l V as Neg>::neg, (s,), ret)
                    &&& <&'l V as NegSpec>::obeys_neg_spec() ==> ret == s.neg_spec()
                },
            },
    {
        match self {
            MaybeOwned::Owned(s) => s.neg(),
            MaybeOwned::Borrowed(s) => s.neg(),
        }
    }
}

impl<'l, V, OUT> NegSpecImpl for MaybeOwnedMut<'l, V> where
    V: Neg<Output = OUT>,
    &'l V: Neg<Output = OUT>,
{
    /// `-` of a holder is specified where both of its forms are.
    open spec fn obeys_neg_spec() -> bool {
        &&& <V as NegSpec>::obeys_neg_spec()
        &&& <&'l V as NegSpec>::obeys_neg_spec()
    }

    /// What the form that the holder selects asks of its operand.
    open spec fn neg_req(self) -> bool {
        match self {
            MaybeOwnedMut::Owned(s) => s.neg_req(),
            MaybeOwnedMut::Borrowed(s) => (&*s).neg_req(),
        }
    }

    /// The result of the form that the holder selects.
    open spec fn neg_spec(self) -> OUT {
        match self {
            MaybeOwnedMut::Owned(s) => s.neg_spec(),
            MaybeOwnedMut::Borrowed(s) => (&*s).neg_spec(),
        }
    }
}

impl<'l, V, OUT> Neg for MaybeOwnedMut<'l, V> where
    V: Neg<Output = OUT>,
    &'l V: Neg<Output = OUT>,
{
    type Output = OUT;

    /// Negates the value held, by the form of `-` that fits the way it is held.
    ///
    /// A borrowed value is only read: its loan ends with the lent value as it
    /// was.
    fn neg(self) -> (ret: OUT)
        ensures
            match self {
                MaybeOwnedMut::Owned(s) => {
                    &&& call_ensures(<V as Neg>::neg, (s,), ret)
                    &&& <V as NegSpec>::obeys_neg_spec() ==> ret == s.neg_spec()
                },
                MaybeOwnedMut::Borrowed(s) => {
                    &&& call_ensures(<&'l V as Neg>::neg, (&*s,), ret)
                    &&& <&'l V as NegSpec>::obeys_neg_spec() ==> ret == (&*s).neg_spec()
                },
            },
            self matches MaybeOwnedMut::Borrowed(lent) ==> mut_ref_future(lent) == *lent,
    {
        match self {
            MaybeOwnedMut::Owned(s) => s.neg(),
            MaybeOwnedMut::Borrowed(s) => (&*s).neg(),
        }
    }
}

impl<'l, V, OUT> NotSpecImpl for MaybeOwned<'l, V> where
    V: Not<Output = OUT>,
    &'l V: Not<Output = OUT>,
{
    /// `!` of a holder is specified where both of its forms are.
    open spec fn obeys_not_spec() -> bool {
        &&& <V as NotSpec>::obeys_not_spec()
        &&& <&'l V as NotSpec>::obeys_not_spec()
    }

    /// What the form that the holder selects asks of its operand.
    open spec fn not_req(self) -> bool {
        match self {
            MaybeOwned::Owned(s) => s.not_req(),
            MaybeOwned::Borrowed(s) => s.not_req(),
        }
    }

    /// The result of the form that the holder selects.
    open spec fn not_spec(self) -> OUT {
        match self {
            MaybeOwned::Owned(s) => s.not_spec(),
            MaybeOwned::Borrowed(s) => s.not_spec(),
        }
    }
}

impl<'l, V, OUT> Not for MaybeOwned<'l, V> where
    V: Not<Output = OUT>,
    &'l V: Not<Output = OUT>,
{
    type Output = OUT;

    /// Applies `!` to the value held, by the form that fits the way it is held.
    fn not(self) -> (ret: OUT)
        ensures
            match self {
                MaybeOwned::Owned(s) => {
                    &&& call_ensures(<V as Not>::not, (s,), ret)
                    &&& <V as NotSpec>::obeys_not_spec() ==> ret == s.not_spec()
                },
                MaybeOwned::Borrowed(s) => {
                    &&& call_ensures(<&'l V as Not>::not, (s,), ret)
                    &&& <&'l V as NotSpec>::obeys_not_spec() ==> ret == s.not_spec()
                },
            },
    {
        match self {
            MaybeOwned::Owned(s) => s.not(),
            MaybeOwned::Borrowed(s) => s.not(),
        }
    }
}

impl<'l, V, OUT> NotSpecImpl for MaybeOwnedMut<'l, V> where
    V: Not<Output = OUT>,
    &'l V: Not<Output = OUT>,
{
    /// `!` of a holder is specified where both of its forms are.
    open spec fn obeys_not_spec() -> bool {
        &&& <V as NotSpec>::obeys_not_spec()
        &&& <&'l V as NotSpec>::obeys_not_spec()
    }

    /// What the form that the holder selects asks of its operand.
    open spec fn not_req(self) -> bool {
        match self {
            MaybeOwnedMut::Owned(s) => s.not_req(),
            MaybeOwnedMut::Borrowed(s) => (&*s).not_req(),
        }
    }

    /// The result of the form that the holder selects.
    open spec fn not_spec(self) -> OUT {
        match self {
            MaybeOwnedMut::Owned(s) => s.not_spec(),
            MaybeOwnedMut::Borrowed(s) => (&*s).not_spec(),
        }
    }
}

impl<'l, V, OUT> Not for MaybeOwnedMut<'l, V> where
    V: Not<Output = OUT>,
    &'l V: Not<Output = OUT>,
{
    type Output = OUT;

    /// Applies `!` to the value held, by the form that fits the way it is held.
    ///
    /// A borrowed value is only read: its loan ends with the lent value as it
    /// was.
    fn not(self) -> (ret: OUT)
        ensures
            match self {
                MaybeOwnedMut::Owned(s) => {
                    &&& call_ensures(<V as Not>::not, (s,), ret)
                    &&& <V as NotSpec>::obeys_not_spec() ==> ret == s.not_spec()
                },
                MaybeOwnedMut::Borrowed(s) => {
                    &&& call_ensures(<&'l V as Not>::not, (&*s,), ret)
                    &&& <&'l V as NotSpec>::obeys_not_spec() ==> ret == (&*s).not_spec()
                },
            },
            self matches MaybeOwnedMut::Borrowed(lent) ==> mut_ref_future(lent) == *lent,
    {
        match self {
            MaybeOwnedMut::Owned(s) => s.not(),
            MaybeOwnedMut::Borrowed(s) => (&*s).not(),
        }
    }
}

} // verus!
