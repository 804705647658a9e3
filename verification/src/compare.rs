//! Equality and ordering of holders.
//!
//! Holders compare as the values they hold compare: whether a side is owned
//! or borrowed has no part in the result.
//!
//! `==`, `<` and their kin come from `PartialEq` and `PartialOrd`. The total
//! order is the method `cmp` of the holders themselves.

use crate::immutable::MaybeOwned;
use crate::mutable::MaybeOwnedMut;
use core::cmp::Ordering;
use core::ops::Deref;
use vstd::prelude::*;
use vstd::std_specs::cmp::{
    OrdSpec, PartialEqSpec, PartialEqSpecImpl, PartialOrdSpec, PartialOrdSpecImpl,
};

verus! {

impl<'a, 'b, A: PartialEq<B>, B> PartialEq<MaybeOwned<'b, B>> for MaybeOwned<'a, A> {
    /// Compares the values held as `A` compares itself with `B`.
    fn eq(&self, other: &MaybeOwned<'b, B>) -> (r: bool)
        ensures
            call_ensures(A::eq, (&self@, &other@), r),
            A::obeys_eq_spec() ==> r == self@.eq_spec(&other@),
    {
        PartialEq::eq(self.deref(), other.deref())
    }
}

impl<'a, 'b, A: PartialEq<B>, B> PartialEqSpecImpl<MaybeOwned<'b, B>> for MaybeOwned<'a, A> {
    open spec fn obeys_eq_spec() -> bool {
        A::obeys_eq_spec()
    }

    open spec fn eq_spec(&self, other: &MaybeOwned<'b, B>) -> bool {
        self@.eq_spec(&other@)
    }
}

impl<'a, T: Eq> Eq for MaybeOwned<'a, T> {}

impl<'a, T: PartialOrd> PartialOrd for MaybeOwned<'a, T> {
    /// Orders the values held as `T` orders them.
    fn partial_cmp(&self, other: &Self) -> (r: Option<Ordering>)
        ensures
            call_ensures(T::partial_cmp, (&self@, &other@), r),
            T::obeys_partial_cmp_spec() ==> r == self@.partial_cmp_spec(&other@),
    {
        PartialOrd::partial_cmp(self.deref(), other.deref())
    }
}

impl<'a, T: PartialOrd> PartialOrdSpecImpl for MaybeOwned<'a, T> {
    open spec fn obeys_partial_cmp_spec() -> bool {
        T::obeys_partial_cmp_spec()
    }

    open spec fn partial_cmp_spec(&self, other: &Self) -> Option<Ordering> {
        self@.partial_cmp_spec(&other@)
    }
}

impl<'a, T: Ord> MaybeOwned<'a, T> {
    /// Orders the values held by the total order of `T`.
    pub fn cmp(&self, other: &Self) -> (r: Ordering)
        ensures
            call_ensures(T::cmp, (&self@, &other@), r),
            T::obeys_cmp_spec() ==> r == self@.cmp_spec(&other@),
    {
        Ord::cmp(self.deref(), other.deref())
    }
}

impl<'a, 'b, A: PartialEq<B>, B> PartialEq<MaybeOwnedMut<'b, B>> for MaybeOwnedMut<'a, A> {
    /// Compares the values held as `A` compares itself with `B`.
    fn eq(&self, other: &MaybeOwnedMut<'b, B>) -> (r: bool)
        ensures
            call_ensures(A::eq, (&self@, &other@), r),
            A::obeys_eq_spec() ==> r == self@.eq_spec(&other@),
    {
        PartialEq::eq(self.deref(), other.deref())
    }
}

impl<'a, 'b, A: PartialEq<B>, B> PartialEqSpecImpl<MaybeOwnedMut<'b, B>> for MaybeOwnedMut<'a, A> {
    open spec fn obeys_eq_spec() -> bool {
        A::obeys_eq_spec()
    }

    open spec fn eq_spec(&self, other: &MaybeOwnedMut<'b, B>) -> bool {
        self@.eq_spec(&other@)
    }
}

impl<'a, T: Eq> Eq for MaybeOwnedMut<'a, T> {}

impl<'a, T: PartialOrd> PartialOrd for MaybeOwnedMut<'a, T> {
    /// Orders the values held as `T` orders them.
    fn partial_cmp(&self, other: &Self) -> (r: Option<Ordering>)
        ensures
            call_ensures(T::partial_cmp, (&self@, &other@), r),
            T::obeys_partial_cmp_spec() ==> r == self@.partial_cmp_spec(&other@),
    {
        PartialOrd::partial_cmp(self.deref(), other.deref())
    }
}

impl<'a, T: PartialOrd> PartialOrdSpecImpl for MaybeOwnedMut<'a, T> {
    open spec fn obeys_partial_cmp_spec() -> bool {
        T::obeys_partial_cmp_spec()
    }

    open spec fn partial_cmp_spec(&self, other: &Self) -> Option<Ordering> {
        self@.partial_cmp_spec(&other@)
    }
}

impl<'a, T: Ord> MaybeOwnedMut<'a, T> {
    /// Orders the values held by the total order of `T`.
    pub fn cmp(&self, other: &Self) -> (r: Ordering)
        ensures
            call_ensures(T::cmp, (&self@, &other@), r),
            T::obeys_cmp_spec() ==> r == self@.cmp_spec(&other@),
    {
        Ord::cmp(self.deref(), other.deref())
    }
}

} // verus!
