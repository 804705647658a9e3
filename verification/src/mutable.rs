//! The holder of a value that is owned or borrowed for writing.

use crate::contained::{display_into, hash_into};
use core::fmt;
use core::hash::{Hash, Hasher};
use core::ops::{Deref, DerefMut};
use vstd::prelude::*;
use vstd::std_specs::convert::FromSpecImpl;

verus! {

/// A value of type `T` that is either owned or borrowed for writing.
///
/// This is `MaybeOwned` with an exclusive reference in place of the shared
/// one. It is no copy-on-write type: a change made through a borrowing
/// holder is a change of the value that was lent, and whoever lent it sees
/// the change once the holder is gone.
///
/// The view of a holder is the value it holds at the moment, whichever way
/// it holds it.
#[derive(Debug)]
pub enum MaybeOwnedMut<'a, T: 'a> {
    /// The holder owns the value.
    Owned(T),
    /// The holder has exclusive access to a value that is owned elsewhere.
    Borrowed(&'a mut T),
}

impl<'a, T> View for MaybeOwnedMut<'a, T> {
    type V = T;

    open spec fn view(&self) -> T {
        match self {
            MaybeOwnedMut::Owned(v) => *v,
            MaybeOwnedMut::Borrowed(v) => **v,
        }
    }
}

impl<'a, T> MaybeOwnedMut<'a, T> {
    /// Whether the holder owns its value.
    pub open spec fn spec_is_owned(&self) -> bool {
        self is Owned
    }

    /// The holder as `make_owned` leaves it, where `copy` is the duplicate
    /// that is made of the value if it was borrowed.
    pub open spec fn made_owned(self, copy: T) -> MaybeOwnedMut<'a, T> {
        match self {
            MaybeOwnedMut::Owned(v) => MaybeOwnedMut::Owned(v),
            MaybeOwnedMut::Borrowed(_) => MaybeOwnedMut::Owned(copy),
        }
    }

    /// Returns true if the value is owned, false if it is borrowed.
    #[verifier::when_used_as_spec(spec_is_owned)]
    pub fn is_owned(&self) -> (r: bool)
        ensures
            r == self.spec_is_owned(),
    {
        match self {
            MaybeOwnedMut::Owned(_) => true,
            MaybeOwnedMut::Borrowed(_) => false,
        }
    }

    /// Wraps what parsing a text as a `T` gave: a parsed value becomes an
    /// owned holder, an error is handed on unchanged.
    pub fn from_parsed<E>(parsed: Result<T, E>) -> (r: Result<Self, E>)
        ensures
            r == match parsed {
                Ok(v) => Ok::<Self, E>(MaybeOwnedMut::Owned(v)),
                Err(e) => Err::<Self, E>(e),
            },
    {
        match parsed {
            Ok(v) => Ok(MaybeOwnedMut::Owned(v)),
            Err(e) => Err(e),
        }
    }
}

impl<'a, T: Clone> MaybeOwnedMut<'a, T> {
    /// Returns the value in its owned form.
    ///
    /// An owned value is handed out as it is; a borrowed one is cloned, and
    /// the loan ends with the lent value as the holder had it.
    pub fn into_owned(self) -> (r: T)
        ensures
            self.spec_is_owned() ==> r == self@,
            !self.spec_is_owned() ==> cloned::<T>(self@, r),
            self matches MaybeOwnedMut::Borrowed(lent) ==> mut_ref_future(lent) == *lent,
    {
        match self {
            MaybeOwnedMut::Owned(v) => v,
            MaybeOwnedMut::Borrowed(v) => v.clone(),
        }
    }

    /// Turns the holder into its owned form and returns a mutable reference
    /// to the value.
    ///
    /// A borrowed value is cloned once and the loan ends, with the lent value
    /// as the holder had it; the holder owns the clone from then on. An owned
    /// value is left where it is. On return the holder is `Owned(*r)`, which
    /// is what `made_owned` says of the holder it was. Where the aim is only
    /// to write to the value, `as_mut` does so without the clone.
    pub fn make_owned(&mut self) -> (r: &mut T)
        ensures
            old(self).spec_is_owned() ==> *r == old(self)@,
            !old(self).spec_is_owned() ==> cloned::<T>(old(self)@, *r),
            *old(self) matches MaybeOwnedMut::Borrowed(lent) ==> mut_ref_future(lent) == *lent,
            MaybeOwnedMut::<T>::Owned(*r) == old(self).made_owned(*r),
            *final(self) == MaybeOwnedMut::<T>::Owned(*final(r)),
    {
        match self {
            MaybeOwnedMut::Owned(v) => v,
            MaybeOwnedMut::Borrowed(v) => {
                *self = MaybeOwnedMut::Owned(v.clone());
                match self {
                    MaybeOwnedMut::Owned(v) => v,
                    MaybeOwnedMut::Borrowed(..) => unreached(),
                }
            },
        }
    }
}

impl<'a, T> Deref for MaybeOwnedMut<'a, T> {
    type Target = T;

    /// The value held, whichever way it is held.
    fn deref(&self) -> (r: &T)
        ensures
            *r == self@,
    {
        match self {
            MaybeOwnedMut::Owned(v) => v,
            MaybeOwnedMut::Borrowed(v) => v,
        }
    }
}

impl<'a, T> DerefMut for MaybeOwnedMut<'a, T> {
    /// Write access to the value held, whichever way it is held.
    ///
    /// The holder stays in the state it is in. What is written through the
    /// result of a borrowing holder is written to the lent value itself.
    fn deref_mut(&mut self) -> (r: &mut T)
        ensures
            *r == old(self)@,
            final(self)@ == *final(r),
            final(self).spec_is_owned() == old(self).spec_is_owned(),
            *old(self) matches MaybeOwnedMut::Borrowed(lent) ==> {
                &&& *final(self) matches MaybeOwnedMut::Borrowed(kept)
                &&& mut_ref_future(kept) == mut_ref_future(lent)
            },
    {
        match self {
            MaybeOwnedMut::Owned(v) => v,
            MaybeOwnedMut::Borrowed(v) => v,
        }
    }
}

impl<'a, T> AsRef<T> for MaybeOwnedMut<'a, T> {
    /// The value held, as `deref` gives it.
    fn as_ref(&self) -> (r: &T)
        ensures
            *r == self@,
    {
        self.deref()
    }
}

impl<'a, T> AsMut<T> for MaybeOwnedMut<'a, T> {
    /// Write access to the value held, whichever way it is held: an owned
    /// value is not moved and a borrowed one is not cloned.
    fn as_mut(&mut self) -> (r: &mut T)
        ensures
            *r == old(self)@,
            final(self)@ == *final(r),
            final(self).spec_is_owned() == old(self).spec_is_owned(),
            *old(self) matches MaybeOwnedMut::Borrowed(lent) ==> {
                &&& *final(self) matches MaybeOwnedMut::Borrowed(kept)
                &&& mut_ref_future(kept) == mut_ref_future(lent)
            },
    {
        match self {
            MaybeOwnedMut::Owned(v) => v,
            MaybeOwnedMut::Borrowed(v) => v,
        }
    }
}

impl<'a, T> core::borrow::Borrow<T> for MaybeOwnedMut<'a, T> {
    /// The value held, as `deref` gives it.
    fn borrow(&self) -> &T
        returns
            self@,
    {
        self.deref()
    }
}

impl<'a, T> core::borrow::BorrowMut<T> for MaybeOwnedMut<'a, T> {
    /// Write access to the value held, whichever way it is held, as
    /// `deref_mut` gives it.
    ///
    /// The holder stays in the state it is in. What is written through the
    /// result of a borrowing holder is written to the lent value itself.
    fn borrow_mut(&mut self) -> (r: &mut T)
        ensures
            // `*r`, written with its type: every type also has the `BorrowMut`
            // of `core` to itself, and the type tells the two apart.
            mut_ref_current::<T>(r) == old(self)@,
            final(self)@ == *final(r),
            final(self).spec_is_owned() == old(self).spec_is_owned(),
            *old(self) matches MaybeOwnedMut::Borrowed(lent) ==> {
                &&& *final(self) matches MaybeOwnedMut::Borrowed(kept)
                &&& mut_ref_future(kept) == mut_ref_future(lent)
            },
    {
        self.deref_mut()
    }
}

impl<'a, T> From<T> for MaybeOwnedMut<'a, T> {
    /// A value becomes an owned holder of it.
    fn from(v: T) -> (r: Self)
        ensures
            r.spec_is_owned(),
            r@ == v,
    {
        MaybeOwnedMut::Owned(v)
    }
}

impl<'a, T> FromSpecImpl<T> for MaybeOwnedMut<'a, T> {
    open spec fn obeys_from_spec() -> bool {
        true
    }

    open spec fn from_spec(v: T) -> Self {
        MaybeOwnedMut::Owned(v)
    }
}

impl<'a, T> From<&'a mut T> for MaybeOwnedMut<'a, T> {
    /// An exclusive reference becomes a holder that borrows through it: what
    /// the holder leaves in place is what the lender of `v` finds.
    fn from(v: &'a mut T) -> (r: Self)
        ensures
            !r.spec_is_owned(),
            r@ == *old(v),
            r matches MaybeOwnedMut::Borrowed(kept) && mut_ref_future(kept) == *final(v),
    {
        MaybeOwnedMut::Borrowed(v)
    }
}

/// Two exclusive references are told apart by more than the value they give
/// access to, so this conversion makes no promise through `from_spec`: what
/// it returns is stated by `from` itself.
impl<'a, T> FromSpecImpl<&'a mut T> for MaybeOwnedMut<'a, T> {
    open spec fn obeys_from_spec() -> bool {
        false
    }

    open spec fn from_spec(v: &'a mut T) -> Self {
        MaybeOwnedMut::Borrowed(v)
    }
}

impl<'a, T: Default> Default for MaybeOwnedMut<'a, T> {
    /// An owned holder of the default value of `T`.
    fn default() -> (r: Self)
        ensures
            r.spec_is_owned(),
            call_ensures(T::default, (), r@),
    {
        MaybeOwnedMut::Owned(T::default())
    }
}

impl<'a, T: Hash> Hash for MaybeOwnedMut<'a, T> {
    /// Hashes the value held, so that an owned and a borrowed holder of equal
    /// values hash alike.
    fn hash<H: Hasher>(&self, state: &mut H) {
        hash_into(self.deref(), state)
    }
}

impl<'a, T: fmt::Display> fmt::Display for MaybeOwnedMut<'a, T> {
    /// Formats the value held as the contained type formats it.
    fn fmt(&self, f: &mut fmt::Formatter) -> Result<(), fmt::Error> {
        display_into(self.deref(), f)
    }
}

} // verus!
