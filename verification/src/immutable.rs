//! The holder of a value that is owned or borrowed for reading.

use crate::contained::{display_into, hash_into};
use core::fmt;
use core::hash::{Hash, Hasher};
use core::ops::Deref;
use std::borrow::Cow;
use vstd::prelude::*;
use vstd::std_specs::convert::{FromSpecImpl, IntoSpecImpl};

verus! {

/// A value of type `T` that is either owned or borrowed for reading.
///
/// Unlike `Cow`, the borrowed form is always `&T`, so `T` needs neither
/// `Clone` nor `ToOwned` to be held. A parameter of type
/// `impl Into<MaybeOwned<'a, T>>` accepts a `T`, a `&'a T` and a holder alike.
///
/// The view of a holder is the value it holds, whichever way it holds it.
#[derive(Debug)]
pub enum MaybeOwned<'a, T: 'a> {
    /// The holder owns the value.
    Owned(T),
    /// The holder refers to a value that is owned elsewhere.
    Borrowed(&'a T),
}

impl<'a, T> View for MaybeOwned<'a, T> {
    type V = T;

    open spec fn view(&self) -> T {
        match self {
            MaybeOwned::Owned(v) => *v,
            MaybeOwned::Borrowed(v) => **v,
        }
    }
}

impl<'a, T> MaybeOwned<'a, T> {
    /// Whether the holder owns its value.
    pub open spec fn spec_is_owned(&self) -> bool {
        self is Owned
    }

    /// The holder as `make_owned` leaves it, where `copy` is the duplicate
    /// that is made of the value if it was borrowed.
    pub open spec fn made_owned(self, copy: T) -> MaybeOwned<'a, T> {
        match self {
            MaybeOwned::Owned(v) => MaybeOwned::Owned(v),
            MaybeOwned::Borrowed(_) => MaybeOwned::Owned(copy),
        }
    }

    /// Returns true if the value is owned, false if it is borrowed.
    #[verifier::when_used_as_spec(spec_is_owned)]
    pub fn is_owned(&self) -> (r: bool)
        ensures
            r == self.spec_is_owned(),
    {
        match self {
            MaybeOwned::Owned(_) => true,
            MaybeOwned::Borrowed(_) => false,
        }
    }

    /// Returns a mutable reference to the value if the holder owns it.
    ///
    /// A borrowed value cannot be changed through the holder: the result is
    /// then `None` and the holder stays as it is.
    pub fn as_mut(&mut self) -> (r: Option<&mut T>)
        ensures
            r.is_some() == old(self).spec_is_owned(),
            match r {
                Some(m) => *m == old(self)@ && *final(self) == MaybeOwned::<T>::Owned(*final(m)),
                None => *final(self) == *old(self),
            },
    {
        match self {
            MaybeOwned::Owned(value) => Some(value),
            MaybeOwned::Borrowed(_) => None,
        }
    }

    /// Wraps what parsing a text as a `T` gave: a parsed value becomes an
    /// owned holder, an error is handed on unchanged.
    pub fn from_parsed<E>(parsed: Result<T, E>) -> (r: Result<Self, E>)
        ensures
            r == match parsed {
                Ok(v) => Ok::<Self, E>(MaybeOwned::Owned(v)),
                Err(e) => Err::<Self, E>(e),
            },
    {
        match parsed {
            Ok(v) => Ok(MaybeOwned::Owned(v)),
            Err(e) => Err(e),
        }
    }
}

impl<'a, T: Clone> MaybeOwned<'a, T> {
    /// Returns the value in its owned form.
    ///
    /// An owned value is handed out as it is; a borrowed one is cloned.
    pub fn into_owned(self) -> (r: T)
        ensures
            self.spec_is_owned() ==> r == self@,
            !self.spec_is_owned() ==> cloned::<T>(self@, r),
    {
        match self {
            MaybeOwned::Owned(v) => v,
            MaybeOwned::Borrowed(v) => v.clone(),
        }
    }

    /// Turns the holder into its owned form and returns a mutable reference
    /// to the value.
    ///
    /// A borrowed value is cloned once, and the holder owns the clone from
    /// then on; an owned value is left where it is. On return the holder is
    /// `Owned(*r)`, which is what `made_owned` says of the holder it was.
    /// What the caller writes through the result is what the holder owns
    /// afterwards.
    pub fn make_owned(&mut self) -> (r: &mut T)
        ensures
            old(self).spec_is_owned() ==> *r == old(self)@,
            !old(self).spec_is_owned() ==> cloned::<T>(old(self)@, *r),
            MaybeOwned::<T>::Owned(*r) == old(self).made_owned(*r),
            *final(self) == MaybeOwned::<T>::Owned(*final(r)),
    {
        match self {
            MaybeOwned::Owned(v) => v,
            MaybeOwned::Borrowed(v) => {
                *self = MaybeOwned::Owned(v.clone());
                match self {
                    MaybeOwned::Owned(v) => v,
                    MaybeOwned::Borrowed(..) => unreached(),
                }
            },
        }
    }

    /// Acquires a mutable reference to owned data, cloning the value if it
    /// was borrowed. The same as `make_owned`, which is the name to prefer.
    pub fn to_mut(&mut self) -> (r: &mut T)
        ensures
            old(self).spec_is_owned() ==> *r == old(self)@,
            !old(self).spec_is_owned() ==> cloned::<T>(old(self)@, *r),
            MaybeOwned::<T>::Owned(*r) == old(self).made_owned(*r),
            *final(self) == MaybeOwned::<T>::Owned(*final(r)),
    {
        self.make_owned()
    }
}

impl<'a, T> Deref for MaybeOwned<'a, T> {
    type Target = T;

    /// The value held, whichever way it is held.
    fn deref(&self) -> (r: &T)
        ensures
            *r == self@,
    {
        match self {
            MaybeOwned::Owned(v) => v,
            MaybeOwned::Borrowed(v) => v,
        }
    }
}

impl<'a, T> AsRef<T> for MaybeOwned<'a, T> {
    /// The value held, as `deref` gives it.
    fn as_ref(&self) -> (r: &T)
        ensures
            *r == self@,
    {
        self.deref()
    }
}

impl<'a, T> core::borrow::Borrow<T> for MaybeOwned<'a, T> {
    /// The value held, as `deref` gives it.
    fn borrow(&self) -> &T
        returns
            self@,
    {
        self.deref()
    }
}

impl<'a, T> From<T> for MaybeOwned<'a, T> {
    /// A value becomes an owned holder of it.
    fn from(v: T) -> (r: Self)
        ensures
            r.spec_is_owned(),
            r@ == v,
    {
        MaybeOwned::Owned(v)
    }
}

impl<'a, T> FromSpecImpl<T> for MaybeOwned<'a, T> {
    open spec fn obeys_from_spec() -> bool {
        true
    }

    open spec fn from_spec(v: T) -> Self {
        MaybeOwned::Owned(v)
    }
}

impl<'a, T> From<&'a T> for MaybeOwned<'a, T> {
    /// A reference becomes a holder that borrows through it.
    fn from(v: &'a T) -> (r: Self)
        ensures
            !r.spec_is_owned(),
            r@ == *v,
    {
        MaybeOwned::Borrowed(v)
    }
}

impl<'a, T> FromSpecImpl<&'a T> for MaybeOwned<'a, T> {
    open spec fn obeys_from_spec() -> bool {
        true
    }

    open spec fn from_spec(v: &'a T) -> Self {
        MaybeOwned::Borrowed(v)
    }
}

impl<'a, T: ToOwned<Owned = T>> From<Cow<'a, T>> for MaybeOwned<'a, T> {
    /// A `Cow` becomes the holder of the same kind: owned stays owned and
    /// borrowed stays borrowed. The result is `from_spec` of the `Cow`.
    fn from(cow: Cow<'a, T>) -> (r: MaybeOwned<'a, T>)
        ensures
            r.spec_is_owned() == (cow is Owned),
    {
        match cow {
            Cow::Owned(v) => MaybeOwned::Owned(v),
            Cow::Borrowed(v) => MaybeOwned::Borrowed(v),
        }
    }
}

impl<'a, T: ToOwned<Owned = T>> FromSpecImpl<Cow<'a, T>> for MaybeOwned<'a, T> {
    open spec fn obeys_from_spec() -> bool {
        true
    }

    open spec fn from_spec(cow: Cow<'a, T>) -> Self {
        match cow {
            Cow::Owned(v) => MaybeOwned::Owned(v),
            Cow::Borrowed(v) => MaybeOwned::Borrowed(v),
        }
    }
}

impl<'a, T: ToOwned<Owned = T>> Into<Cow<'a, T>> for MaybeOwned<'a, T> {
    /// A holder becomes the `Cow` of the same kind: owned stays owned and
    /// borrowed stays borrowed. The result is `into_spec` of the holder.
    fn into(self) -> (r: Cow<'a, T>) {
        match self {
            MaybeOwned::Owned(v) => Cow::Owned(v),
            MaybeOwned::Borrowed(v) => Cow::Borrowed(v),
        }
    }
}

impl<'a, T: ToOwned<Owned = T>> IntoSpecImpl<Cow<'a, T>> for MaybeOwned<'a, T> {
    open spec fn obeys_into_spec() -> bool {
        true
    }

    open spec fn into_spec(self) -> Cow<'a, T> {
        match self {
            MaybeOwned::Owned(v) => Cow::Owned(v),
            MaybeOwned::Borrowed(v) => Cow::Borrowed(v),
        }
    }
}

impl<'a, T: Default> Default for MaybeOwned<'a, T> {
    /// An owned holder of the default value of `T`.
    fn default() -> (r: Self)
        ensures
            r.spec_is_owned(),
            call_ensures(T::default, (), r@),
    {
        MaybeOwned::Owned(T::default())
    }
}

impl<'a, T: Clone> Clone for MaybeOwned<'a, T> {
    /// An owned holder clones its value; a borrowed one hands on its
    /// reference, and the value is not touched.
    fn clone(&self) -> (r: Self)
        ensures
            r.spec_is_owned() == self.spec_is_owned(),
            self.spec_is_owned() ==> cloned::<T>(self@, r@),
            !self.spec_is_owned() ==> r == *self,
    {
        match self {
            MaybeOwned::Owned(v) => MaybeOwned::Owned(v.clone()),
            MaybeOwned::Borrowed(v) => MaybeOwned::Borrowed(v),
        }
    }
}

impl<'a, T: Hash> Hash for MaybeOwned<'a, T> {
    /// Hashes the value held, so that an owned and a borrowed holder of equal
    /// values hash alike.
    fn hash<H: Hasher>(&self, state: &mut H) {
        hash_into(self.deref(), state)
    }
}

impl<'a, T: fmt::Display> fmt::Display for MaybeOwned<'a, T> {
    /// Formats the value held as the contained type formats it.
    fn fmt(&self, f: &mut fmt::Formatter) -> Result<(), fmt::Error> {
        display_into(self.deref(), f)
    }
}

} // verus!
