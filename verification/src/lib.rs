//! Holders for a value that is either owned or borrowed.
//!
//! [`MaybeOwned`] stores a `T` or a `&T`; [`MaybeOwnedMut`] stores a `T` or a
//! `&mut T`. Both give uniform access to the value they hold and forward the
//! operators of `core::ops` to it, whichever way each operand is held.
//!
//! The functions of this crate carry contracts that Verus proves. The
//! contracts speak of a holder through its view, the value it holds, and
//! through `spec_is_owned`, the way it holds it. What the contained type
//! does when it is cloned, compared, added and so on is its own affair: the
//! contracts say which operation of the contained type a holder calls on
//! which values, and state the result in terms of that operation's own
//! specification where it has one.

pub mod compare;
mod contained;
pub mod immutable;
pub mod laws;
pub mod mutable;
pub mod transitive;

pub use immutable::MaybeOwned;
pub use mutable::MaybeOwnedMut;
