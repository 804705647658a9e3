//! The operators of `core::ops`, forwarded to the values that holders hold.
//!
//! A binary operator is defined between a holder of `L` and a holder of `R`
//! where all four of `L op R`, `L op &R`, `&L op R` and `&L op &R` are
//! defined with one and the same output type. A holder does not show in its
//! type whether it owns or borrows, so each of the four forms can be the one
//! that is needed when the program runs: the operator looks at both holders
//! and calls the form that fits. The result is new data, so it is wrapped in
//! an owned holder.
//!
//! The assignment form works on the left value in place. `MaybeOwned` may
//! not write to a value it has borrowed, so it first turns itself into its
//! owned form; `MaybeOwnedMut` writes through its reference and stays as it
//! is.
//!
//! Of the assignment forms the holders have `&=`, `|=` and `^=`, which the
//! types of `core` and `std` define on every pair of operands. They do not
//! have those of the arithmetic operators and of the shifts. What such an
//! operator of the contained type asks of its operands is not known here (an
//! integer's `+=` must not overflow, its `/=` must not divide by zero), so a
//! holder could not ask it of its caller, and a function of this crate does
//! not fail. For these a holder hands out the place to work on, by
//! `make_owned` or by `as_mut`, and the caller applies the operator there.
//!
//! Negation and logical not read the value held and return what the
//! contained type returns, not wrapped.
//!
//! An operator between a holder and a bare value is not defined.

pub mod add;
pub mod bitand;
pub mod bitor;
pub mod bitxor;
pub mod div;
pub mod mul;
pub mod shl;
pub mod shr;
pub mod sub;
pub mod unary;
