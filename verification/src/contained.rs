//! Calls into the contained type for which the verifier has no
//! specification.
//!
//! The holders forward hashing, formatting and the bitwise assignment
//! operators to the value they hold. `core` gives these traits no contract
//! that Verus knows, so each call is made here, in a function whose body is
//! not verified. None of them claims anything about what the contained type
//! computes: the holders' own contracts only say in which state the holder
//! is left. No implementation that `core` or `std` has of these traits is
//! documented to fail on any value.

use core::fmt;
use core::hash::{Hash, Hasher};
use core::ops::{BitAndAssign, BitOrAssign, BitXorAssign};
use vstd::prelude::*;

verus! {

/// `core::fmt::Formatter`, made known to the verifier so that `fmt` can take
/// one. It is handed on to the contained type unopened.
#[verifier::external_type_specification]
#[verifier::external_body]
pub struct ExFormatter<'a>(fmt::Formatter<'a>);

/// `core::fmt::Error`, made known to the verifier so that `fmt` can return
/// one. It is handed on from the contained type unopened.
#[verifier::external_type_specification]
#[verifier::external_body]
pub struct ExFmtError(fmt::Error);

/// `Hash::hash` of the contained type: feeds `value` into `state`.
///
/// Nothing is claimed about what is written to the hasher.
#[verifier::external_body]
pub(crate) fn hash_into<T: Hash, H: Hasher>(value: &T, state: &mut H) {
    value.hash(state)
}

/// `Display::fmt` of the contained type: writes `value` to the formatter and
/// returns what the contained type's implementation returned.
///
/// Nothing is claimed about the text that is written.
#[verifier::external_body]
pub(crate) fn display_into<T: fmt::Display>(value: &T, f: &mut fmt::Formatter) -> Result<
    (),
    fmt::Error,
> {
    fmt::Display::fmt(value, f)
}

/// `BitAndAssign::bitand_assign` of the contained type: `*lhs &= rhs`.
///
/// Nothing is claimed about the value that `lhs` is left with.
#[verifier::external_body]
pub(crate) fn bitand_assign_to<L: BitAndAssign<R>, R>(lhs: &mut L, rhs: R) {
    lhs.bitand_assign(rhs)
}

/// `BitOrAssign::bitor_assign` of the contained type: `*lhs |= rhs`.
///
/// Nothing is claimed about the value that `lhs` is left with.
#[verifier::external_body]
pub(crate) fn bitor_assign_to<L: BitOrAssign<R>, R>(lhs: &mut L, rhs: R) {
    lhs.bitor_assign(rhs)
}

/// `BitXorAssign::bitxor_assign` of the contained type: `*lhs ^= rhs`.
///
/// Nothing is claimed about the value that `lhs` is left with.
#[verifier::external_body]
pub(crate) fn bitxor_assign_to<L: BitXorAssign<R>, R>(lhs: &mut L, rhs: R) {
    lhs.bitxor_assign(rhs)
}

} // verus!
