use maybe_owned::{MaybeOwned, MaybeOwnedMut};
use std::ops::{Add, AddAssign, Neg, Not};

#[derive(Clone, PartialEq)]
struct Thing {
    x: u8,
}

impl Add<Thing> for Thing {
    type Output = u8;

    fn add(self, rhs: Thing) -> Self::Output {
        self.x + rhs.x
    }
}

impl AddAssign<Thing> for Thing {
    fn add_assign(&mut self, rhs: Thing) {
        self.x += rhs.x
    }
}

impl<'a> Add<&'a Thing> for Thing {
    type Output = u8;

    fn add(self, rhs: &'a Thing) -> Self::Output {
        self.x + rhs.x
    }
}

impl<'a> AddAssign<&'a Thing> for Thing {
    fn add_assign(&mut self, rhs: &'a Thing) {
        self.x += rhs.x
    }
}

impl<'a> Add<Thing> for &'a Thing {
    type Output = u8;

    fn add(self, rhs: Thing) -> Self::Output {
        self.x + rhs.x
    }
}

impl<'a, 'b> Add<&'a Thing> for &'b Thing {
    type Output = u8;

    fn add(self, rhs: &'a Thing) -> Self::Output {
        self.x + rhs.x
    }
}

impl Not for Thing {
    type Output = bool;

    fn not(self) -> Self::Output {
        self.x != 0
    }
}

impl<'a> Not for &'a Thing {
    type Output = bool;

    fn not(self) -> Self::Output {
        self.x != 0
    }
}

impl Neg for Thing {
    type Output = i8;

    fn neg(self) -> Self::Output {
        -(self.x as i8)
    }
}

impl<'a> Neg for &'a Thing {
    type Output = i8;

    fn neg(self) -> Self::Output {
        -(self.x as i8)
    }
}

/// `lhs += rhs` in its two steps: the holder hands out the place, made
/// owned first, and `+=` of `Thing` works on it, with the right value by
/// value if it is owned and by reference if it is borrowed.
fn add_assign<'a>(lhs: &mut MaybeOwned<'a, Thing>, rhs: MaybeOwned<'a, Thing>) {
    match rhs {
        MaybeOwned::Owned(r) => *lhs.make_owned() += r,
        MaybeOwned::Borrowed(r) => *lhs.make_owned() += r,
    }
}

/// `lhs += rhs` in its two steps for the mutable holder, which hands out the
/// place as it is.
fn add_assign_mut<'a>(lhs: &mut MaybeOwnedMut<'a, Thing>, rhs: MaybeOwnedMut<'a, Thing>) {
    match rhs {
        MaybeOwnedMut::Owned(r) => *lhs.as_mut() += r,
        MaybeOwnedMut::Borrowed(r) => *lhs.as_mut() += &*r,
    }
}

#[test]
fn op_impls_exist() {
    let a = MaybeOwned::from(Thing { x: 12 });
    let b = MaybeOwned::from(Thing { x: 13 });
    assert_eq!(a + b, MaybeOwned::Owned(25u8));

    let c = Thing { x: 42 };
    let c1: MaybeOwned<Thing> = (&c).into();
    let c2: MaybeOwned<Thing> = (&c).into();

    assert_eq!(c1 + c2, MaybeOwned::Owned(84));
}

#[test]
fn op_impls_exist_for_mut() {
    let a: MaybeOwnedMut<Thing> = Thing { x: 12 }.into();
    let b: MaybeOwnedMut<Thing> = Thing { x: 13 }.into();
    assert_eq!(a + b, MaybeOwnedMut::Owned(25));

    let mut c0a = Thing { x: 42 };
    let mut c0b = Thing { x: 8 };
    let c1: MaybeOwnedMut<Thing> = (&mut c0a).into();
    let c2: MaybeOwnedMut<Thing> = (&mut c0b).into();
    assert_eq!(c1 + c2, MaybeOwnedMut::Owned(50));
}

#[test]
fn op_assign_impls_exist() {
    let mut a = MaybeOwned::from(Thing { x: 2 });
    add_assign(&mut a, MaybeOwned::from(Thing { x: 3 }));
    assert_eq!(a.x, 5);

    let a = Thing { x: 2 };
    let mut a: MaybeOwned<Thing> = (&a).into();
    assert!(!a.is_owned());
    add_assign(&mut a, MaybeOwned::from(Thing { x: 5 }));
    assert!(a.is_owned());
    assert_eq!(a.as_ref().x, 7);
}

#[test]
fn op_assign_impls_exist_mut() {
    let mut a: MaybeOwnedMut<Thing> = Thing { x: 2 }.into();
    add_assign_mut(&mut a, MaybeOwnedMut::from(Thing { x: 3 }));
    assert_eq!(a.x, 5);

    let mut a = Thing { x: 2 };
    let mut a: MaybeOwnedMut<Thing> = (&mut a).into();
    assert!(!a.is_owned());
    add_assign_mut(&mut a, MaybeOwnedMut::from(Thing { x: 5 }));
    assert!(!a.is_owned());
    assert_eq!(a.as_ref().x, 7);
}

#[test]
fn not_and_neg_work_for_thing_test_type() {
    assert_eq!(!Thing { x: 0 }, false);
    assert_eq!(!Thing { x: 1 }, true);
    assert_eq!(!&Thing { x: 0 }, false);
    assert_eq!(!&Thing { x: 1 }, true);
}

#[test]
fn not_and_neg_are_impl() {
    let a = Thing { x: 5 };
    let a1: MaybeOwned<Thing> = (&a).into();
    let a2: MaybeOwned<Thing> = (&a).into();
    assert_eq!(!a1, true);
    assert_eq!(-a2, -5i8);
}

#[test]
fn not_and_neg_are_impl_mut() {
    let mut a = Thing { x: 5 };
    let mut b = Thing { x: 0 };
    let a1: MaybeOwnedMut<Thing> = (&mut a).into();
    let b1: MaybeOwnedMut<Thing> = (&mut b).into();

    assert_eq!(!a1, true);
    assert_eq!(!b1, false);

    let a2: MaybeOwnedMut<Thing> = (&mut a).into();
    assert_eq!(-a2, -5i8);
}
