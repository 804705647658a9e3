use maybe_owned::{MaybeOwned, MaybeOwnedMut};
use std::borrow::{Borrow, BorrowMut, Cow};
use std::collections::HashMap;
use std::ops::DerefMut;

type TestType = Vec<()>;

#[derive(Default)]
struct WithDefault(u8);

#[derive(Clone)]
struct WithClone(u8);

#[derive(PartialEq)]
struct WithPartialEq(f32);

#[derive(PartialEq, Eq)]
struct WithEq(i32);

#[derive(PartialEq, PartialOrd)]
struct WithPartialOrd(f32);

#[derive(PartialEq, Eq, PartialOrd, Ord)]
struct WithOrd(i32);

fn with_into<'a, I: Into<MaybeOwned<'a, TestType>>>(v: I) -> MaybeOwned<'a, TestType> {
    v.into()
}

fn holds_after_into<'a, V: Into<MaybeOwned<'a, i32>>>(v: V, n: i32) {
    assert_eq!(*v.into(), n)
}

fn holds_as_cow<'a, V: Into<Cow<'a, i32>>>(v: V, n: i32) {
    assert_eq!(*v.into(), n)
}

#[test]
fn is_owned() {
    let data = TestType::default();
    assert!(MaybeOwned::Owned(data).is_owned());
}

#[test]
fn make_owned() {
    let mut a = MaybeOwned::Borrowed(&12u8);
    assert!(!a.is_owned());
    a.make_owned();
    assert!(a.is_owned());
    assert_eq!(&*a, &12);
}

#[test]
fn into_with_owned() {
    let data = TestType::default();
    assert!(with_into(data).is_owned())
}

#[test]
fn into_with_borrow() {
    let data = TestType::default();
    assert!(!with_into(&data).is_owned());
}

#[test]
fn clone_owned() {
    let maybe = MaybeOwned::<TestType>::default();
    assert!(maybe.clone().is_owned());
}

#[test]
fn clone_borrow() {
    let data = TestType::default();
    let maybe: MaybeOwned<TestType> = (&data).into();
    assert!(!maybe.clone().is_owned());
}

#[test]
fn to_mut() {
    let data = TestType::default();
    let mut maybe: MaybeOwned<TestType> = (&data).into();
    assert!(!maybe.is_owned());
    {
        let _mut_ref = maybe.to_mut();
    }
    assert!(maybe.is_owned());
}

#[test]
fn into_inner() {
    let data = vec![1u32, 2];
    let maybe: MaybeOwned<Vec<u32>> = (&data).into();
    assert_eq!(data, maybe.into_owned());
}

#[test]
fn has_default() {
    let x: MaybeOwned<WithDefault> = Default::default();
    assert!(x.is_owned());
    assert_eq!(x.0, 0);
}

#[test]
fn has_clone() {
    let x = WithClone(12).clone();
    assert_eq!(x.0, 12);
}

#[test]
fn has_deref() {
    let a = MaybeOwned::Owned(vec![1u8]);
    assert_eq!(a.len(), 1);

    let a = MaybeOwnedMut::Owned(vec![1u8]);
    assert_eq!(a.len(), 1);
}

#[test]
fn has_deref_mut() {
    let mut a = MaybeOwnedMut::Owned(vec![1u8]);
    a[0] = 12u8;
    assert_eq!(a[0], 12u8);
}

#[test]
fn has_partial_eq() {
    let n = WithPartialEq(33.0);
    let a = MaybeOwned::Owned(WithPartialEq(42.0));
    let b = MaybeOwned::Borrowed(&n);
    let c = MaybeOwned::Owned(WithPartialEq(33.0));

    assert_eq!(a == b, false);
    assert_eq!(b == c, true);
    assert_eq!(c == a, false);
}

#[test]
fn has_eq() {
    let n = WithEq(33);
    let a = MaybeOwned::Owned(WithEq(42));
    let b = MaybeOwned::Borrowed(&n);
    let c = MaybeOwned::Owned(WithEq(33));

    assert_eq!(a == b, false);
    assert_eq!(b == c, true);
    assert_eq!(c == a, false);
}

#[test]
fn has_partial_ord() {
    let n = WithPartialOrd(33.0);
    let a = MaybeOwned::Owned(WithPartialOrd(42.0));
    let b = MaybeOwned::Borrowed(&n);
    let c = MaybeOwned::Owned(WithPartialOrd(33.0));

    assert_eq!(a > b, true);
    assert_eq!(b > c, false);
    assert_eq!(a < c, false);
}

#[test]
fn has_ord() {
    let n = WithOrd(33);
    let a = MaybeOwned::Owned(WithOrd(42));
    let b = MaybeOwned::Borrowed(&n);
    let c = MaybeOwned::Owned(WithOrd(33));

    assert_eq!(a > b, true);
    assert_eq!(b > c, false);
    assert_eq!(a < c, false);
}

#[test]
fn has_hash() {
    let mut map = HashMap::new();
    map.insert(MaybeOwned::Owned(42), 33);

    assert_eq!(map.get(&MaybeOwned::Borrowed(&42)), Some(&33));
}

#[test]
fn has_borrow() {
    let v = MaybeOwned::Owned(42);
    let r = Borrow::<u8>::borrow(&v);
    assert_eq!(*r, 42);

    let v = MaybeOwnedMut::Owned(42);
    let r = Borrow::<u8>::borrow(&v);
    assert_eq!(*r, 42);
}

#[test]
fn has_borrow_mut() {
    let mut v = MaybeOwnedMut::Owned(42);
    let r = BorrowMut::<u8>::borrow_mut(&mut v);
    *r = 43;
    assert_eq!(*v, 43);
}

#[test]
fn has_as_ref() {
    let v = MaybeOwned::Owned(42);
    let r = AsRef::<u8>::as_ref(&v);
    assert_eq!(*r, 42);

    let v = MaybeOwnedMut::Owned(42);
    let r = AsRef::<u8>::as_ref(&v);
    assert_eq!(*r, 42);
}

#[test]
fn has_as_mut() {
    let mut v: MaybeOwned<u8> = (&11).into();
    assert_eq!(v.as_mut(), None);

    let mut v: MaybeOwned<u8> = 12.into();
    assert_eq!(v.as_mut(), Some(&mut 12));

    let mut v = MaybeOwnedMut::Owned(42);
    let r = AsMut::<u8>::as_mut(&mut v);
    *r = 43;
    assert_eq!(*v, 43);
}

#[test]
fn has_display() {
    let n = 33;
    let a = MaybeOwned::Owned(42);
    let b = MaybeOwned::Borrowed(&n);

    let s = format!("{} {}", a, b);

    assert_eq!(s, "42 33");
}

#[test]
fn from_cow() {
    let n = 33;
    holds_after_into(Cow::Owned(42), 42);
    holds_after_into(Cow::Borrowed(&n), n);
}

#[test]
fn into_cow() {
    let n = 33;
    holds_as_cow(MaybeOwned::Owned(42), 42);
    holds_as_cow(MaybeOwned::Borrowed(&n), n);
}

#[test]
fn from_str() {
    let as_string = "12";
    assert_eq!(12u32, as_string.parse().unwrap());
    assert_eq!(
        MaybeOwned::Owned(12u32),
        MaybeOwned::from_parsed(as_string.parse::<u32>()).unwrap()
    );
}

#[test]
fn as_ref() {
    let data = TestType::default();
    let maybe_owned = MaybeOwned::Borrowed(&data);
    let _ref: &TestType = maybe_owned.as_ref();
    assert!(std::ptr::eq(&data, _ref));
}

#[test]
fn borrow() {
    let data = TestType::default();
    let maybe_owned = MaybeOwned::Borrowed(&data);
    let _ref: &TestType = maybe_owned.borrow();
    assert!(std::ptr::eq(&data, _ref));
}

#[test]
fn reborrow_mut() {
    let value = vec![0u32];
    let mut value = MaybeOwnedMut::Owned(value);
    let mut reborrow = MaybeOwnedMut::Borrowed(value.deref_mut());
    reborrow.push(1);
    assert_eq!(&[0, 1], &value[..]);
}
