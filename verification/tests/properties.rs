use maybe_owned::{MaybeOwned, MaybeOwnedMut};
use std::borrow::Cow;
use std::cell::Cell;
use std::cmp::Ordering;
use std::collections::hash_map::DefaultHasher;
use std::collections::HashMap;
use std::hash::{Hash, Hasher};
use std::rc::Rc;

/// A value that counts how often it has been cloned.
#[derive(Debug)]
struct Counted {
    n: i32,
    clones: Rc<Cell<u32>>,
}

impl Counted {
    fn new(n: i32) -> (Counted, Rc<Cell<u32>>) {
        let clones = Rc::new(Cell::new(0));
        (Counted { n, clones: clones.clone() }, clones)
    }
}

impl Clone for Counted {
    fn clone(&self) -> Counted {
        self.clones.set(self.clones.get() + 1);
        Counted { n: self.n, clones: self.clones.clone() }
    }
}

fn hash_of<T: Hash>(value: &T) -> u64 {
    let mut hasher = DefaultHasher::new();
    value.hash(&mut hasher);
    hasher.finish()
}

fn owned(n: i32) -> MaybeOwned<'static, i32> {
    MaybeOwned::Owned(n)
}

fn borrowed(n: &i32) -> MaybeOwned<'_, i32> {
    MaybeOwned::Borrowed(n)
}

fn owned_mut(n: i32) -> MaybeOwnedMut<'static, i32> {
    MaybeOwnedMut::Owned(n)
}

fn borrowed_mut(n: &mut i32) -> MaybeOwnedMut<'_, i32> {
    MaybeOwnedMut::Borrowed(n)
}

#[test]
fn from_value_is_owned() {
    let a: MaybeOwned<String> = MaybeOwned::from(String::from("a"));
    assert!(a.is_owned());
    let b: MaybeOwned<u64> = 7u64.into();
    assert!(b.is_owned());
    let c: MaybeOwnedMut<String> = MaybeOwnedMut::from(String::from("c"));
    assert!(c.is_owned());
    let d: MaybeOwnedMut<u64> = 7u64.into();
    assert!(d.is_owned());
}

#[test]
fn from_reference_is_borrowed() {
    let s = String::from("a");
    let a: MaybeOwned<String> = MaybeOwned::from(&s);
    assert!(!a.is_owned());
    let mut t = String::from("b");
    let b: MaybeOwnedMut<String> = MaybeOwnedMut::from(&mut t);
    assert!(!b.is_owned());
}

#[test]
fn deref_yields_the_value_held() {
    let v = vec![1u8, 2, 3];
    assert_eq!(*MaybeOwned::<Vec<u8>>::from(v.clone()), v);
    assert_eq!(*MaybeOwned::<Vec<u8>>::from(&v), v);
    let mut w = v.clone();
    assert_eq!(*MaybeOwnedMut::<Vec<u8>>::from(v.clone()), v);
    assert_eq!(*MaybeOwnedMut::<Vec<u8>>::from(&mut w), v);
}

#[test]
fn make_owned_twice_clones_once() {
    let (value, clones) = Counted::new(5);
    let mut h = MaybeOwned::Borrowed(&value);
    assert_eq!(h.make_owned().n, 5);
    assert!(h.is_owned());
    assert_eq!(clones.get(), 1);
    h.make_owned().n = 6;
    assert!(h.is_owned());
    assert_eq!(clones.get(), 1);
    assert_eq!(h.n, 6);
    assert_eq!(value.n, 5);
}

#[test]
fn make_owned_of_owned_clones_nothing() {
    let (value, clones) = Counted::new(5);
    let mut h = MaybeOwned::Owned(value);
    h.make_owned().n += 1;
    assert!(h.is_owned());
    assert_eq!(h.n, 6);
    assert_eq!(clones.get(), 0);
}

#[test]
fn make_owned_mut_releases_the_lent_value_unchanged() {
    let (mut value, clones) = Counted::new(5);
    {
        let mut h = MaybeOwnedMut::Borrowed(&mut value);
        h.make_owned().n = 9;
        assert!(h.is_owned());
        assert_eq!(h.n, 9);
        h.make_owned().n = 10;
        assert_eq!(h.n, 10);
    }
    assert_eq!(clones.get(), 1);
    assert_eq!(value.n, 5);
}

#[test]
fn into_owned_of_owned_clones_nothing() {
    let (value, clones) = Counted::new(5);
    let out = MaybeOwned::Owned(value).into_owned();
    assert_eq!(out.n, 5);
    assert_eq!(clones.get(), 0);

    let (value, clones) = Counted::new(6);
    let out = MaybeOwnedMut::Owned(value).into_owned();
    assert_eq!(out.n, 6);
    assert_eq!(clones.get(), 0);
}

#[test]
fn into_owned_of_borrowed_is_an_independent_clone() {
    let (value, clones) = Counted::new(5);
    let mut out = MaybeOwned::Borrowed(&value).into_owned();
    assert_eq!(clones.get(), 1);
    assert_eq!(out.n, 5);
    out.n = 77;
    assert_eq!(value.n, 5);

    let (mut value, clones) = Counted::new(6);
    let mut out = MaybeOwnedMut::Borrowed(&mut value).into_owned();
    assert_eq!(clones.get(), 1);
    out.n = 78;
    assert_eq!(value.n, 6);
}

#[test]
fn equality_ignores_representation() {
    assert!(owned(5) == borrowed(&5));
    assert!(borrowed(&5) == owned(5));
    assert!(owned(5) != borrowed(&6));
    let mut five = 5;
    assert!(owned_mut(5) == borrowed_mut(&mut five));
    let mut six = 6;
    assert!(owned_mut(5) != borrowed_mut(&mut six));
}

#[test]
fn equality_between_different_contained_types() {
    let text = String::from("abc");
    let a: MaybeOwned<String> = MaybeOwned::Borrowed(&text);
    let b: MaybeOwned<&str> = MaybeOwned::Owned("abc");
    assert!(a == b);
    let c: MaybeOwned<&str> = MaybeOwned::Owned("abd");
    assert!(a != c);
}

#[test]
fn order_ignores_representation() {
    assert_eq!(owned(5).partial_cmp(&borrowed(&5)), Some(Ordering::Equal));
    assert_eq!(owned(4).partial_cmp(&borrowed(&5)), Some(Ordering::Less));
    assert_eq!(borrowed(&6).partial_cmp(&owned(5)), Some(Ordering::Greater));
    assert!(borrowed(&4) < owned(5));
    assert_eq!(owned(5).cmp(&borrowed(&5)), Ordering::Equal);
    assert_eq!(borrowed(&4).cmp(&owned(5)), Ordering::Less);
    assert_eq!(owned(6).cmp(&borrowed(&5)), Ordering::Greater);
    let mut five = 5;
    assert_eq!(owned_mut(5).cmp(&borrowed_mut(&mut five)), Ordering::Equal);
    assert_eq!(owned_mut(7).partial_cmp(&borrowed_mut(&mut five)), Some(Ordering::Greater));
}

#[test]
fn lookup_by_the_other_representation() {
    let mut map = HashMap::new();
    map.insert(owned(5), "five");
    let six = 6;
    map.insert(borrowed(&six), "six");
    assert_eq!(map.get(&borrowed(&5)), Some(&"five"));
    assert_eq!(map.get(&owned(6)), Some(&"six"));
    assert_eq!(map.get(&owned(7)), None);

    let mut by_mut = HashMap::new();
    by_mut.insert(owned_mut(5), "five");
    let mut five = 5;
    assert_eq!(by_mut.get(&borrowed_mut(&mut five)), Some(&"five"));
}

#[test]
fn to_mut_does_not_show_in_equality_order_or_hash() {
    let five = 5;
    for other in [4, 5, 6] {
        let mut h = borrowed(&five);
        let g = owned(other);
        let equal = h == g;
        let order = h.cmp(&g);
        let partial = h.partial_cmp(&g);
        let hash = hash_of(&h);
        h.to_mut();
        assert!(h.is_owned());
        assert_eq!(h == g, equal);
        assert_eq!(h.cmp(&g), order);
        assert_eq!(h.partial_cmp(&g), partial);
        assert_eq!(hash_of(&h), hash);
    }
}

#[test]
fn hash_is_that_of_the_value_held() {
    assert_eq!(hash_of(&owned(5)), hash_of(&5));
    assert_eq!(hash_of(&borrowed(&5)), hash_of(&5));
    assert_ne!(hash_of(&owned(5)), hash_of(&owned(6)));
    let mut five = 5;
    assert_eq!(hash_of(&owned_mut(5)), hash_of(&5));
    assert_eq!(hash_of(&borrowed_mut(&mut five)), hash_of(&5));
    assert_ne!(hash_of(&owned_mut(5)), hash_of(&owned_mut(6)));
}

#[test]
fn addition_is_the_same_for_all_four_combinations() {
    let a = 30;
    let b = 12;
    let results = [
        owned(a) + owned(b),
        owned(a) + borrowed(&b),
        borrowed(&a) + owned(b),
        borrowed(&a) + borrowed(&b),
    ];
    for r in results.iter() {
        assert!(r.is_owned());
        assert_eq!(**r, 42);
    }
}

#[test]
fn addition_of_mutable_holders_is_the_same_for_all_four_combinations() {
    let mut a = 30;
    let mut b = 12;
    assert_eq!(owned_mut(30) + owned_mut(12), MaybeOwnedMut::Owned(42));
    assert_eq!(owned_mut(30) + borrowed_mut(&mut b), MaybeOwnedMut::Owned(42));
    assert_eq!(borrowed_mut(&mut a) + owned_mut(12), MaybeOwnedMut::Owned(42));
    let sum = borrowed_mut(&mut a) + borrowed_mut(&mut b);
    assert!(sum.is_owned());
    assert_eq!(*sum, 42);
    assert_eq!((a, b), (30, 12));
}

#[test]
fn reference_to_33_plus_value_9_is_owned_42() {
    let n = 33;
    let h: MaybeOwned<i32> = MaybeOwned::from(&n);
    let sum: MaybeOwned<i32> = h + MaybeOwned::<i32>::from(9);
    assert!(sum.is_owned());
    assert_eq!(sum, MaybeOwned::Owned(42));
}

#[test]
fn assignment_turns_a_borrowed_immutable_holder_owned() {
    let n = 40;
    let mut h = borrowed(&n);
    h |= owned(2);
    assert!(h.is_owned());
    assert_eq!(*h, 42);
    assert_eq!(n, 40);

    let two = 2;
    let mut g = borrowed(&n);
    g |= borrowed(&two);
    assert!(g.is_owned());
    assert_eq!(*g, 42);
    assert_eq!(n, 40);
}

#[test]
fn assignment_writes_through_a_borrowed_mutable_holder() {
    let mut n = 40;
    let mut three = 3;
    {
        let mut h = borrowed_mut(&mut n);
        h |= owned_mut(1);
        assert!(!h.is_owned());
        h ^= borrowed_mut(&mut three);
        assert!(!h.is_owned());
        assert_eq!(*h, 42);
    }
    assert_eq!(n, 42);
    assert_eq!(three, 3);
}

#[test]
fn assignment_keeps_an_owned_holder_owned() {
    let mut h = owned(40);
    h |= owned(2);
    assert!(h.is_owned());
    assert_eq!(*h, 42);
    let mut g = owned_mut(40);
    g |= owned_mut(2);
    assert!(g.is_owned());
    assert_eq!(*g, 42);
}

#[test]
fn addition_in_place_turns_the_immutable_holder_owned_and_not_the_mutable_one() {
    let n = 40;
    let mut h = borrowed(&n);
    *h.make_owned() += 2;
    assert!(h.is_owned());
    assert_eq!(*h, 42);
    assert_eq!(n, 40);

    let mut m = 40;
    {
        let mut g = borrowed_mut(&mut m);
        *g.as_mut() += 2;
        assert!(!g.is_owned());
        assert_eq!(*g, 42);
    }
    assert_eq!(m, 42);
}

#[test]
fn push_through_a_mutable_holder_reaches_the_lender() {
    let mut sequence = vec![0];
    {
        let mut h: MaybeOwnedMut<Vec<i32>> = MaybeOwnedMut::from(&mut sequence);
        h.push(1);
        assert!(!h.is_owned());
    }
    assert_eq!(sequence, vec![0, 1]);
}

#[test]
fn as_mut_writes_to_the_lent_value() {
    let mut n = 1;
    {
        let mut h = borrowed_mut(&mut n);
        *h.as_mut() = 2;
        assert!(!h.is_owned());
        assert_eq!(*h, 2);
    }
    assert_eq!(n, 2);
    let mut g = owned_mut(1);
    *g.as_mut() = 3;
    assert!(g.is_owned());
    assert_eq!(*g, 3);
}

#[test]
fn as_mut_of_the_immutable_holder() {
    let mut h = owned(1);
    *h.as_mut().unwrap() = 2;
    assert_eq!(*h, 2);
    assert!(h.is_owned());
    let n = 1;
    let mut g = borrowed(&n);
    assert!(g.as_mut().is_none());
    assert!(!g.is_owned());
    assert_eq!(*g, 1);
}

#[test]
fn from_parsed_wraps_a_value_and_hands_an_error_on() {
    let ok = MaybeOwned::from_parsed("12".parse::<u32>());
    assert_eq!(ok.as_ref().map(|h| h.is_owned()), Ok(true));
    assert_eq!(ok, Ok(MaybeOwned::Owned(12)));
    let failed = "x".parse::<u32>();
    assert_eq!(MaybeOwned::from_parsed(failed.clone()), Err(failed.unwrap_err()));

    let ok = MaybeOwnedMut::from_parsed("12".parse::<u32>());
    assert_eq!(ok, Ok(MaybeOwnedMut::Owned(12)));
    let failed = "".parse::<u32>();
    assert_eq!(MaybeOwnedMut::from_parsed(failed.clone()), Err(failed.unwrap_err()));
}

#[test]
fn cow_keeps_its_kind() {
    let n = 33;
    let from_owned: MaybeOwned<i32> = Cow::<i32>::Owned(42).into();
    assert!(from_owned.is_owned());
    assert_eq!(*from_owned, 42);
    let from_borrowed: MaybeOwned<i32> = Cow::Borrowed(&n).into();
    assert!(!from_borrowed.is_owned());
    assert_eq!(*from_borrowed, 33);

    let back: Cow<i32> = owned(42).into();
    assert!(matches!(back, Cow::Owned(42)));
    let back: Cow<i32> = borrowed(&n).into();
    assert!(matches!(back, Cow::Borrowed(&33)));
}

#[test]
fn clone_of_a_borrowed_holder_shares_the_value() {
    let (value, clones) = Counted::new(1);
    let h = MaybeOwned::Borrowed(&value);
    let c = h.clone();
    assert!(!c.is_owned());
    assert!(std::ptr::eq(&*h, &*c));
    assert_eq!(clones.get(), 0);

    let o = MaybeOwned::Owned(value);
    let d = o.clone();
    assert!(d.is_owned());
    assert_eq!(d.n, 1);
    assert_eq!(clones.get(), 1);
}

#[test]
fn default_is_owned() {
    let a: MaybeOwned<i32> = Default::default();
    assert!(a.is_owned());
    assert_eq!(*a, 0);
    let b: MaybeOwnedMut<String> = Default::default();
    assert!(b.is_owned());
    assert_eq!(*b, "");
}

#[test]
fn display_passes_through_to_the_value_held() {
    let mut n = 33;
    let a = owned_mut(42);
    let b = borrowed_mut(&mut n);
    assert_eq!(format!("{} {}", a, b), "42 33");
    assert_eq!(format!("{:>4}|{:<4}|", owned(7), borrowed(&8)), "   7|8   |");
}

#[test]
fn debug_shows_the_representation() {
    assert_eq!(format!("{:?}", owned(1)), "Owned(1)");
    assert_eq!(format!("{:?}", borrowed(&2)), "Borrowed(2)");
    let mut three = 3;
    assert_eq!(format!("{:?}", borrowed_mut(&mut three)), "Borrowed(3)");
}
