use maybe_owned::{MaybeOwned, MaybeOwnedMut};

fn o(n: i32) -> MaybeOwned<'static, i32> {
    MaybeOwned::Owned(n)
}

fn b(n: &i32) -> MaybeOwned<'_, i32> {
    MaybeOwned::Borrowed(n)
}

fn om(n: i32) -> MaybeOwnedMut<'static, i32> {
    MaybeOwnedMut::Owned(n)
}

fn bm(n: &mut i32) -> MaybeOwnedMut<'_, i32> {
    MaybeOwnedMut::Borrowed(n)
}

#[test]
fn subtraction() {
    let (x, y) = (50, 8);
    assert_eq!(o(x) - o(y), o(42));
    assert_eq!(o(x) - b(&y), o(42));
    assert_eq!(b(&x) - o(y), o(42));
    assert_eq!(b(&x) - b(&y), o(42));
    assert!((b(&x) - b(&y)).is_owned());
    let (mut p, mut q) = (50, 8);
    assert_eq!(om(50) - om(8), om(42));
    assert_eq!(om(50) - bm(&mut q), om(42));
    assert_eq!(bm(&mut p) - om(8), om(42));
    assert_eq!(bm(&mut p) - bm(&mut q), om(42));
    assert_eq!((p, q), (50, 8));
}

#[test]
fn multiplication() {
    let (x, y) = (6, 7);
    assert_eq!(o(x) * o(y), o(42));
    assert_eq!(o(x) * b(&y), o(42));
    assert_eq!(b(&x) * o(y), o(42));
    assert_eq!(b(&x) * b(&y), o(42));
    let (mut p, mut q) = (6, 7);
    assert_eq!(om(6) * om(7), om(42));
    assert_eq!(om(6) * bm(&mut q), om(42));
    assert_eq!(bm(&mut p) * om(7), om(42));
    assert_eq!(bm(&mut p) * bm(&mut q), om(42));
}

#[test]
fn division() {
    let (x, y) = (85, 2);
    assert_eq!(o(x) / o(y), o(42));
    assert_eq!(o(x) / b(&y), o(42));
    assert_eq!(b(&x) / o(y), o(42));
    assert_eq!(b(&x) / b(&y), o(42));
    assert_eq!(o(-7) / o(2), o(-3));
    let (mut p, mut q) = (85, 2);
    assert_eq!(om(85) / om(2), om(42));
    assert_eq!(om(85) / bm(&mut q), om(42));
    assert_eq!(bm(&mut p) / om(2), om(42));
    assert_eq!(bm(&mut p) / bm(&mut q), om(42));
}

#[test]
fn shift_left() {
    let (x, y) = (21, 1);
    assert_eq!(o(x) << o(y), o(42));
    assert_eq!(o(x) << b(&y), o(42));
    assert_eq!(b(&x) << o(y), o(42));
    assert_eq!(b(&x) << b(&y), o(42));
    let (mut p, mut q) = (21, 1);
    assert_eq!(om(21) << om(1), om(42));
    assert_eq!(om(21) << bm(&mut q), om(42));
    assert_eq!(bm(&mut p) << om(1), om(42));
    assert_eq!(bm(&mut p) << bm(&mut q), om(42));
}

#[test]
fn shift_right() {
    let (x, y) = (170, 2);
    assert_eq!(o(x) >> o(y), o(42));
    assert_eq!(o(x) >> b(&y), o(42));
    assert_eq!(b(&x) >> o(y), o(42));
    assert_eq!(b(&x) >> b(&y), o(42));
    let (mut p, mut q) = (170, 2);
    assert_eq!(om(170) >> om(2), om(42));
    assert_eq!(om(170) >> bm(&mut q), om(42));
    assert_eq!(bm(&mut p) >> om(2), om(42));
    assert_eq!(bm(&mut p) >> bm(&mut q), om(42));
}

#[test]
fn shift_by_another_integer_type() {
    let by: MaybeOwned<u8> = MaybeOwned::Owned(3);
    let shifted: MaybeOwned<i64> = MaybeOwned::<i64>::Owned(5) << by;
    assert_eq!(shifted, MaybeOwned::Owned(40i64));
}

#[test]
fn bitwise_and() {
    let (x, y) = (0b0110_1110, 0b0011_1011);
    assert_eq!(o(x) & o(y), o(42));
    assert_eq!(o(x) & b(&y), o(42));
    assert_eq!(b(&x) & o(y), o(42));
    assert_eq!(b(&x) & b(&y), o(42));
    let (mut p, mut q) = (x, y);
    assert_eq!(om(x) & om(y), om(42));
    assert_eq!(om(x) & bm(&mut q), om(42));
    assert_eq!(bm(&mut p) & om(y), om(42));
    assert_eq!(bm(&mut p) & bm(&mut q), om(42));
}

#[test]
fn bitwise_or() {
    let (x, y) = (0b10_0010, 0b00_1010);
    assert_eq!(o(x) | o(y), o(42));
    assert_eq!(o(x) | b(&y), o(42));
    assert_eq!(b(&x) | o(y), o(42));
    assert_eq!(b(&x) | b(&y), o(42));
    let (mut p, mut q) = (x, y);
    assert_eq!(om(x) | om(y), om(42));
    assert_eq!(om(x) | bm(&mut q), om(42));
    assert_eq!(bm(&mut p) | om(y), om(42));
    assert_eq!(bm(&mut p) | bm(&mut q), om(42));
}

#[test]
fn bitwise_xor() {
    let (x, y) = (0b11_0011, 0b01_1001);
    assert_eq!(o(x) ^ o(y), o(42));
    assert_eq!(o(x) ^ b(&y), o(42));
    assert_eq!(b(&x) ^ o(y), o(42));
    assert_eq!(b(&x) ^ b(&y), o(42));
    let (mut p, mut q) = (x, y);
    assert_eq!(om(x) ^ om(y), om(42));
    assert_eq!(om(x) ^ bm(&mut q), om(42));
    assert_eq!(bm(&mut p) ^ om(y), om(42));
    assert_eq!(bm(&mut p) ^ bm(&mut q), om(42));
}

#[test]
fn negation_and_not_of_integers() {
    let n = 42;
    assert_eq!(-o(42), -42);
    assert_eq!(-b(&n), -42);
    assert_eq!(!o(42), !42);
    assert_eq!(!b(&n), -43);
    let mut m = 42;
    assert_eq!(-om(42), -42);
    assert_eq!(-bm(&mut m), -42);
    assert_eq!(!om(42), -43);
    assert_eq!(!bm(&mut m), -43);
    assert_eq!(m, 42);
    let t = true;
    assert_eq!(!MaybeOwned::Owned(true), false);
    assert_eq!(!MaybeOwned::Borrowed(&t), false);
}

#[test]
fn assignment_forms_of_the_immutable_holder() {
    let start = 0b0110_0100;
    let two = 2;

    let mut h = b(&start);
    h |= o(0b1000);
    assert_eq!((h.is_owned(), *h), (true, 0b0110_1100));
    let mut h = b(&start);
    h |= b(&two);
    assert_eq!((h.is_owned(), *h), (true, 0b0110_0110));

    let mut h = b(&start);
    h &= o(0b0010_0110);
    assert_eq!((h.is_owned(), *h), (true, 0b0010_0100));
    let mut h = b(&start);
    h &= b(&two);
    assert_eq!((h.is_owned(), *h), (true, 0));

    let mut h = b(&start);
    h ^= o(0b0100_1110);
    assert_eq!((h.is_owned(), *h), (true, 42));
    let mut h = b(&start);
    h ^= b(&two);
    assert_eq!((h.is_owned(), *h), (true, 0b0110_0110));

    let mut h = o(7);
    h |= o(0b1000);
    assert_eq!(*h, 15);
    h |= b(&start);
    assert_eq!(*h, 111);
    h &= o(0b0110_1010);
    assert_eq!(*h, 106);
    h &= b(&two);
    assert_eq!(*h, 2);
    h ^= o(0b1010);
    assert_eq!(*h, 8);
    h ^= b(&two);
    assert_eq!(*h, 10);
    assert!(h.is_owned());

    assert_eq!((start, two), (0b0110_0100, 2));
}

#[test]
fn assignment_forms_of_the_mutable_holder() {
    let mut lent = 7;
    let mut twos = [2; 3];
    {
        let [t0, t1, t2] = &mut twos;
        let mut h = bm(&mut lent);
        h |= om(0b1000);
        assert_eq!(*h, 15);
        h |= bm(t0);
        assert_eq!(*h, 15);
        h &= om(0b0110);
        assert_eq!(*h, 6);
        h &= bm(t1);
        assert_eq!(*h, 2);
        h ^= om(0b1010);
        assert_eq!(*h, 8);
        h ^= bm(t2);
        assert_eq!(*h, 10);
        assert!(!h.is_owned());
    }
    assert_eq!(lent, 10);
    assert_eq!(twos, [2; 3]);
}

#[test]
fn assignment_forms_of_an_owning_mutable_holder() {
    let mut two = 2;
    let mut h = om(0b0101);
    h |= om(0b1000);
    h &= om(0b1100);
    h ^= bm(&mut two);
    assert!(h.is_owned());
    assert_eq!(*h, 0b1110);
}

#[test]
fn arithmetic_in_place_through_make_owned() {
    let start = 100;
    let mut h = b(&start);
    *h.make_owned() -= 58;
    assert_eq!((h.is_owned(), *h), (true, 42));
    *h.make_owned() *= 2;
    *h.make_owned() /= 4;
    *h.make_owned() <<= 2;
    *h.make_owned() >>= 1;
    *h.make_owned() += 0;
    assert_eq!((h.is_owned(), *h), (true, 42));
    assert_eq!(start, 100);
}

#[test]
fn arithmetic_in_place_through_as_mut() {
    let mut lent = 100;
    {
        let mut h = bm(&mut lent);
        *h.as_mut() -= 58;
        assert_eq!((h.is_owned(), *h), (false, 42));
        *h.as_mut() *= 2;
        *h.as_mut() /= 4;
        *h.as_mut() <<= 2;
        *h.as_mut() >>= 1;
        *h.as_mut() += 0;
        assert_eq!((h.is_owned(), *h), (false, 42));
    }
    assert_eq!(lent, 42);
}
