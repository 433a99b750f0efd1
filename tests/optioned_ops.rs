//! Behaviour of each `Optioned` operation on concrete values.
use optional::{none, some, wrap, Optioned, OptionedIter};
use std::cell::Cell;
use std::cmp::Ordering;
use std::collections::hash_map::DefaultHasher;
use std::hash::{Hash, Hasher};

fn hash_of<T: Hash>(t: &T) -> u64 {
    let mut h = DefaultHasher::new();
    t.hash(&mut h);
    h.finish()
}

#[test]
fn optioned_constructors() {
    let a = Optioned::<i32>::some(1);
    assert_eq!(a.unpack(), 1);
    assert_eq!(Optioned::<u16>::none().unpack(), u16::MAX);
    assert_eq!(some(1i32), a);
    assert!(none::<i64>().is_none());
    assert!(wrap(1u8).is_some());
    assert!(wrap(255u8).is_none());
    assert_eq!(wrap(255u8), none::<u8>());
    assert_eq!(Optioned::<char>::default(), none());
}

#[test]
fn optioned_unwrap_family() {
    assert_eq!(42u8, Optioned::some(42u8).expect("FAIL"));
    assert_eq!(42u8, Optioned::some(42u8).unwrap());
    assert_eq!(-128i8, none::<i8>().unpack());
    assert_eq!(1u32, some(1u32).unpack());
    assert_eq!(-1i8, some(-1i8).unwrap_or(127i8));
    assert_eq!(42u16, none().unwrap_or(42u16));
    assert_eq!(-1i8, some(-1i8).unwrap_or_else(|| 0));
    assert_eq!(42u16, none().unwrap_or_else(|| 42u16));
}

#[test]
fn optioned_map_family() {
    assert_eq!(Some(-42), some(42i8).map(|x| -x));
    assert_eq!(None, none::<i8>().map(|x| -x));
    assert_eq!(some(-42), some(42i8).map_t(|x| -x));
    assert_eq!(none::<i8>(), none::<i8>().map_t(|x| -x));
    assert_eq!(some('b'), some(98u32).map_t(|x| char::from_u32(x).unwrap()));
    assert_eq!("1", some(1usize).map_or("Unknown".to_string(), |b| b.to_string()));
    assert_eq!("Unknown", none::<usize>().map_or("Unknown".to_string(), |b| b.to_string()));
    assert_eq!("1", some(1usize).map_or_else(|| "Unknown".to_string(), |b| b.to_string()));
    assert_eq!("Unknown", none::<usize>().map_or_else(|| "Unknown".to_string(), |b| b.to_string()));
}

#[test]
fn scenario_map_and_take() {
    assert_eq!(some(5u32).map(|x| x + 1), Some(6));
    assert_eq!(none::<u32>().map(|x| x + 1), None);
    let mut x = some(1u8);
    assert_eq!(Some(1u8), x.take());
    assert!(x.is_none());
    assert_eq!(None, x.take());
}

#[test]
fn optioned_or_and_family() {
    let x = some(2);
    let y = none();
    assert_eq!(x.or(y), some(2));
    assert_eq!(none().or(some(100)), some(100));
    assert_eq!(some(2).or(some(100)), some(2));
    let n: Optioned<u32> = none();
    assert_eq!(n.or(none()), none());

    fn nothing() -> Optioned<u32> {
        none()
    }
    fn something() -> Optioned<u32> {
        some(1)
    }
    assert_eq!(some(2).or_else(something), some(2));
    assert_eq!(none().or_else(something), some(1));
    assert_eq!(none().or_else(nothing), none());

    let the_other = some::<u32>(42);
    assert_eq!(some('a').and(the_other), some(42));
    assert_eq!(none::<char>().and(the_other), none::<u32>());
    assert_eq!(some('a').and(none::<u32>()), none::<u32>());
    assert_eq!(none::<char>().and(none::<u32>()), none::<u32>());

    fn add_two(val: u32) -> Optioned<u32> {
        wrap(val + 2)
    }
    fn failed_function(_val: u32) -> Optioned<u32> {
        none()
    }
    assert_eq!(some(2).and_then(add_two), some(4));
    assert_eq!(none().and_then(add_two), none());
    assert_eq!(some(2).and_then(failed_function), none());
    assert_eq!(none().and_then(failed_function), none());
}

#[test]
fn optioned_slices_and_iterators() {
    assert_eq!(&[42], some(42u8).as_slice());
    assert!(none::<i16>().as_slice().is_empty());
    assert_eq!(None, none::<u64>().iter().next());
    assert_eq!(Some(42u64), some(42u64).iter().next());

    let x = some(7u16);
    let mut it: OptionedIter<u16> = x.iter();
    assert_eq!(Some(7), it.next());
    assert_eq!(None, it.next());
    // iterating works on a copy
    assert_eq!(x, some(7u16));
}

#[test]
fn optioned_conversions() {
    let o: Optioned<u32> = Some(3u32).into();
    assert_eq!(o, some(3));
    let o: Optioned<u32> = Optioned::from(&None);
    assert_eq!(o, none());
    let back: Option<u32> = some(3u32).into();
    assert_eq!(back, Some(3));
    let back: Option<u32> = none::<u32>().into();
    assert_eq!(back, None);
    let raw: Optioned<i16> = Optioned::from(5i16);
    assert_eq!(raw, some(5));
    let raw: Optioned<i16> = Optioned::from(i16::MIN);
    assert!(raw.is_none());
    // a value equal to the reserved value stands for none
    let o: Optioned<u8> = Some(255u8).into();
    assert!(o.is_none());
}

#[test]
fn round_trip_through_option() {
    for v in [0u8, 1, 127, 254] {
        let back: Option<u8> = some(v).into();
        assert_eq!(Optioned::from(back), some(v));
        assert_eq!(Option::from(Optioned::from(Some(v))), Some(v));
    }
    for v in [i64::MIN + 1, -1, 0, i64::MAX] {
        let back: Option<i64> = some(v).into();
        assert_eq!(Optioned::from(back), some(v));
    }
    for v in ['a', '\u{1}', char::MAX] {
        let back: Option<char> = some(v).into();
        assert_eq!(Optioned::from(back), some(v));
    }
    let back: Option<usize> = none::<usize>().into();
    assert_eq!(Optioned::from(back), none::<usize>());
}

#[test]
fn ordering_none_first() {
    assert!(none::<u8>() < some(0u8));
    assert!(none::<u8>() < some(254u8));
    assert!(some(254u8) > none::<u8>());
    assert!(none::<i32>() < some(i32::MIN + 1));
    assert!(none::<char>() < some('\u{1}'));
    assert!(none::<usize>() < some(0usize));
    assert_eq!(none::<u64>().partial_cmp(&none()), Some(Ordering::Equal));
    assert_eq!(none::<i8>().partial_cmp(&none()), Some(Ordering::Equal));
    assert!(some(3u16) < some(4u16));
    assert!(some(-3i16) < some(4i16));
    assert!(some('a') < some('b'));
    assert_eq!(some(5u32).partial_cmp(&some(5u32)), Some(Ordering::Equal));
}

#[test]
fn equality_and_hash() {
    assert_eq!(some(1u8), some(1u8));
    assert_eq!(none::<u32>(), none::<u32>());
    assert_ne!(some(1u32), none::<u32>());
    assert_ne!(some(1u32), some(2u32));
    assert_eq!(hash_of(&some(9u32)), hash_of(&some(9u32)));
    assert_eq!(hash_of(&none::<i16>()), hash_of(&none::<i16>()));
}

#[test]
fn same_size_as_enclosed() {
    assert_eq!(std::mem::size_of::<Optioned<i64>>(), std::mem::size_of::<i64>());
    assert_eq!(std::mem::size_of::<Optioned<u8>>(), std::mem::size_of::<u8>());
    assert_eq!(std::mem::size_of::<Optioned<char>>(), std::mem::size_of::<char>());
}

#[test]
fn closures_called_only_when_needed() {
    let calls = Cell::new(0u32);
    assert_eq!(some(3u8).unwrap_or_else(|| {
        calls.set(calls.get() + 1);
        0
    }), 3);
    assert_eq!(some(3u8).map_or_else(|| {
        calls.set(calls.get() + 1);
        0
    }, |v| v + 1), 4);
    assert_eq!(some(3u8).or_else(|| {
        calls.set(calls.get() + 1);
        some(9)
    }), some(3));
    assert_eq!(none::<u8>().and_then(|v| {
        calls.set(calls.get() + 1);
        some(v)
    }), none::<u8>());
    assert_eq!(none::<u8>().map(|v| {
        calls.set(calls.get() + 1);
        v
    }), None);
    assert_eq!(none::<u8>().map_t(|v| {
        calls.set(calls.get() + 1);
        v
    }), none::<u8>());
    assert_eq!(calls.get(), 0);

    assert_eq!(none::<u8>().or_else(|| {
        calls.set(calls.get() + 1);
        some(9)
    }), some(9));
    assert_eq!(some(3u8).and_then(|v| {
        calls.set(calls.get() + 1);
        some(v + 1)
    }), some(4));
    assert_eq!(calls.get(), 2);
}
