use std::cmp::Ordering;
use std::sync::Arc;

use implicit_clone::sync::{IArray, IMap, IString};

#[test]
fn shared_array_copy_on_write() {
    let mut a = IArray::<u32>::from(vec![1, 2, 3]);
    let b = a.clone();
    assert!(a.get_mut().is_none());
    a.make_mut()[0] = 7;
    assert_eq!(a, [7, 2, 3]);
    assert_eq!(b, [1, 2, 3]);
    drop(b);
    a.get_mut().unwrap()[2] = 9;
    assert_eq!(a.as_slice(), &[7, 2, 9]);
    let mut s = IArray::<u32>::Static(&[1, 2, 6]);
    s.insert_many(2, &[3, 4, 5]);
    assert_eq!(s, [1, 2, 3, 4, 5, 6]);
    s.remove_range(1, 5);
    assert_eq!(s, [1, 6]);
    let drained = IArray::<u32>::from_iterator([1].into_iter());
    assert!(matches!(drained, IArray::Single(_)));
    let mut it = IArray::<u32>::from(vec![1, 2, 3]).iter();
    assert_eq!(it.next_back(), Some(3));
    assert_eq!(it.next(), Some(1));
    assert_eq!(it.next(), Some(2));
    assert_eq!(it.next_back(), None);
}

#[test]
fn shared_string_compares_by_text() {
    let a = IString::from(String::from("foo"));
    let b = IString::Static("foo");
    assert_eq!(a, b);
    assert!(matches!(a, IString::Rc(_)));
    assert_eq!(IString::Rc(Arc::from("bar")), "bar");
    assert!(IString::from("foo") < "foobar");
    assert_eq!(Ord::cmp(&IString::from("bar"), &IString::from("foo")), Ordering::Less);
}

#[test]
fn shared_map_lookup() {
    let map = IMap::<IString, u32>::from_iterator(
        [
            (IString::from("foo"), 1),
            (IString::from("bar"), 2),
            (IString::from("baz"), 3),
        ]
        .into_iter(),
    );
    assert_eq!(map.get_index(1), Some((IString::from("bar"), 2)));
    assert_eq!(map.get_static_str("baz"), Some(3));
    assert_eq!(map.get(&IString::from("qux")), None);
    let copy = map.clone();
    assert!(copy == map);
}
