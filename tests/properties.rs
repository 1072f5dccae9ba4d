use std::borrow::Cow;
use std::cmp::Ordering;
use std::collections::hash_map::DefaultHasher;
use std::hash::{Hash, Hasher};
use std::rc::Rc;
use std::sync::Arc;

use implicit_clone::sync::ISlice;
use implicit_clone::unsync::{IArray, IMap, IString};
use implicit_clone::ImplicitClone;

#[test]
fn clone_compares_equal_for_every_storage() {
    let arrays = [
        IArray::<u32>::Static(&[1, 2, 3]),
        IArray::<u32>::from(vec![1, 2, 3]),
        IArray::<u32>::Single([7]),
        IArray::<u32>::empty(),
    ];
    for a in arrays.iter() {
        assert_eq!(a.clone(), *a);
        assert_eq!(a.implicit_clone(), *a);
    }
    let s = IString::from(String::from("text"));
    assert_eq!(s.clone(), s);
    let m = IMap::<u32, u32>::from_pairs(vec![(1, 10), (2, 20)]);
    assert!(m.clone() == m);
}

#[test]
fn mutating_a_clone_leaves_the_original() {
    let mut a = IArray::<u32>::from(vec![1, 2, 3]);
    let b = a.clone();
    a.make_mut()[1] = 123;
    assert_eq!(a, [1, 123, 3]);
    assert_eq!(b, [1, 2, 3]);

    let mut s = IArray::<u32>::Static(&[1, 2, 3]);
    let t = s.clone();
    s.make_mut()[0] = 9;
    assert!(matches!(s, IArray::Rc(_)));
    assert!(matches!(t, IArray::Static(_)));
    assert_eq!(s, [9, 2, 3]);
    assert_eq!(t, [1, 2, 3]);

    let mut x = IArray::<u32>::Single([1]);
    let y = x.clone();
    x.make_mut()[0] = 123;
    assert!(matches!(x, IArray::Single(_)));
    assert_eq!(x, [123]);
    assert_eq!(y, [1]);

    let mut e = IArray::<u32>::from(vec![1, 2, 3]);
    let f = e.clone();
    e.push(4);
    assert_eq!(e, [1, 2, 3, 4]);
    assert_eq!(f, [1, 2, 3]);
}

#[test]
fn equality_ignores_storage() {
    let from_static = IArray::<u32>::Static(&[1, 2, 3]);
    let drained = IArray::<u32>::from_iterator([1, 2, 3].into_iter());
    assert!(matches!(drained, IArray::Rc(_)));
    assert_eq!(from_static, drained);
    assert_eq!(IArray::<u32>::Single([5]), IArray::<u32>::from(vec![5]));
    assert_eq!(IArray::<u32>::Single([5]), IArray::<u32>::Static(&[5]));
    assert_ne!(IArray::<u32>::Static(&[1, 2]), IArray::<u32>::from(vec![1, 3]));
    assert_ne!(IArray::<u32>::Static(&[1, 2]), IArray::<u32>::from(vec![1, 2, 3]));
    assert_eq!(IArray::<u32>::from(vec![1, 2]), [1u32, 2][..]);
    assert_eq!(IArray::<u32>::from(vec![1, 2]), &[1u32, 2][..]);
    assert_eq!(IArray::<u32>::from(vec![1, 2]), &[1u32, 2]);
    assert_ne!(IArray::<u32>::Single([1]), [1u32, 2]);
}

#[test]
fn draining_picks_storage_and_keeps_content() {
    let empty = IArray::<u32>::from_iterator(Vec::new().into_iter());
    assert_eq!(empty, IArray::<u32>::default());
    assert!(empty.is_empty());
    let one = IArray::<u32>::from_iterator(vec![42].into_iter());
    assert_eq!(one.len(), 1);
    assert_eq!(one, IArray::from([42]));
    let many = IArray::<u32>::from_iterator(vec![3, 1, 2].into_iter());
    assert_eq!(many.as_slice(), &[3, 1, 2]);
    let unknown = IArray::<u32>::from_iterator((0..10).filter(|x| x % 4 == 0));
    assert_eq!(unknown, [0, 4, 8]);
}

/// An iterator that claims to hold at most one item but yields three.
struct Underestimating {
    left: u32,
}

impl Iterator for Underestimating {
    type Item = u32;

    fn next(&mut self) -> Option<u32> {
        if self.left == 0 {
            None
        } else {
            self.left -= 1;
            Some(self.left)
        }
    }

    fn size_hint(&self) -> (usize, Option<usize>) {
        (0, Some(1))
    }
}

#[test]
fn draining_survives_a_wrong_size_hint() {
    let a = IArray::<u32>::from_iterator(Underestimating { left: 3 });
    assert_eq!(a, [2, 1, 0]);
    let b = IArray::<u32>::from_iterator(Underestimating { left: 0 });
    assert!(b.is_empty());
}

#[test]
fn cow_exclusivity() {
    let mut a = IArray::<u8>::Rc(Rc::new([1, 2, 3]));
    let b = a.clone();
    assert!(a.get_mut().is_none());
    drop(b);
    {
        let slice = a.get_mut().unwrap();
        slice[1] = 123;
    }
    assert_eq!(a.as_slice(), &[1, 123, 3]);
    assert!(matches!(a, IArray::Rc(_)));

    let mut s = IArray::<u8>::Static(&[1, 2, 3]);
    assert!(s.get_mut().is_none());
    let mut one = IArray::<u8>::Single([1]);
    assert!(one.get_mut().is_some());
}

#[test]
fn structural_edits() {
    let mut a = IArray::<u32>::Static(&[1, 2, 6]);
    a.insert_many(2, &[3, 4, 5]);
    assert_eq!(a, [1, 2, 3, 4, 5, 6]);

    let mut b = IArray::<u32>::from(vec![1, 2, 10, 20, 3]);
    b.remove_range(2, 4);
    assert_eq!(b, [1, 2, 3]);

    let mut c = IArray::<u32>::Single([2]);
    c.insert(0, 1);
    c.push(3);
    c.extend(&[4, 5]);
    assert_eq!(c, [1, 2, 3, 4, 5]);
    assert_eq!(c.remove(1), 2);
    assert_eq!(c, [1, 3, 4, 5]);
    assert!(matches!(c, IArray::Rc(_)));

    let mut d = IArray::<u32>::empty();
    d.insert(0, 8);
    d.remove_range(0, 1);
    assert!(d.is_empty());
}

#[test]
fn double_ended_iteration() {
    let x = IArray::<u8>::Static(&[1, 2, 3, 4, 5, 6]);
    let mut iter = x.iter();
    assert_eq!(Some(1), iter.next());
    assert_eq!(Some(6), iter.next_back());
    assert_eq!(Some(5), iter.next_back());
    assert_eq!(Some(2), iter.next());
    assert_eq!(Some(3), iter.next());
    assert_eq!(Some(4), iter.next());
    assert_eq!(None, iter.next());
    assert_eq!(None, iter.next_back());
}

#[test]
fn element_access() {
    let v = IArray::<u8>::Static(&[10, 40, 30]);
    assert_eq!(Some(40), v.get(1));
    assert_eq!(None, v.get(3));
    assert_eq!(v.len(), 3);
    assert!(!v.is_empty());
    assert_eq!(IArray::<u8>::Single([9]).get(0), Some(9));
    assert_eq!(IArray::<u8>::Single([9]).get(1), None);
    assert_eq!(IArray::<u8>::from(vec![7, 8]).get(1), Some(8));
    assert_eq!(&*IArray::<u8>::from(vec![7, 8]), &[7, 8]);
}

fn foo_bar_baz() -> IMap<IString, u32> {
    IMap::from_iterator(
        [
            (IString::from("foo"), 1),
            (IString::from("bar"), 2),
            (IString::from("baz"), 3),
        ]
        .into_iter(),
    )
}

#[test]
fn map_order_and_lookup() {
    let map = foo_bar_baz();
    let mut order = Vec::new();
    let mut it = map.iter();
    while let Some(entry) = it.next() {
        order.push(entry);
    }
    assert_eq!(
        order,
        [
            (IString::from("foo"), 1),
            (IString::from("bar"), 2),
            (IString::from("baz"), 3)
        ]
    );
    assert_eq!(map.get_index(1), Some((IString::from("bar"), 2)));
    assert_eq!(map.get(&IString::from("qux")), None);
    assert_eq!(map.get(&IString::from("baz")), Some(3));
    assert_eq!(map.get_static_str("foo"), Some(1));
    assert_eq!(map.get_static_str("qux"), None);
    assert_eq!(map.get_full(&IString::from("bar")), Some((1, IString::from("bar"), 2)));
    assert_eq!(map.get_index_of(&IString::from("baz")), Some(2));
    assert!(map.contains_key(&IString::from("foo")));
    assert!(!map.contains_key(&IString::from("qux")));
    assert_eq!(map.last(), Some((IString::from("baz"), 3)));
    assert_eq!(map.len(), 3);
    assert_eq!(map.get_index(3), None);
}

#[test]
fn map_keys_and_values() {
    let map = foo_bar_baz();
    let mut keys = map.keys();
    assert_eq!(keys.next(), Some(IString::from("foo")));
    assert_eq!(keys.next(), Some(IString::from("bar")));
    assert_eq!(keys.next(), Some(IString::from("baz")));
    assert_eq!(keys.next(), None);
    let mut values = map.values();
    assert_eq!(values.next(), Some(1));
    assert_eq!(values.next(), Some(2));
    assert_eq!(values.next(), Some(3));
    assert_eq!(values.next(), None);
}

#[test]
fn map_repeated_key_keeps_first_place_and_last_value() {
    let map = IMap::<u32, u32>::from_pairs(vec![(5, 1), (6, 2), (5, 3)]);
    assert_eq!(map.len(), 2);
    assert_eq!(map.get_index(0), Some((5, 3)));
    assert_eq!(map.get_index(1), Some((6, 2)));
    assert_eq!(map.get(&5), Some(3));
}

const SMALL: IMap<&str, u32> = IMap::Static(&[("a", 1), ("b", 2), ("a", 3)]);

#[test]
fn static_map_lookup() {
    assert_eq!(SMALL.get_static_str("a"), Some(1));
    assert_eq!(SMALL.get_static_str("b"), Some(2));
    assert_eq!(SMALL.get_static_str("c"), None);
    assert_eq!(SMALL.get_index_of(&"b"), Some(1));
    assert_eq!(SMALL.last(), Some(("a", 3)));
    let empty = IMap::<u32, u32>::default();
    assert!(empty.is_empty());
    assert_eq!(empty.last(), None);
    assert_eq!(empty.get(&1), None);
}

#[test]
fn map_equality_ignores_storage() {
    let stat = IMap::<u32, u32>::Static(&[(1, 10), (2, 20)]);
    let hashed = IMap::<u32, u32>::from_pairs(vec![(1, 10), (2, 20)]);
    assert!(stat == hashed);
    let other = IMap::<u32, u32>::from_pairs(vec![(1, 10), (2, 21)]);
    assert!(stat != other);
}

#[test]
fn text_ordering() {
    assert!(IString::from("foo") < IString::from("foobar"));
    assert!(IString::from("bar") < IString::from(String::from("foo")));
    assert!(IString::from("foo") < "foobar");
    assert!("bar" < IString::from("foo"));
    assert!(IString::from("foo") < String::from("foobar"));
    assert!(&String::from("bar") < IString::from("foo"));
    assert_eq!(IString::from("é").partial_cmp(&IString::from("z")), Some(Ordering::Greater));
    assert_eq!(Ord::cmp(&IString::from("é"), &IString::from("z")), Ordering::Greater);
    assert_eq!(IString::from("a").partial_cmp("a"), Some(Ordering::Equal));
}

#[test]
fn string_conversions() {
    assert!(matches!(IString::from("s"), IString::Static("s")));
    let owned = IString::from(String::from("own"));
    assert!(matches!(owned, IString::Rc(_)));
    assert_eq!(owned.as_str(), "own");
    let borrowed = IString::from(Cow::Borrowed("b"));
    assert!(matches!(borrowed, IString::Static("b")));
    let from_owned = IString::from(Cow::<'static, str>::Owned(String::from("o")));
    assert!(matches!(from_owned, IString::Rc(_)));
    assert_eq!(from_owned, "o");
    let parsed: IString = "parsed".parse().unwrap();
    assert!(matches!(parsed, IString::Rc(_)));
    assert_eq!(parsed, "parsed");
    assert_eq!(IString::default(), "");
    assert_eq!(IString::from(Rc::<str>::from("rc")), "rc");
    assert_eq!(IString::Static("x").as_cow(), "x");
}

#[test]
fn equal_strings_hash_alike() {
    let mut h1 = DefaultHasher::new();
    IString::Static("same").hash(&mut h1);
    let mut h2 = DefaultHasher::new();
    IString::from(String::from("same")).hash(&mut h2);
    let mut h3 = DefaultHasher::new();
    "same".hash(&mut h3);
    assert_eq!(h1.finish(), h2.finish());
    assert_eq!(h1.finish(), h3.finish());
}

#[test]
fn shared_slice_clones_share() {
    let a: ISlice<str> = ISlice::Rc(Arc::from("shared"));
    let b = a.clone();
    assert_eq!(a, b);
    if let (ISlice::Rc(x), ISlice::Rc(y)) = (&a, &b) {
        assert!(Arc::ptr_eq(x, y));
    }
    let s: ISlice<[u8]> = ISlice::Static(&[1, 2]);
    assert_eq!(s.implicit_clone(), s);
    let r = Rc::new(5u8);
    let r2 = r.implicit_clone();
    assert_eq!(Rc::strong_count(&r2), 2);
    assert_eq!(Some(3u8).implicit_clone(), Some(3));
    assert_eq!((1u8, 'c', true).implicit_clone(), (1, 'c', true));
}

#[test]
fn text_keyed_map_by_text() {
    let map = IMap::<IString, u32>::from_text_iterator(
        [
            (IString::from("foo"), 1),
            (IString::from(String::from("bar")), 2),
            (IString::from("baz"), 3),
            (IString::from(String::from("foo")), 4),
        ]
        .into_iter(),
    );
    assert_eq!(map.len(), 3);
    assert_eq!(map.get_index(0), Some((IString::from("foo"), 4)));
    assert_eq!(map.get_index(1), Some((IString::from("bar"), 2)));
    assert_eq!(map.get_static_str("bar"), Some(2));
    assert_eq!(map.get_static_str("qux"), None);
    assert_eq!(map.get_text_index_of(&IString::from(String::from("baz"))), Some(2));
    let pairs = IMap::<IString, u32>::from_text_pairs(vec![(IString::from("a"), 1)]);
    assert_eq!(pairs.get_static_str("a"), Some(1));
    let stat = IMap::<IString, u32>::Static(&[(IString::Static("x"), 9)]);
    assert_eq!(stat.get_text_index_of(&IString::from(String::from("x"))), Some(0));
    assert_eq!(stat.get_static_str("y"), None);
}

#[test]
fn drained_storage_follows_length() {
    let none = IArray::<u32>::from_iterator((0..10).filter(|x| *x > 100));
    assert!(matches!(none, IArray::Static(_)));
    let one = IArray::<u32>::from_iterator((0..10).filter(|x| *x == 3));
    assert!(matches!(one, IArray::Single(_)));
    assert_eq!(one, [3]);
    let two = IArray::<u32>::from_iterator(0..2);
    assert!(matches!(two, IArray::Rc(_)));
}
