use implicit_clone::unsync::{IMap, IString};

#[test]
fn map_in_map() {
    let map_1 = IMap::<IString, u32>::from_iterator(
        [
            (IString::from("foo1"), 1),
            (IString::from("bar1"), 2),
            (IString::from("baz1"), 3),
        ]
        .into_iter(),
    );
    let map_2 = IMap::<IString, u32>::from_iterator(
        [
            (IString::from("foo2"), 4),
            (IString::from("bar2"), 5),
            (IString::from("baz2"), 6),
        ]
        .into_iter(),
    );
    let map_of_map = IMap::<&'static str, IMap<IString, u32>>::from_iterator(
        [("map_1", map_1), ("map_2", map_2)].into_iter(),
    );
    let mut flattened_vec = Vec::new();
    let mut outer = map_of_map.iter();
    while let Some((_key, map)) = outer.next() {
        let mut inner = map.iter();
        while let Some(entry) = inner.next() {
            flattened_vec.push(entry);
        }
    }
    assert_eq!(
        flattened_vec,
        [
            (IString::from("foo1"), 1),
            (IString::from("bar1"), 2),
            (IString::from("baz1"), 3),
            (IString::from("foo2"), 4),
            (IString::from("bar2"), 5),
            (IString::from("baz2"), 6),
        ]
    );
}

const MAP: IMap<&str, u32> = IMap::Static(&[("foo", 1)]);

#[test]
fn static_map() {
    let _map = MAP;
}
