use std::rc::Rc;

use implicit_clone::unsync::IArray;

struct Item;

#[test]
fn array_in_array() {
    let array_1 = IArray::<u32>::from_iterator([1, 2, 3].into_iter());
    let array_2 = IArray::<u32>::from_iterator([4, 5, 6].into_iter());
    let array_of_array = IArray::<IArray<u32>>::from_iterator([array_1, array_2].into_iter());
    assert_eq!(array_of_array, [[1, 2, 3], [4, 5, 6]]);
}

#[test]
fn array_holding_rc_items() {
    let _array = IArray::<Rc<Item>>::from_iterator([Rc::new(Item)].into_iter());
}

#[test]
fn from_iter_is_optimized() {
    let array_0 = IArray::<u32>::from_iterator([].into_iter());
    assert!(matches!(array_0, IArray::Static(_)));
    let array_1 = IArray::<u32>::from_iterator([1].into_iter());
    assert!(matches!(array_1, IArray::Single(_)));
    let array_2 = IArray::<u32>::from_iterator([1, 2].into_iter());
    assert!(matches!(array_2, IArray::Rc(_)));
    {
        let it = [1].into_iter().filter(|x| x % 2 == 0);
        assert_eq!(it.size_hint(), (0, Some(1)));
        let array_0_to_1 = IArray::<u32>::from_iterator(it);
        assert!(matches!(array_0_to_1, IArray::Static(_)));
    }
    {
        let it = [2].into_iter().filter(|x| x % 2 == 0);
        assert_eq!(it.size_hint(), (0, Some(1)));
        let array_0_to_1 = IArray::<u32>::from_iterator(it);
        assert!(matches!(array_0_to_1, IArray::Single(_)));
    }
}

const STATIC_ARRAY: IArray<u32> = IArray::Static(&[1, 2, 3]);

#[test]
fn static_array() {
    let _array = STATIC_ARRAY;
}

#[test]
fn deref_slice() {
    assert!(IArray::Static(&[1, 2, 3]).contains(&1));
}

const ARRAY_2: IArray<(u32, u32)> = IArray::Static(&[]);
const ARRAY_5: IArray<(u32, u32, u32, u32, u32)> = IArray::Static(&[]);

#[test]
fn tuple_in_array() {
    let _array_2 = ARRAY_2;
    let _array_5 = ARRAY_5;
}

#[test]
fn from() {
    let x: IArray<u32> = IArray::empty();
    let _out = IArray::from(&x);

    let _array: IArray<u32> = IArray::from(&[1, 2, 3][..]);
    let _array: IArray<u32> = IArray::from(vec![1, 2, 3]);
    let _array: IArray<u32> = IArray::from(Rc::<[u32]>::from(vec![1, 2, 3]));
    let _array: IArray<u32> = IArray::from([1]);
}
