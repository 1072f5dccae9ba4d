use std::borrow::Cow;
use std::cmp::Ordering;
use std::collections::HashMap;
use std::rc::Rc;

use implicit_clone::unsync::IString;

#[test]
fn eq_ne_self() {
    assert_eq!(IString::Static("foo"), IString::Static("foo"));
    assert_eq!(IString::Rc(Rc::from("foo")), IString::Static("foo"));
    assert_eq!(IString::Static("foo"), IString::Rc(Rc::from("foo")));
    assert_eq!(IString::Rc(Rc::from("foo")), IString::Rc(Rc::from("foo")));
    assert_ne!(IString::Static("foo"), IString::Static("bar"));
    assert_ne!(IString::Rc(Rc::from("foo")), IString::Static("bar"));
    assert_ne!(IString::Static("foo"), IString::Rc(Rc::from("bar")));
    assert_ne!(IString::Rc(Rc::from("foo")), IString::Rc(Rc::from("bar")));
}

#[test]
fn cmp_self() {
    assert_eq!(Ordering::Equal, Ord::cmp(&IString::Static("foo"), &IString::Static("foo")));
    assert_eq!(Ordering::Equal, Ord::cmp(&IString::Rc(Rc::from("foo")), &IString::Static("foo")));
    assert_eq!(Ordering::Equal, Ord::cmp(&IString::Static("foo"), &IString::Rc(Rc::from("foo"))));
    assert_eq!(Ordering::Equal, Ord::cmp(&IString::Rc(Rc::from("foo")), &IString::Rc(Rc::from("foo"))));
    assert_eq!(Ordering::Greater, Ord::cmp(&IString::Static("foo"), &IString::Static("bar")));
    assert_eq!(Ordering::Greater, Ord::cmp(&IString::Rc(Rc::from("foo")), &IString::Static("bar")));
    assert_eq!(Ordering::Greater, Ord::cmp(&IString::Static("foo"), &IString::Rc(Rc::from("bar"))));
    assert_eq!(Ordering::Greater, Ord::cmp(&IString::Rc(Rc::from("foo")), &IString::Rc(Rc::from("bar"))));
    assert_eq!(Ordering::Less, Ord::cmp(&IString::Static("bar"), &IString::Static("foo")));
    assert_eq!(Ordering::Less, Ord::cmp(&IString::Rc(Rc::from("bar")), &IString::Static("foo")));
    assert_eq!(Ordering::Less, Ord::cmp(&IString::Static("bar"), &IString::Rc(Rc::from("foo"))));
    assert_eq!(Ordering::Less, Ord::cmp(&IString::Rc(Rc::from("bar")), &IString::Rc(Rc::from("foo"))));
    assert_eq!(Ordering::Greater, Ord::cmp(&IString::Static("foobar"), &IString::Static("foo")));
    assert_eq!(Ordering::Greater, Ord::cmp(&IString::Rc(Rc::from("foobar")), &IString::Static("foo")));
    assert_eq!(Ordering::Greater, Ord::cmp(&IString::Static("foobar"), &IString::Rc(Rc::from("foo"))));
    assert_eq!(Ordering::Greater, Ord::cmp(&IString::Rc(Rc::from("foobar")), &IString::Rc(Rc::from("foo"))));
    assert_eq!(Ordering::Less, Ord::cmp(&IString::Static("foo"), &IString::Static("foobar")));
    assert_eq!(Ordering::Less, Ord::cmp(&IString::Rc(Rc::from("foo")), &IString::Static("foobar")));
    assert_eq!(Ordering::Less, Ord::cmp(&IString::Static("foo"), &IString::Rc(Rc::from("foobar"))));
    assert_eq!(Ordering::Less, Ord::cmp(&IString::Rc(Rc::from("foo")), &IString::Rc(Rc::from("foobar"))));
}

#[test]
fn eq_ne_strings() {
    assert_eq!(IString::Rc(Rc::from("foo")), *"foo");
    assert_eq!(*"foo", IString::Rc(Rc::from("foo")));
    assert_eq!(*"foo", IString::Rc(Rc::from("foo")));
    assert_eq!(IString::Rc(Rc::from("foo")), *"foo");
    assert_eq!(IString::Static("foo"), *"foo");
    assert_eq!(*"foo", IString::Static("foo"));
    assert_eq!(*"foo", IString::Static("foo"));
    assert_eq!(IString::Static("foo"), *"foo");
    assert_eq!(IString::Rc(Rc::from("foo")), "foo");
    assert_eq!("foo", IString::Rc(Rc::from("foo")));
    assert_eq!("foo", IString::Rc(Rc::from("foo")));
    assert_eq!(IString::Rc(Rc::from("foo")), "foo");
    assert_eq!(IString::Static("foo"), "foo");
    assert_eq!("foo", IString::Static("foo"));
    assert_eq!("foo", IString::Static("foo"));
    assert_eq!(IString::Static("foo"), "foo");
    assert_eq!(IString::Rc(Rc::from("foo")), String::from("foo"));
    assert_eq!(String::from("foo"), IString::Rc(Rc::from("foo")));
    assert_eq!(String::from("foo"), IString::Rc(Rc::from("foo")));
    assert_eq!(IString::Rc(Rc::from("foo")), String::from("foo"));
    assert_eq!(IString::Static("foo"), String::from("foo"));
    assert_eq!(String::from("foo"), IString::Static("foo"));
    assert_eq!(String::from("foo"), IString::Static("foo"));
    assert_eq!(IString::Static("foo"), String::from("foo"));
    assert_eq!(IString::Rc(Rc::from("foo")), &String::from("foo"));
    assert_eq!(&String::from("foo"), IString::Rc(Rc::from("foo")));
    assert_eq!(&String::from("foo"), IString::Rc(Rc::from("foo")));
    assert_eq!(IString::Rc(Rc::from("foo")), &String::from("foo"));
    assert_eq!(IString::Static("foo"), &String::from("foo"));
    assert_eq!(&String::from("foo"), IString::Static("foo"));
    assert_eq!(&String::from("foo"), IString::Static("foo"));
    assert_eq!(IString::Static("foo"), &String::from("foo"));
    assert_ne!(IString::Rc(Rc::from("foo")), *"bar");
    assert_ne!(*"bar", IString::Rc(Rc::from("foo")));
    assert_ne!(*"foo", IString::Rc(Rc::from("bar")));
    assert_ne!(IString::Rc(Rc::from("bar")), *"foo");
    assert_ne!(IString::Static("foo"), *"bar");
    assert_ne!(*"bar", IString::Static("foo"));
    assert_ne!(*"foo", IString::Static("bar"));
    assert_ne!(IString::Static("bar"), *"foo");
    assert_ne!(IString::Rc(Rc::from("foo")), "bar");
    assert_ne!("bar", IString::Rc(Rc::from("foo")));
    assert_ne!("foo", IString::Rc(Rc::from("bar")));
    assert_ne!(IString::Rc(Rc::from("bar")), "foo");
    assert_ne!(IString::Static("foo"), "bar");
    assert_ne!("bar", IString::Static("foo"));
    assert_ne!("foo", IString::Static("bar"));
    assert_ne!(IString::Static("bar"), "foo");
    assert_ne!(IString::Rc(Rc::from("foo")), String::from("bar"));
    assert_ne!(String::from("bar"), IString::Rc(Rc::from("foo")));
    assert_ne!(String::from("foo"), IString::Rc(Rc::from("bar")));
    assert_ne!(IString::Rc(Rc::from("bar")), String::from("foo"));
    assert_ne!(IString::Static("foo"), String::from("bar"));
    assert_ne!(String::from("bar"), IString::Static("foo"));
    assert_ne!(String::from("foo"), IString::Static("bar"));
    assert_ne!(IString::Static("bar"), String::from("foo"));
    assert_ne!(IString::Rc(Rc::from("foo")), &String::from("bar"));
    assert_ne!(&String::from("bar"), IString::Rc(Rc::from("foo")));
    assert_ne!(&String::from("foo"), IString::Rc(Rc::from("bar")));
    assert_ne!(IString::Rc(Rc::from("bar")), &String::from("foo"));
    assert_ne!(IString::Static("foo"), &String::from("bar"));
    assert_ne!(&String::from("bar"), IString::Static("foo"));
    assert_ne!(&String::from("foo"), IString::Static("bar"));
    assert_ne!(IString::Static("bar"), &String::from("foo"));
}

#[test]
fn partial_cmp_strings() {
    assert_eq!(Some(Ordering::Equal), PartialOrd::partial_cmp(&IString::Rc(Rc::from("foo")), &*"foo"));
    assert_eq!(Some(Ordering::Equal), PartialOrd::partial_cmp(&*"foo", &IString::Rc(Rc::from("foo"))));
    assert_eq!(Some(Ordering::Equal), PartialOrd::partial_cmp(&IString::Static("foo"), &*"foo"));
    assert_eq!(Some(Ordering::Equal), PartialOrd::partial_cmp(&*"foo", &IString::Static("foo")));
    assert_eq!(Some(Ordering::Equal), PartialOrd::partial_cmp(&IString::Rc(Rc::from("foo")), &"foo"));
    assert_eq!(Some(Ordering::Equal), PartialOrd::partial_cmp(&"foo", &IString::Rc(Rc::from("foo"))));
    assert_eq!(Some(Ordering::Equal), PartialOrd::partial_cmp(&IString::Static("foo"), &"foo"));
    assert_eq!(Some(Ordering::Equal), PartialOrd::partial_cmp(&"foo", &IString::Static("foo")));
    assert_eq!(Some(Ordering::Equal), PartialOrd::partial_cmp(&IString::Rc(Rc::from("foo")), &String::from("foo")));
    assert_eq!(Some(Ordering::Equal), PartialOrd::partial_cmp(&String::from("foo"), &IString::Rc(Rc::from("foo"))));
    assert_eq!(Some(Ordering::Equal), PartialOrd::partial_cmp(&IString::Static("foo"), &String::from("foo")));
    assert_eq!(Some(Ordering::Equal), PartialOrd::partial_cmp(&String::from("foo"), &IString::Static("foo")));
    assert_eq!(Some(Ordering::Equal), PartialOrd::partial_cmp(&IString::Rc(Rc::from("foo")), &&String::from("foo")));
    assert_eq!(Some(Ordering::Equal), PartialOrd::partial_cmp(&&String::from("foo"), &IString::Rc(Rc::from("foo"))));
    assert_eq!(Some(Ordering::Equal), PartialOrd::partial_cmp(&IString::Static("foo"), &&String::from("foo")));
    assert_eq!(Some(Ordering::Equal), PartialOrd::partial_cmp(&&String::from("foo"), &IString::Static("foo")));
    assert_eq!(Some(Ordering::Greater), PartialOrd::partial_cmp(&IString::Rc(Rc::from("foo")), &*"bar"));
    assert_eq!(Some(Ordering::Greater), PartialOrd::partial_cmp(&*"foo", &IString::Rc(Rc::from("bar"))));
    assert_eq!(Some(Ordering::Greater), PartialOrd::partial_cmp(&IString::Static("foo"), &*"bar"));
    assert_eq!(Some(Ordering::Greater), PartialOrd::partial_cmp(&*"foo", &IString::Static("bar")));
    assert_eq!(Some(Ordering::Greater), PartialOrd::partial_cmp(&IString::Rc(Rc::from("foo")), &"bar"));
    assert_eq!(Some(Ordering::Greater), PartialOrd::partial_cmp(&"foo", &IString::Rc(Rc::from("bar"))));
    assert_eq!(Some(Ordering::Greater), PartialOrd::partial_cmp(&IString::Static("foo"), &"bar"));
    assert_eq!(Some(Ordering::Greater), PartialOrd::partial_cmp(&"foo", &IString::Static("bar")));
    assert_eq!(Some(Ordering::Greater), PartialOrd::partial_cmp(&IString::Rc(Rc::from("foo")), &String::from("bar")));
    assert_eq!(Some(Ordering::Greater), PartialOrd::partial_cmp(&String::from("foo"), &IString::Rc(Rc::from("bar"))));
    assert_eq!(Some(Ordering::Greater), PartialOrd::partial_cmp(&IString::Static("foo"), &String::from("bar")));
    assert_eq!(Some(Ordering::Greater), PartialOrd::partial_cmp(&String::from("foo"), &IString::Static("bar")));
    assert_eq!(Some(Ordering::Greater), PartialOrd::partial_cmp(&IString::Rc(Rc::from("foo")), &&String::from("bar")));
    assert_eq!(Some(Ordering::Greater), PartialOrd::partial_cmp(&&String::from("foo"), &IString::Rc(Rc::from("bar"))));
    assert_eq!(Some(Ordering::Greater), PartialOrd::partial_cmp(&IString::Static("foo"), &&String::from("bar")));
    assert_eq!(Some(Ordering::Greater), PartialOrd::partial_cmp(&&String::from("foo"), &IString::Static("bar")));
    assert_eq!(Some(Ordering::Less), PartialOrd::partial_cmp(&IString::Rc(Rc::from("bar")), &*"foo"));
    assert_eq!(Some(Ordering::Less), PartialOrd::partial_cmp(&*"bar", &IString::Rc(Rc::from("foo"))));
    assert_eq!(Some(Ordering::Less), PartialOrd::partial_cmp(&IString::Static("bar"), &*"foo"));
    assert_eq!(Some(Ordering::Less), PartialOrd::partial_cmp(&*"bar", &IString::Static("foo")));
    assert_eq!(Some(Ordering::Less), PartialOrd::partial_cmp(&IString::Rc(Rc::from("bar")), &"foo"));
    assert_eq!(Some(Ordering::Less), PartialOrd::partial_cmp(&"bar", &IString::Rc(Rc::from("foo"))));
    assert_eq!(Some(Ordering::Less), PartialOrd::partial_cmp(&IString::Static("bar"), &"foo"));
    assert_eq!(Some(Ordering::Less), PartialOrd::partial_cmp(&"bar", &IString::Static("foo")));
    assert_eq!(Some(Ordering::Less), PartialOrd::partial_cmp(&IString::Rc(Rc::from("bar")), &String::from("foo")));
    assert_eq!(Some(Ordering::Less), PartialOrd::partial_cmp(&String::from("bar"), &IString::Rc(Rc::from("foo"))));
    assert_eq!(Some(Ordering::Less), PartialOrd::partial_cmp(&IString::Static("bar"), &String::from("foo")));
    assert_eq!(Some(Ordering::Less), PartialOrd::partial_cmp(&String::from("bar"), &IString::Static("foo")));
    assert_eq!(Some(Ordering::Less), PartialOrd::partial_cmp(&IString::Rc(Rc::from("bar")), &&String::from("foo")));
    assert_eq!(Some(Ordering::Less), PartialOrd::partial_cmp(&&String::from("bar"), &IString::Rc(Rc::from("foo"))));
    assert_eq!(Some(Ordering::Less), PartialOrd::partial_cmp(&IString::Static("bar"), &&String::from("foo")));
    assert_eq!(Some(Ordering::Less), PartialOrd::partial_cmp(&&String::from("bar"), &IString::Static("foo")));
    assert_eq!(Some(Ordering::Greater), PartialOrd::partial_cmp(&IString::Rc(Rc::from("foobar")), &*"foo"));
    assert_eq!(Some(Ordering::Greater), PartialOrd::partial_cmp(&*"foobar", &IString::Rc(Rc::from("foo"))));
    assert_eq!(Some(Ordering::Greater), PartialOrd::partial_cmp(&IString::Static("foobar"), &*"foo"));
    assert_eq!(Some(Ordering::Greater), PartialOrd::partial_cmp(&*"foobar", &IString::Static("foo")));
    assert_eq!(Some(Ordering::Greater), PartialOrd::partial_cmp(&IString::Rc(Rc::from("foobar")), &"foo"));
    assert_eq!(Some(Ordering::Greater), PartialOrd::partial_cmp(&"foobar", &IString::Rc(Rc::from("foo"))));
    assert_eq!(Some(Ordering::Greater), PartialOrd::partial_cmp(&IString::Static("foobar"), &"foo"));
    assert_eq!(Some(Ordering::Greater), PartialOrd::partial_cmp(&"foobar", &IString::Static("foo")));
    assert_eq!(Some(Ordering::Greater), PartialOrd::partial_cmp(&IString::Rc(Rc::from("foobar")), &String::from("foo")));
    assert_eq!(Some(Ordering::Greater), PartialOrd::partial_cmp(&String::from("foobar"), &IString::Rc(Rc::from("foo"))));
    assert_eq!(Some(Ordering::Greater), PartialOrd::partial_cmp(&IString::Static("foobar"), &String::from("foo")));
    assert_eq!(Some(Ordering::Greater), PartialOrd::partial_cmp(&String::from("foobar"), &IString::Static("foo")));
    assert_eq!(Some(Ordering::Greater), PartialOrd::partial_cmp(&IString::Rc(Rc::from("foobar")), &&String::from("foo")));
    assert_eq!(Some(Ordering::Greater), PartialOrd::partial_cmp(&&String::from("foobar"), &IString::Rc(Rc::from("foo"))));
    assert_eq!(Some(Ordering::Greater), PartialOrd::partial_cmp(&IString::Static("foobar"), &&String::from("foo")));
    assert_eq!(Some(Ordering::Greater), PartialOrd::partial_cmp(&&String::from("foobar"), &IString::Static("foo")));
    assert_eq!(Some(Ordering::Less), PartialOrd::partial_cmp(&IString::Rc(Rc::from("foo")), &*"foobar"));
    assert_eq!(Some(Ordering::Less), PartialOrd::partial_cmp(&*"foo", &IString::Rc(Rc::from("foobar"))));
    assert_eq!(Some(Ordering::Less), PartialOrd::partial_cmp(&IString::Static("foo"), &*"foobar"));
    assert_eq!(Some(Ordering::Less), PartialOrd::partial_cmp(&*"foo", &IString::Static("foobar")));
    assert_eq!(Some(Ordering::Less), PartialOrd::partial_cmp(&IString::Rc(Rc::from("foo")), &"foobar"));
    assert_eq!(Some(Ordering::Less), PartialOrd::partial_cmp(&"foo", &IString::Rc(Rc::from("foobar"))));
    assert_eq!(Some(Ordering::Less), PartialOrd::partial_cmp(&IString::Static("foo"), &"foobar"));
    assert_eq!(Some(Ordering::Less), PartialOrd::partial_cmp(&"foo", &IString::Static("foobar")));
    assert_eq!(Some(Ordering::Less), PartialOrd::partial_cmp(&IString::Rc(Rc::from("foo")), &String::from("foobar")));
    assert_eq!(Some(Ordering::Less), PartialOrd::partial_cmp(&String::from("foo"), &IString::Rc(Rc::from("foobar"))));
    assert_eq!(Some(Ordering::Less), PartialOrd::partial_cmp(&IString::Static("foo"), &String::from("foobar")));
    assert_eq!(Some(Ordering::Less), PartialOrd::partial_cmp(&String::from("foo"), &IString::Static("foobar")));
    assert_eq!(Some(Ordering::Less), PartialOrd::partial_cmp(&IString::Rc(Rc::from("foo")), &&String::from("foobar")));
    assert_eq!(Some(Ordering::Less), PartialOrd::partial_cmp(&&String::from("foo"), &IString::Rc(Rc::from("foobar"))));
    assert_eq!(Some(Ordering::Less), PartialOrd::partial_cmp(&IString::Static("foo"), &&String::from("foobar")));
    assert_eq!(Some(Ordering::Less), PartialOrd::partial_cmp(&&String::from("foo"), &IString::Static("foobar")));
}

const STRING: IString = IString::Static("foo");

#[test]
fn const_string() {
    let _string = STRING;
}

#[test]
fn deref_str() {
    assert_eq!(IString::Static("foo").to_uppercase(), "FOO");
    assert_eq!(IString::Rc(Rc::from("foo")).to_uppercase(), "FOO");
}

#[test]
fn borrow_str() {
    let map: HashMap<_, _> = [
        (IString::Static("foo"), true),
        (IString::Rc(Rc::from("bar")), true),
    ]
    .into_iter()
    .collect();

    assert_eq!(map.get("foo").copied(), Some(true));
    assert_eq!(map.get("bar").copied(), Some(true));
}

#[test]
fn as_cow_does_not_clone() {
    let rc_s = Rc::from("foo");

    let s = IString::Rc(Rc::clone(&rc_s));
    assert_eq!(Rc::strong_count(&rc_s), 2);

    let cow: Cow<'_, str> = s.as_cow();
    assert_eq!(Rc::strong_count(&rc_s), 2);

    // the cow must outlive the count check above
    assert_eq!(cow, "foo");
}

#[test]
fn from_ref() {
    let s = IString::Static("foo");
    let _out = IString::from(&s);
}
