//! An immutable, cheaply cloned sequence whose reference count is atomic, so that it may be
//! shared across threads.
use std::sync::Arc;
use vstd::prelude::*;

use crate::array::{
    clone_elements, clones_of, drain_to_vec, elements_eq, eq_follows_spec, push_clones, size_hint_of,
    slices_eq,
};
use crate::sync::arc_clone;
use crate::ImplicitClone;

verus! {

/// Relies on `From<Vec<T>> for Arc<[T]>`: the elements move into a new allocation, in order.
#[verifier::external_body]
fn arc_from_vec<T>(v: Vec<T>) -> (r: Arc<[T]>)
    ensures
        (*r)@ == v@,
{
    Arc::from(v)
}

/// Relies on `Arc::get_mut`: a mutable borrow of the contents, given only when no other handle
/// to the allocation exists.
#[verifier::external_body]
fn arc_get_mut<T>(rc: &mut Arc<[T]>) -> (r: Option<&mut [T]>)
    ensures
        r matches Some(m) ==> (*m)@ == (**old(rc))@ && (**final(rc))@ == (*final(r.unwrap()))@,
        r is None ==> *final(rc) == *old(rc),
{
    Arc::get_mut(rc)
}

/// Relies on `Arc::make_mut`: a mutable borrow of the contents, which are first cloned into a
/// new allocation when another handle to the old one exists.
#[verifier::external_body]
fn arc_make_mut<T: Clone>(rc: &mut Arc<[T]>) -> (r: &mut [T])
    ensures
        (*r)@.len() == (**old(rc))@.len(),
        forall|i: int| 0 <= i < (*r)@.len() ==> cloned::<T>((**old(rc))@[i], #[trigger] (*r)@[i]),
        (**final(rc))@ == (*final(r))@,
{
    Arc::make_mut(rc)
}

/// An immutable array that is cheap to clone and may be shared across threads.
#[derive(Debug)]
pub enum IArray<T: ImplicitClone + 'static> {
    /// A static slice.
    Static(&'static [T]),
    /// An atomically reference counted slice.
    Rc(Arc<[T]>),
    /// A single element.
    Single([T; 1]),
}

impl<T: ImplicitClone + 'static> View for IArray<T> {
    type V = Seq<T>;

    open spec fn view(&self) -> Seq<T> {
        match self {
            IArray::Static(a) => a@,
            IArray::Rc(a) => (**a)@,
            IArray::Single(a) => a@,
        }
    }
}

impl<T: ImplicitClone + 'static> IArray<T> {
    /// Returns the number of elements.
    pub fn len(&self) -> (r: usize)
        ensures
            r == self@.len(),
    {
        match self {
            IArray::Static(a) => a.len(),
            IArray::Rc(a) => a.len(),
            IArray::Single(_) => 1,
        }
    }

    /// Returns `true` if the array holds no elements.
    pub fn is_empty(&self) -> (r: bool)
        ensures
            r == (self@.len() == 0),
    {
        match self {
            IArray::Static(a) => a.len() == 0,
            IArray::Rc(a) => a.len() == 0,
            IArray::Single(_) => false,
        }
    }

    /// Extracts a slice containing the entire array.
    pub fn as_slice(&self) -> (r: &[T])
        ensures
            r@ == self@,
    {
        match self {
            IArray::Static(a) => a,
            IArray::Rc(a) => a,
            IArray::Single(a) => a.as_slice(),
        }
    }

    /// Returns a clone of the element at `index`, or `None` when out of bounds.
    pub fn get(&self, index: usize) -> (r: Option<T>)
        ensures
            index < self@.len() ==> r == Some(self@[index as int]),
            index >= self@.len() ==> r is None,
    {
        let s = self.as_slice();
        if index < s.len() {
            Some(s[index].implicit_clone())
        } else {
            None
        }
    }

    /// Gives mutable access to the elements when this array holds them exclusively: a single
    /// element always, a reference counted slice when no other handle exists, a static slice
    /// never. Nothing is cloned.
    pub fn get_mut(&mut self) -> (r: Option<&mut [T]>)
        ensures
            *old(self) is Static ==> r is None,
            *old(self) is Single ==> r is Some,
            r matches Some(m) ==> (*m)@ == old(self)@ && final(self)@ == (*final(r.unwrap()))@,
            r is None ==> *final(self) == *old(self),
            *old(self) is Static <==> *final(self) is Static,
            *old(self) is Rc <==> *final(self) is Rc,
    {
        match self {
            IArray::Rc(rc) => arc_get_mut(rc),
            IArray::Static(_) => None,
            IArray::Single(a) => {
                let m: &mut [T] = a;
                Some(m)
            },
        }
    }
}

impl<T: ImplicitClone + 'static> IArray<T> {
    /// Gives mutable access to the elements, cloning them first when they are not held
    /// exclusively.
    ///
    /// A single element is changed in place. A reference counted slice is changed in place
    /// when no other handle exists, and otherwise cloned into a new one first. A static slice is
    /// always cloned into a new reference counted slice.
    pub fn make_mut(&mut self) -> (r: &mut [T])
        where
            T: Clone,
        ensures
            clones_of(old(self)@, (*r)@),
            final(self)@ == (*final(r))@,
            *old(self) is Single ==> *final(self) is Single && (*r)@ == old(self)@,
            !(*old(self) is Single) ==> *final(self) is Rc,
    {
        if let IArray::Static(slice) = self {
            let fresh = arc_from_vec(clone_elements(slice));
            *self = IArray::Rc(fresh);
        }
        match self {
            IArray::Rc(rc) => arc_make_mut(rc),
            IArray::Static(_) => unreached(),
            IArray::Single(a) => a,
        }
    }
}

impl<T: ImplicitClone + 'static> Clone for IArray<T> {
    /// A copy of the handle: the static slice or the reference counted slice is shared, a
    /// single element is cloned.
    fn clone(&self) -> (r: Self)
        ensures
            r == *self,
    {
        match self {
            IArray::Static(a) => IArray::Static(*a),
            IArray::Rc(a) => IArray::Rc(arc_clone(a)),
            IArray::Single(a) => {
                let x = a[0].implicit_clone();
                let r = [x];
                assert(r =~= *a);
                IArray::Single(r)
            },
        }
    }
}

impl<T: ImplicitClone + 'static> ImplicitClone for IArray<T> {
    fn implicit_clone(&self) -> (r: Self) {
        self.clone()
    }
}

impl<T: ImplicitClone + 'static> IArray<T> {
    /// An empty array, without allocation.
    pub fn empty() -> (r: Self)
        ensures
            r@ == Seq::<T>::empty(),
            r is Static,
    {
        IArray::Static(&[])
    }
}

impl<T: ImplicitClone + 'static> Default for IArray<T> {
    fn default() -> (r: Self)
        ensures
            r@ == Seq::<T>::empty(),
            r is Static,
    {
        IArray::Static(&[])
    }
}

impl<T: ImplicitClone + 'static> From<&'static [T]> for IArray<T> {
    fn from(a: &'static [T]) -> (r: IArray<T>)
        ensures
            r == IArray::Static(a),
    {
        IArray::Static(a)
    }
}

impl<T: ImplicitClone + 'static> vstd::std_specs::convert::FromSpecImpl<&'static [T]> for IArray<T> {
    open spec fn obeys_from_spec() -> bool {
        true
    }

    open spec fn from_spec(a: &'static [T]) -> IArray<T> {
        IArray::Static(a)
    }
}

impl<T: ImplicitClone + 'static> From<Vec<T>> for IArray<T> {
    fn from(a: Vec<T>) -> (r: IArray<T>)
        ensures
            r@ == a@,
            r is Rc,
    {
        IArray::Rc(arc_from_vec(a))
    }
}

impl<T: ImplicitClone + 'static> vstd::std_specs::convert::FromSpecImpl<Vec<T>> for IArray<T> {
    /// The new reference counted slice is not a value that a specification can name, so
    /// `from` states its result itself.
    open spec fn obeys_from_spec() -> bool {
        false
    }

    open spec fn from_spec(a: Vec<T>) -> IArray<T> {
        arbitrary()
    }
}

impl<T: ImplicitClone + 'static> From<Arc<[T]>> for IArray<T> {
    fn from(a: Arc<[T]>) -> (r: IArray<T>)
        ensures
            r == IArray::Rc(a),
    {
        IArray::Rc(a)
    }
}

impl<T: ImplicitClone + 'static> vstd::std_specs::convert::FromSpecImpl<Arc<[T]>> for IArray<T> {
    open spec fn obeys_from_spec() -> bool {
        true
    }

    open spec fn from_spec(a: Arc<[T]>) -> IArray<T> {
        IArray::Rc(a)
    }
}

impl<'a, T: ImplicitClone + 'static> From<&'a IArray<T>> for IArray<T> {
    fn from(a: &'a IArray<T>) -> (r: IArray<T>)
        ensures
            r == *a,
    {
        a.clone()
    }
}

impl<'a, T: ImplicitClone + 'static> vstd::std_specs::convert::FromSpecImpl<&'a IArray<T>> for IArray<T> {
    open spec fn obeys_from_spec() -> bool {
        true
    }

    open spec fn from_spec(a: &'a IArray<T>) -> IArray<T> {
        *a
    }
}

impl<T: ImplicitClone + 'static> From<[T; 1]> for IArray<T> {
    fn from(a: [T; 1]) -> (r: IArray<T>)
        ensures
            r == IArray::Single(a),
    {
        IArray::Single(a)
    }
}

impl<T: ImplicitClone + 'static> vstd::std_specs::convert::FromSpecImpl<[T; 1]> for IArray<T> {
    open spec fn obeys_from_spec() -> bool {
        true
    }

    open spec fn from_spec(a: [T; 1]) -> IArray<T> {
        IArray::Single(a)
    }
}

/// A double-ended iterator over clones of the elements of an [`IArray`].
#[derive(Debug)]
pub struct Iter<T: ImplicitClone + 'static> {
    array: IArray<T>,
    left: usize,
    right: usize,
}

impl<T: ImplicitClone + 'static> Iter<T> {
    #[verifier::type_invariant]
    closed spec fn bounds_hold(self) -> bool {
        self.left <= self.right <= self.array@.len()
    }

    /// The elements not yet pulled from either end, in index order.
    pub closed spec fn remaining(self) -> Seq<T> {
        self.array@.subrange(self.left as int, self.right as int)
    }

    fn new(array: IArray<T>) -> (r: Self)
        ensures
            r.remaining() == array@,
    {
        let right = array.len();
        let r = Iter { left: 0, right, array };
        assert(r.remaining() =~= r.array@);
        r
    }

    /// Pulls the next element from the front.
    pub fn next(&mut self) -> (r: Option<T>)
        ensures
            old(self).remaining().len() > 0 ==> r == Some(old(self).remaining()[0])
                && final(self).remaining() == old(self).remaining().drop_first(),
            old(self).remaining().len() == 0 ==> r is None && final(self).remaining()
                == old(self).remaining(),
    {
        proof {
            use_type_invariant(&*self);
        }
        if self.left >= self.right {
            return None;
        }
        let item = self.array.get(self.left);
        self.left = self.left + 1;
        assert(self.remaining() =~= old(self).remaining().drop_first());
        item
    }

    /// Pulls the next element from the back.
    pub fn next_back(&mut self) -> (r: Option<T>)
        ensures
            old(self).remaining().len() > 0 ==> r == Some(old(self).remaining().last())
                && final(self).remaining() == old(self).remaining().drop_last(),
            old(self).remaining().len() == 0 ==> r is None && final(self).remaining()
                == old(self).remaining(),
    {
        proof {
            use_type_invariant(&*self);
        }
        if self.left >= self.right {
            return None;
        }
        self.right = self.right - 1;
        assert(self.remaining() =~= old(self).remaining().drop_last());
        self.array.get(self.right)
    }
}

impl<T: ImplicitClone + 'static> IArray<T> {
    /// Returns a double-ended iterator over clones of the elements, in index order.
    pub fn iter(&self) -> (r: Iter<T>)
        ensures
            r.remaining() == self@,
    {
        Iter::new(self.clone())
    }
}

impl<T: ImplicitClone + PartialEq + 'static> PartialEq for IArray<T> {
    /// Element-wise equality, whatever the storage of either side.
    fn eq(&self, other: &IArray<T>) -> (r: bool) {
        slices_eq(self.as_slice(), other.as_slice())
    }
}

impl<T: ImplicitClone + PartialEq + 'static> vstd::std_specs::cmp::PartialEqSpecImpl for IArray<T> {
    open spec fn obeys_eq_spec() -> bool {
        eq_follows_spec::<T, T>()
    }

    open spec fn eq_spec(&self, other: &IArray<T>) -> bool {
        elements_eq(self@, other@)
    }
}

impl<T: ImplicitClone + Eq + 'static> Eq for IArray<T> {
}

impl<T: ImplicitClone + PartialEq<U> + 'static, U, const N: usize> PartialEq<[U; N]> for IArray<T> {
    fn eq(&self, other: &[U; N]) -> (r: bool) {
        slices_eq(self.as_slice(), other.as_slice())
    }
}

impl<T: ImplicitClone + PartialEq<U> + 'static, U, const N: usize> vstd::std_specs::cmp::PartialEqSpecImpl<[U; N]> for IArray<T> {
    open spec fn obeys_eq_spec() -> bool {
        eq_follows_spec::<T, U>()
    }

    open spec fn eq_spec(&self, other: &[U; N]) -> bool {
        elements_eq(self@, other@)
    }
}

impl<'a, T: ImplicitClone + PartialEq<U> + 'static, U, const N: usize> PartialEq<&'a [U; N]> for IArray<T> {
    fn eq(&self, other: &&'a [U; N]) -> (r: bool) {
        slices_eq(self.as_slice(), other.as_slice())
    }
}

impl<'a, T: ImplicitClone + PartialEq<U> + 'static, U, const N: usize> vstd::std_specs::cmp::PartialEqSpecImpl<&'a [U; N]> for IArray<T> {
    open spec fn obeys_eq_spec() -> bool {
        eq_follows_spec::<T, U>()
    }

    open spec fn eq_spec(&self, other: &&'a [U; N]) -> bool {
        elements_eq(self@, other@)
    }
}

impl<T: ImplicitClone + PartialEq<U> + 'static, U> PartialEq<[U]> for IArray<T> {
    fn eq(&self, other: &[U]) -> (r: bool) {
        slices_eq(self.as_slice(), other)
    }
}

impl<T: ImplicitClone + PartialEq<U> + 'static, U> vstd::std_specs::cmp::PartialEqSpecImpl<[U]> for IArray<T> {
    open spec fn obeys_eq_spec() -> bool {
        eq_follows_spec::<T, U>()
    }

    open spec fn eq_spec(&self, other: &[U]) -> bool {
        elements_eq(self@, other@)
    }
}

impl<'a, T: ImplicitClone + PartialEq<U> + 'static, U> PartialEq<&'a [U]> for IArray<T> {
    fn eq(&self, other: &&'a [U]) -> (r: bool) {
        slices_eq(self.as_slice(), *other)
    }
}

impl<'a, T: ImplicitClone + PartialEq<U> + 'static, U> vstd::std_specs::cmp::PartialEqSpecImpl<&'a [U]> for IArray<T> {
    open spec fn obeys_eq_spec() -> bool {
        eq_follows_spec::<T, U>()
    }

    open spec fn eq_spec(&self, other: &&'a [U]) -> bool {
        elements_eq(self@, other@)
    }
}

impl<T: ImplicitClone + 'static> IArray<T> {
    /// Replaces the elements in `start..end` by `middle`: the unaffected head and tail are
    /// cloned around it into a new reference counted slice, which then replaces `self`.
    fn splice(&mut self, start: usize, end: usize, middle: Vec<T>)
        requires
            start <= end <= old(self)@.len(),
        ensures
            final(self)@ == old(self)@.subrange(0, start as int) + middle@ + old(self)@.subrange(
                end as int,
                old(self)@.len() as int,
            ),
            *final(self) is Rc,
    {
        let s = self.as_slice();
        let mut v: Vec<T> = Vec::new();
        push_clones(&mut v, s, 0, start);
        let mut middle = middle;
        v.append(&mut middle);
        push_clones(&mut v, s, end, s.len());
        *self = IArray::Rc(arc_from_vec(v));
    }

    /// Inserts `value` at `index`, shifting the elements after it.
    pub fn insert(&mut self, index: usize, value: T)
        requires
            index <= old(self)@.len(),
        ensures
            final(self)@ == old(self)@.insert(index as int, value),
            *final(self) is Rc,
    {
        let mut middle: Vec<T> = Vec::new();
        middle.push(value);
        self.splice(index, index, middle);
        assert(self@ =~= old(self)@.insert(index as int, value));
    }

    /// Inserts clones of `values` at `index`, shifting the elements after them.
    pub fn insert_many(&mut self, index: usize, values: &[T])
        requires
            index <= old(self)@.len(),
        ensures
            final(self)@ == old(self)@.subrange(0, index as int) + values@ + old(self)@.subrange(
                index as int,
                old(self)@.len() as int,
            ),
            *final(self) is Rc,
    {
        self.splice(index, index, clone_elements(values));
    }

    /// Removes the element at `index` and returns it, shifting the elements after it.
    pub fn remove(&mut self, index: usize) -> (r: T)
        requires
            index < old(self)@.len(),
        ensures
            r == old(self)@[index as int],
            final(self)@ == old(self)@.remove(index as int),
            *final(self) is Rc,
    {
        let r = self.as_slice()[index].implicit_clone();
        self.splice(index, index + 1, Vec::new());
        assert(self@ =~= old(self)@.remove(index as int));
        r
    }

    /// Removes the elements in the half-open range `start..end`.
    pub fn remove_range(&mut self, start: usize, end: usize)
        requires
            start <= end <= old(self)@.len(),
        ensures
            final(self)@ == old(self)@.subrange(0, start as int) + old(self)@.subrange(
                end as int,
                old(self)@.len() as int,
            ),
            *final(self) is Rc,
    {
        self.splice(start, end, Vec::new());
        assert(self@ =~= old(self)@.subrange(0, start as int) + old(self)@.subrange(
            end as int,
            old(self)@.len() as int,
        ));
    }

    /// Appends `value` at the end.
    pub fn push(&mut self, value: T)
        ensures
            final(self)@ == old(self)@.push(value),
            *final(self) is Rc,
    {
        let n = self.len();
        self.insert(n, value);
        assert(self@ =~= old(self)@.push(value));
    }

    /// Appends clones of `values` at the end.
    pub fn extend(&mut self, values: &[T])
        ensures
            final(self)@ == old(self)@ + values@,
            *final(self) is Rc,
    {
        let n = self.len();
        self.insert_many(n, values);
        assert(self@ =~= old(self)@ + values@);
    }
}

impl<T: ImplicitClone + 'static> IArray<T> {
    /// Builds an array from drained elements, with the storage that their number calls for:
    /// static and empty for none, single for one, reference counted for more.
    fn from_drained(v: Vec<T>) -> (r: IArray<T>)
        ensures
            r@ == v@,
            r is Static <==> v@.len() == 0,
            r is Single <==> v@.len() == 1,
            r is Rc <==> v@.len() >= 2,
    {
        let ghost drained = v@;
        let mut v = v;
        if v.len() == 0 {
            IArray::empty()
        } else if v.len() == 1 {
            let x = v.pop().unwrap();
            let r = IArray::Single([x]);
            assert(r@ =~= drained);
            r
        } else {
            IArray::Rc(arc_from_vec(v))
        }
    }

    /// Builds an array from the items of `it`, choosing the storage from the iterator's
    /// declared upper bound.
    ///
    /// When that bound is zero or one, the items are pulled one by one, so that an empty or
    /// single-element result needs no allocation; otherwise the iterator is drained into a
    /// reference counted slice; a drained result is then stored as its length calls for. A bound
    /// that proves wrong still yields every item.
    pub fn from_iterator<I: Iterator<Item = T>>(it: I) -> (r: IArray<T>)
        ensures
            <I as vstd::std_specs::iter::IteratorSpec>::obeys_prophetic_iter_laws(&it) ==> r@
            == <I as vstd::std_specs::iter::IteratorSpec>::remaining(&it),
            r is Static <==> r@.len() == 0,
            r is Single <==> r@.len() == 1,
            r is Rc <==> r@.len() >= 2,
    {
        let ghost init = <I as vstd::std_specs::iter::IteratorSpec>::remaining(&it);
        let ghost lawful = <I as vstd::std_specs::iter::IteratorSpec>::obeys_prophetic_iter_laws(&it);
        let mut it = it;
        let (_, upper) = size_hint_of(&it);
        let few = match upper {
            Some(n) => n <= 1,
            None => false,
        };
        if !few {
            return IArray::from_drained(drain_to_vec(it));
        }
        match it.next() {
            None => IArray::empty(),
            Some(first) => match it.next() {
                None => {
                    let r = IArray::Single([first]);
                    assert(lawful ==> r@ =~= init);
                    r
                },
                Some(second) => {
                    let mut v: Vec<T> = Vec::new();
                    v.push(first);
                    v.push(second);
                    let mut rest = drain_to_vec(it);
                    v.append(&mut rest);
                    assert(lawful ==> v@ =~= init);
                    IArray::Rc(arc_from_vec(v))
                },
            },
        }
    }
}

impl<T: ImplicitClone + 'static> std::ops::Deref for IArray<T> {
    type Target = [T];

    fn deref(&self) -> (r: &[T])
        ensures
            r@ == self@,
    {
        self.as_slice()
    }
}

/// A clone compares equal to the array it was made from, whatever its storage, when the
/// elements' `==` is equality of values.
///
/// The clone is a separate value: changing either array afterwards, through `make_mut` or a
/// structural edit, changes only that array, and the other keeps the content it had.
pub proof fn lemma_clone_compares_equal<T: ImplicitClone + PartialEq + 'static>(
    a: IArray<T>,
    c: IArray<T>,
)
    requires
        call_ensures(<IArray<T> as Clone>::clone, (&a,), c),
        vstd::laws_eq::obeys_concrete_eq::<T>(),
    ensures
        c@ == a@,
        <IArray<T> as vstd::std_specs::cmp::PartialEqSpec>::eq_spec(&c, &a),
{
    reveal(vstd::laws_eq::obeys_concrete_eq);
}

/// Arrays holding the same elements compare equal, whatever their storage (static, reference
/// counted or single), when the elements' `==` is equality of values.
pub proof fn lemma_eq_by_content<T: ImplicitClone + PartialEq + 'static>(a: IArray<T>, b: IArray<T>)
    requires
        a@ == b@,
        vstd::laws_eq::obeys_concrete_eq::<T>(),
    ensures
        <IArray<T> as vstd::std_specs::cmp::PartialEqSpec>::eq_spec(&a, &b),
{
    reveal(vstd::laws_eq::obeys_concrete_eq);
}

} // verus!
