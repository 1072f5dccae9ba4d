//! An immutable, cheaply cloned map that keeps its entries in insertion order.
use indexmap::IndexMap;
use std::hash::Hash;
use std::rc::Rc;
use vstd::prelude::*;

use crate::array::{drain_to_vec, eq_follows_spec, equal_under, rc_clone};
use crate::string::{str_eq, IString};
use crate::ImplicitClone;

verus! {

/// The ordered hash map behind a shared map; opaque to proofs.
#[verifier::external_type_specification]
#[verifier::external_body]
#[verifier::reject_recursive_types(K)]
#[verifier::reject_recursive_types(V)]
#[verifier::reject_recursive_types(S)]
pub struct ExIndexMap<K, V, S>(IndexMap<K, V, S>);

/// Holds when the key type's `==` is equality of values and its hash depends on the value alone,
/// as for the integer types: a hash map then finds exactly the entries whose key is the one
/// given.
pub open spec fn keys_hash_by_value<K: PartialEq>() -> bool {
    &&& vstd::std_specs::hash::obeys_key_model::<K>()
    &&& vstd::laws_eq::obeys_concrete_eq::<K>()
}

/// Holds when the key type's `==` follows its specification.
pub open spec fn keys_compare_by_spec<K: PartialEq>() -> bool {
    eq_follows_spec::<K, K>()
}

/// Holds when `a` and `b` are equal keys under the key type's `==`.
pub open spec fn same_key<K: PartialEq>(a: K, b: K) -> bool {
    equal_under::<K, K>(&a, &b)
}

/// The position of the first entry whose key equals `k` under the key type's `==`, if any.
pub open spec fn find_key<K: PartialEq, V>(entries: Seq<(K, V)>, k: K) -> Option<int>
    decreases entries.len(),
{
    if entries.len() == 0 {
        None
    } else {
        match find_key(entries.drop_last(), k) {
            Some(i) => Some(i),
            None => if same_key(entries.last().0, k) {
                Some(entries.len() - 1)
            } else {
                None
            },
        }
    }
}

/// Inserts the pair `(k, v)`: an entry with key `k` keeps its place and key and takes the value
/// `v`; otherwise the pair is appended.
pub open spec fn insert_entry<K: PartialEq, V>(entries: Seq<(K, V)>, k: K, v: V) -> Seq<(K, V)> {
    match find_key(entries, k) {
        Some(i) => entries.update(i, (entries[i].0, v)),
        None => entries.push((k, v)),
    }
}

/// Inserts each of `pairs` in turn.
pub open spec fn insert_all<K: PartialEq, V>(entries: Seq<(K, V)>, pairs: Seq<(K, V)>) -> Seq<(K, V)>
    decreases pairs.len(),
{
    if pairs.len() == 0 {
        entries
    } else {
        insert_all(insert_entry(entries, pairs[0].0, pairs[0].1), pairs.drop_first())
    }
}

/// Holds when `r`, a position found by a lookup, is the one that `p` describes.
pub open spec fn same_position(r: Option<usize>, p: Option<int>) -> bool {
    match r {
        Some(i) => p == Some(i as int),
        None => p is None,
    }
}

/// A hash map that keeps insertion order, and the entries that it holds, in that order.
///
/// The ghost sequence stands for the map's contents: only the trusted functions below build or
/// read a value of this type, and each states what it does in terms of that sequence.
#[verifier::reject_recursive_types(K)]
#[verifier::reject_recursive_types(V)]
pub struct HashedEntries<K, V> {
    pub(crate) map: IndexMap<K, V>,
    pub(crate) entries: Ghost<Seq<(K, V)>>,
}

impl<K, V> View for HashedEntries<K, V> {
    type V = Seq<(K, V)>;

    closed spec fn view(&self) -> Seq<(K, V)> {
        self.entries@
    }
}

/// Relies on `FromIterator<(K, V)> for IndexMap`: the pairs are inserted in order; a key met
/// again keeps its first place and takes the later value.
#[verifier::external_body]
pub(crate) fn collect_pairs<K: Hash + Eq, V>(pairs: Vec<(K, V)>) -> (r: HashedEntries<K, V>)
    ensures
        keys_hash_by_value::<K>() ==> r@ == insert_all(Seq::empty(), pairs@),
{
    HashedEntries { map: IndexMap::from_iter(pairs), entries: Ghost(arbitrary()) }
}

/// Relies on `IndexMap::len`: the number of entries.
#[verifier::external_body]
pub(crate) fn entries_len<K, V>(m: &HashedEntries<K, V>) -> (r: usize)
    ensures
        r == m@.len(),
{
    m.map.len()
}

/// Relies on `IndexMap::get_index`: the entry at a position, if there is one.
#[verifier::external_body]
pub(crate) fn entry_at<K, V>(m: &HashedEntries<K, V>, index: usize) -> (r: Option<(&K, &V)>)
    ensures
        index < m@.len() ==> r == Some((&m@[index as int].0, &m@[index as int].1)),
        index >= m@.len() ==> r is None,
{
    m.map.get_index(index)
}

/// Relies on `IndexMap::get_index_of`: the position of the entry with the key given, if any.
#[verifier::external_body]
pub(crate) fn key_position<K: Hash + Eq, V>(m: &HashedEntries<K, V>, key: &K) -> (r: Option<usize>)
    ensures
        keys_hash_by_value::<K>() ==> same_position(r, find_key(m@, *key)),
{
    m.map.get_index_of(key)
}

/// A position found for a key holds an entry with that key.
pub proof fn lemma_find_key_found<K: PartialEq, V>(entries: Seq<(K, V)>, k: K)
    ensures
        find_key(entries, k) matches Some(i) ==> 0 <= i < entries.len() && same_key(entries[i].0, k),
    decreases entries.len(),
{
    if entries.len() > 0 {
        lemma_find_key_found(entries.drop_last(), k);
    }
}

/// A key found in a prefix is found, at the same place, in the whole sequence.
pub proof fn lemma_find_key_prefix<K: PartialEq, V>(entries: Seq<(K, V)>, n: int, k: K)
    requires
        0 <= n <= entries.len(),
        find_key(entries.take(n), k) is Some,
    ensures
        find_key(entries, k) == find_key(entries.take(n), k),
    decreases entries.len() - n,
{
    if n == entries.len() {
        assert(entries.take(n) =~= entries);
    } else {
        assert(entries.take(n + 1).drop_last() =~= entries.take(n));
        lemma_find_key_prefix(entries, n + 1, k);
    }
}

/// No position is found for a key that no entry has.
pub proof fn lemma_find_key_absent<K: PartialEq, V>(entries: Seq<(K, V)>, k: K)
    requires
        forall|i: int| 0 <= i < entries.len() ==> !same_key(#[trigger] entries[i].0, k),
    ensures
        find_key(entries, k) is None,
    decreases entries.len(),
{
    if entries.len() > 0 {
        let rest = entries.drop_last();
        assert forall|i: int| 0 <= i < rest.len() implies !same_key(#[trigger] rest[i].0, k) by {
            assert(rest[i] == entries[i]);
        }
        lemma_find_key_absent(rest, k);
    }
}

/// Holds when no two of `pairs` have equal keys under the key type's `==`.
pub open spec fn distinct_keys<K: PartialEq, V>(pairs: Seq<(K, V)>) -> bool {
    forall|i: int, j: int|
        0 <= i < pairs.len() && 0 <= j < pairs.len() && i != j ==> !same_key(
            #[trigger] pairs[i].0,
            #[trigger] pairs[j].0,
        )
}

/// Inserting pairs whose keys are distinct, and new to `entries`, appends them in their order.
pub proof fn lemma_insert_new_keys_appends<K: PartialEq, V>(entries: Seq<(K, V)>, pairs: Seq<(K, V)>)
    requires
        distinct_keys(pairs),
        forall|i: int, j: int|
            0 <= i < entries.len() && 0 <= j < pairs.len() ==> !same_key(
                #[trigger] entries[i].0,
                #[trigger] pairs[j].0,
            ),
    ensures
        insert_all(entries, pairs) == entries + pairs,
    decreases pairs.len(),
{
    if pairs.len() == 0 {
        assert(entries + pairs =~= entries);
    } else {
        let first = pairs[0];
        let rest = pairs.drop_first();
        assert forall|i: int| 0 <= i < entries.len() implies !same_key(
            #[trigger] entries[i].0,
            first.0,
        ) by {
            assert(pairs[0] == first);
        }
        lemma_find_key_absent(entries, first.0);
        let grown = entries.push(first);
        assert(insert_entry(entries, first.0, first.1) == grown);
        assert forall|i: int, j: int|
            0 <= i < rest.len() && 0 <= j < rest.len() && i != j implies !same_key(
                #[trigger] rest[i].0,
                #[trigger] rest[j].0,
            ) by {
            assert(rest[i] == pairs[i + 1]);
            assert(rest[j] == pairs[j + 1]);
        }
        assert forall|i: int, j: int|
            0 <= i < grown.len() && 0 <= j < rest.len() implies !same_key(
                #[trigger] grown[i].0,
                #[trigger] rest[j].0,
            ) by {
            assert(rest[j] == pairs[j + 1]);
            if i < entries.len() {
                assert(grown[i] == entries[i]);
            } else {
                assert(grown[i] == pairs[0]);
            }
        }
        lemma_insert_new_keys_appends(grown, rest);
        assert(grown + rest =~= entries + pairs);
    }
}

/// Building a map from pairs whose keys are distinct keeps exactly those pairs, in their order.
pub proof fn lemma_distinct_keys_keep_order<K: PartialEq, V>(pairs: Seq<(K, V)>)
    requires
        distinct_keys(pairs),
    ensures
        insert_all(Seq::empty(), pairs) == pairs,
{
    lemma_insert_new_keys_appends(Seq::empty(), pairs);
    assert(Seq::<(K, V)>::empty() + pairs =~= pairs);
}

/// Finds the position of the first entry of `a` whose key is `key`, scanning from the front.
pub(crate) fn scan_for_key<K: PartialEq, V>(a: &[(K, V)], key: &K) -> (r: Option<usize>)
    ensures
        keys_compare_by_spec::<K>() ==> same_position(r, find_key(a@, *key)),
{
    let mut i: usize = 0;
    assert(a@.take(0) =~= Seq::<(K, V)>::empty());
    while i < a.len()
        invariant
            i <= a@.len(),
            keys_compare_by_spec::<K>() ==> find_key(a@.take(i as int), *key) is None,
        decreases a@.len() - i,
    {
        assert(a@.take(i + 1).drop_last() =~= a@.take(i as int));
        assert(a@.take(i + 1).last() == a@[i as int]);
        let found = a[i].0 == *key;
        proof {
            if keys_compare_by_spec::<K>() {
                if found {
                    lemma_find_key_prefix(a@, i + 1, *key);
                }
            }
        }
        if found {
            return Some(i);
        }
        i = i + 1;
    }
    assert(a@.take(a@.len() as int) =~= a@);
    None
}

/// An immutable map that is cheap to clone and keeps its entries in insertion order.
#[verifier::reject_recursive_types(K)]
#[verifier::reject_recursive_types(V)]
pub enum IMap<K: Eq + Hash + ImplicitClone + 'static, V: PartialEq + ImplicitClone + 'static> {
    /// A (small) static map, searched from the front.
    Static(&'static [(K, V)]),
    /// A reference counted hash map.
    Rc(Rc<HashedEntries<K, V>>),
}

impl<K: Eq + Hash + ImplicitClone + 'static, V: PartialEq + ImplicitClone + 'static> View for IMap<K, V> {
    type V = Seq<(K, V)>;

    open spec fn view(&self) -> Seq<(K, V)> {
        match self {
            IMap::Static(a) => a@,
            IMap::Rc(m) => m@,
        }
    }
}

impl<K: Eq + Hash + ImplicitClone + 'static, V: PartialEq + ImplicitClone + 'static> IMap<K, V> {
    /// Holds when lookups by key are described exactly by [`find_key`]: a static map compares
    /// keys with their `==`, which must follow its specification; a hash map also needs keys
    /// that hash by value.
    pub open spec fn lookups_exact(&self) -> bool {
        match self {
            IMap::Static(_) => keys_compare_by_spec::<K>(),
            IMap::Rc(_) => keys_hash_by_value::<K>(),
        }
    }

    /// Returns the number of entries.
    pub fn len(&self) -> (r: usize)
        ensures
            r == self@.len(),
    {
        match self {
            IMap::Static(a) => a.len(),
            IMap::Rc(m) => entries_len(m),
        }
    }

    /// Returns `true` if the map holds no entries.
    pub fn is_empty(&self) -> (r: bool)
        ensures
            r == (self@.len() == 0),
    {
        self.len() == 0
    }

    /// Returns clones of the key and value at position `index`, or `None` when out of bounds.
    pub fn get_index(&self, index: usize) -> (r: Option<(K, V)>)
        ensures
            index < self@.len() ==> r == Some(self@[index as int]),
            index >= self@.len() ==> r is None,
    {
        match self {
            IMap::Static(a) => {
                if index < a.len() {
                    Some((a[index].0.implicit_clone(), a[index].1.implicit_clone()))
                } else {
                    None
                }
            },
            IMap::Rc(m) => match entry_at(m, index) {
                Some((k, v)) => Some((k.implicit_clone(), v.implicit_clone())),
                None => None,
            },
        }
    }

    /// Returns the position of the entry with key `key`, if any.
    pub fn get_index_of(&self, key: &K) -> (r: Option<usize>)
        ensures
            self.lookups_exact() ==> same_position(r, find_key(self@, *key)),
            self.lookups_exact() ==> (r matches Some(i) ==> i < self@.len() && same_key(
                self@[i as int].0,
                *key,
            )),
    {
        proof {
            lemma_find_key_found(self@, *key);
        }
        match self {
            IMap::Static(a) => scan_for_key(a, key),
            IMap::Rc(m) => key_position(m, key),
        }
    }

    /// Returns the position, and clones of the key and value, of the entry with key `key`.
    pub fn get_full(&self, key: &K) -> (r: Option<(usize, K, V)>)
        ensures
            self.lookups_exact() ==> match find_key(self@, *key) {
                Some(i) => r == Some((i as usize, self@[i].0, self@[i].1)),
                None => r is None,
            },
    {
        match self.get_index_of(key) {
            Some(i) => match self.get_index(i) {
                Some((k, v)) => Some((i, k, v)),
                None => None,
            },
            None => None,
        }
    }

    /// Returns clones of the key and value of the entry with key `key`.
    pub fn get_key_value(&self, key: &K) -> (r: Option<(K, V)>)
        ensures
            self.lookups_exact() ==> match find_key(self@, *key) {
                Some(i) => r == Some(self@[i]),
                None => r is None,
            },
    {
        match self.get_index_of(key) {
            Some(i) => self.get_index(i),
            None => None,
        }
    }

    /// Returns a clone of the value stored for `key`.
    pub fn get(&self, key: &K) -> (r: Option<V>)
        ensures
            self.lookups_exact() ==> match find_key(self@, *key) {
                Some(i) => r == Some(self@[i].1),
                None => r is None,
            },
    {
        match self.get_index_of(key) {
            Some(i) => match self.get_index(i) {
                Some((_, v)) => Some(v),
                None => None,
            },
            None => None,
        }
    }

    /// Returns `true` if an entry has key `key`.
    pub fn contains_key(&self, key: &K) -> (r: bool)
        ensures
            self.lookups_exact() ==> r == find_key(self@, *key) is Some,
    {
        self.get_index_of(key).is_some()
    }

    /// Returns clones of the key and value of the last entry.
    pub fn last(&self) -> (r: Option<(K, V)>)
        ensures
            self@.len() > 0 ==> r == Some(self@.last()),
            self@.len() == 0 ==> r is None,
    {
        let n = self.len();
        if n == 0 {
            None
        } else {
            self.get_index(n - 1)
        }
    }
}

impl<K: Eq + Hash + ImplicitClone + 'static, V: PartialEq + ImplicitClone + 'static> Clone for IMap<K, V> {
    /// A copy of the handle; the entries are shared, never copied.
    fn clone(&self) -> (r: Self)
        ensures
            r == *self,
    {
        match self {
            IMap::Static(a) => IMap::Static(*a),
            IMap::Rc(m) => IMap::Rc(rc_clone(m)),
        }
    }
}

impl<K: Eq + Hash + ImplicitClone + 'static, V: PartialEq + ImplicitClone + 'static> ImplicitClone for IMap<K, V> {
    fn implicit_clone(&self) -> (r: Self) {
        self.clone()
    }
}

impl<K: Eq + Hash + ImplicitClone + 'static, V: PartialEq + ImplicitClone + 'static> Default for IMap<K, V> {
    fn default() -> (r: Self)
        ensures
            r@ == Seq::<(K, V)>::empty(),
            r is Static,
    {
        IMap::Static(&[])
    }
}

impl<K: Eq + Hash + ImplicitClone + 'static, V: PartialEq + ImplicitClone + 'static> From<&'static [(K, V)]> for IMap<K, V> {
    fn from(a: &'static [(K, V)]) -> (r: IMap<K, V>)
        ensures
            r == IMap::Static(a),
    {
        IMap::Static(a)
    }
}

impl<K: Eq + Hash + ImplicitClone + 'static, V: PartialEq + ImplicitClone + 'static> vstd::std_specs::convert::FromSpecImpl<&'static [(K, V)]> for IMap<K, V> {
    open spec fn obeys_from_spec() -> bool {
        true
    }

    open spec fn from_spec(a: &'static [(K, V)]) -> IMap<K, V> {
        IMap::Static(a)
    }
}

impl<K: Eq + Hash + ImplicitClone + 'static, V: PartialEq + ImplicitClone + 'static> IMap<K, V> {
    /// Builds a hash map from `pairs`, inserted in order: a key met again keeps its first place
    /// and takes the later value.
    pub fn from_pairs(pairs: Vec<(K, V)>) -> (r: IMap<K, V>)
        ensures
            r is Rc,
            keys_hash_by_value::<K>() ==> r@ == insert_all(Seq::empty(), pairs@),
    {
        IMap::Rc(Rc::new(collect_pairs(pairs)))
    }

    /// Builds a hash map from the pairs that `it` yields, inserted in order: a key met again
    /// keeps its first place and takes the later value.
    pub fn from_iterator<I: Iterator<Item = (K, V)>>(it: I) -> (r: IMap<K, V>)
        ensures
            r is Rc,
            <I as vstd::std_specs::iter::IteratorSpec>::obeys_prophetic_iter_laws(&it)
                && keys_hash_by_value::<K>() ==> r@ == insert_all(
                Seq::empty(),
                <I as vstd::std_specs::iter::IteratorSpec>::remaining(&it),
            ),
    {
        IMap::from_pairs(drain_to_vec(it))
    }
}

/// Holds when `a` and `b` hold the same entries in the same order, keys and values compared with
/// their `==`.
pub open spec fn entries_eq<K: PartialEq, V: PartialEq>(a: Seq<(K, V)>, b: Seq<(K, V)>) -> bool {
    &&& a.len() == b.len()
    &&& forall|i: int|
        #![trigger a[i]]
        0 <= i < a.len() ==> same_key(a[i].0, b[i].0) && equal_under::<V, V>(&a[i].1, &b[i].1)
}

impl<K: Eq + Hash + ImplicitClone + 'static, V: PartialEq + ImplicitClone + 'static> PartialEq for IMap<K, V> {
    /// Entry-wise equality in order, whatever the storage of either side.
    fn eq(&self, other: &IMap<K, V>) -> (r: bool) {
        let n = self.len();
        if n != other.len() {
            return false;
        }
        let mut i: usize = 0;
        while i < n
            invariant
                n == self@.len() == other@.len(),
                i <= n,
                keys_compare_by_spec::<K>() && eq_follows_spec::<V, V>() ==> forall|j: int|
                    #![trigger self@[j]]
                    0 <= j < i ==> same_key(self@[j].0, other@[j].0) && equal_under::<V, V>(&self@[j].1, &other@[j].1),
            decreases n - i,
        {
            match (self.get_index(i), other.get_index(i)) {
                (Some((k1, v1)), Some((k2, v2))) => {
                    if !(k1 == k2) || !(v1 == v2) {
                        return false;
                    }
                },
                _ => {
                    return false;
                },
            }
            i = i + 1;
        }
        true
    }
}

impl<K: Eq + Hash + ImplicitClone + 'static, V: PartialEq + ImplicitClone + 'static> vstd::std_specs::cmp::PartialEqSpecImpl for IMap<K, V> {
    open spec fn obeys_eq_spec() -> bool {
        keys_compare_by_spec::<K>() && eq_follows_spec::<V, V>()
    }

    open spec fn eq_spec(&self, other: &IMap<K, V>) -> bool {
        entries_eq(self@, other@)
    }
}

impl<K: Eq + Hash + ImplicitClone + 'static, V: Eq + ImplicitClone + 'static> Eq for IMap<K, V> {
}

/// The position of the first entry whose key has the text `text`, if any.
pub open spec fn find_text<V>(entries: Seq<(IString, V)>, text: Seq<char>) -> Option<int>
    decreases entries.len(),
{
    if entries.len() == 0 {
        None
    } else {
        match find_text(entries.drop_last(), text) {
            Some(i) => Some(i),
            None => if entries.last().0@ == text {
                Some(entries.len() - 1)
            } else {
                None
            },
        }
    }
}

/// Inserts the pair `(k, v)` into entries keyed by text: an entry whose key has the text of `k`
/// keeps its place and key and takes the value `v`; otherwise the pair is appended.
pub open spec fn insert_text_entry<V>(entries: Seq<(IString, V)>, k: IString, v: V) -> Seq<(IString, V)> {
    match find_text(entries, k@) {
        Some(i) => entries.update(i, (entries[i].0, v)),
        None => entries.push((k, v)),
    }
}

/// Inserts each of `pairs` in turn into entries keyed by text.
pub open spec fn insert_all_text<V>(entries: Seq<(IString, V)>, pairs: Seq<(IString, V)>) -> Seq<(IString, V)>
    decreases pairs.len(),
{
    if pairs.len() == 0 {
        entries
    } else {
        insert_all_text(insert_text_entry(entries, pairs[0].0, pairs[0].1), pairs.drop_first())
    }
}

/// A position found for a text holds an entry whose key has that text.
pub proof fn lemma_find_text_found<V>(entries: Seq<(IString, V)>, text: Seq<char>)
    ensures
        find_text(entries, text) matches Some(i) ==> 0 <= i < entries.len() && entries[i].0@ == text,
    decreases entries.len(),
{
    if entries.len() > 0 {
        lemma_find_text_found(entries.drop_last(), text);
    }
}

/// A text found in a prefix is found, at the same place, in the whole sequence.
pub proof fn lemma_find_text_prefix<V>(entries: Seq<(IString, V)>, n: int, text: Seq<char>)
    requires
        0 <= n <= entries.len(),
        find_text(entries.take(n), text) is Some,
    ensures
        find_text(entries, text) == find_text(entries.take(n), text),
    decreases entries.len() - n,
{
    if n == entries.len() {
        assert(entries.take(n) =~= entries);
    } else {
        assert(entries.take(n + 1).drop_last() =~= entries.take(n));
        lemma_find_text_prefix(entries, n + 1, text);
    }
}

/// Finds the position of the first entry of `a` whose key has the text of `key`.
fn scan_for_text<V>(a: &[(IString, V)], key: &IString) -> (r: Option<usize>)
    ensures
        same_position(r, find_text(a@, key@)),
{
    let mut i: usize = 0;
    assert(a@.take(0) =~= Seq::<(IString, V)>::empty());
    while i < a.len()
        invariant
            i <= a@.len(),
            find_text(a@.take(i as int), key@) is None,
        decreases a@.len() - i,
    {
        assert(a@.take(i + 1).drop_last() =~= a@.take(i as int));
        assert(a@.take(i + 1).last() == a@[i as int]);
        if str_eq(a[i].0.as_str(), key.as_str()) {
            proof {
                lemma_find_text_prefix(a@, i + 1, key@);
            }
            return Some(i);
        }
        i = i + 1;
    }
    assert(a@.take(a@.len() as int) =~= a@);
    None
}

/// No position is found for a text that no entry's key has.
pub proof fn lemma_find_text_absent<V>(entries: Seq<(IString, V)>, k: Seq<char>)
    requires
        forall|i: int| 0 <= i < entries.len() ==> #[trigger] entries[i].0@ != k,
    ensures
        find_text(entries, k) is None,
    decreases entries.len(),
{
    if entries.len() > 0 {
        let rest = entries.drop_last();
        assert forall|i: int| 0 <= i < rest.len() implies #[trigger] rest[i].0@ != k by {
            assert(rest[i] == entries[i]);
        }
        lemma_find_text_absent(rest, k);
    }
}

/// Holds when no two of `pairs` have keys of the same text.
pub open spec fn distinct_texts<V>(pairs: Seq<(IString, V)>) -> bool {
    forall|i: int, j: int|
        0 <= i < pairs.len() && 0 <= j < pairs.len() && i != j ==> (#[trigger] pairs[i].0)@ != (
        #[trigger] pairs[j].0)@
}

/// Inserting pairs whose key texts are distinct, and new to `entries`, appends them in their
/// order.
pub proof fn lemma_insert_new_texts_appends<V>(entries: Seq<(IString, V)>, pairs: Seq<(IString, V)>)
    requires
        distinct_texts(pairs),
        forall|i: int, j: int|
            0 <= i < entries.len() && 0 <= j < pairs.len() ==> (#[trigger] entries[i].0)@ != (
            #[trigger] pairs[j].0)@,
    ensures
        insert_all_text(entries, pairs) == entries + pairs,
    decreases pairs.len(),
{
    if pairs.len() == 0 {
        assert(entries + pairs =~= entries);
    } else {
        let first = pairs[0];
        let rest = pairs.drop_first();
        assert forall|i: int| 0 <= i < entries.len() implies (#[trigger] entries[i].0)@ != first.0@ by {
            assert(pairs[0] == first);
        }
        lemma_find_text_absent(entries, first.0@);
        let grown = entries.push(first);
        assert(insert_text_entry(entries, first.0, first.1) == grown);
        assert forall|i: int, j: int|
            0 <= i < rest.len() && 0 <= j < rest.len() && i != j implies (#[trigger] rest[i].0)@
                != (#[trigger] rest[j].0)@ by {
            assert(rest[i] == pairs[i + 1]);
            assert(rest[j] == pairs[j + 1]);
        }
        assert forall|i: int, j: int|
            0 <= i < grown.len() && 0 <= j < rest.len() implies (#[trigger] grown[i].0)@ != (
            #[trigger] rest[j].0)@ by {
            assert(rest[j] == pairs[j + 1]);
            if i < entries.len() {
                assert(grown[i] == entries[i]);
            } else {
                assert(grown[i] == pairs[0]);
            }
        }
        lemma_insert_new_texts_appends(grown, rest);
        assert(grown + rest =~= entries + pairs);
    }
}

/// Building a map from pairs whose key texts are distinct keeps exactly those pairs, in their
/// order.
pub proof fn lemma_distinct_texts_keep_order<V>(pairs: Seq<(IString, V)>)
    requires
        distinct_texts(pairs),
    ensures
        insert_all_text(Seq::empty(), pairs) == pairs,
{
    lemma_insert_new_texts_appends(Seq::empty(), pairs);
    assert(Seq::<(IString, V)>::empty() + pairs =~= pairs);
}

/// Relies on `FromIterator<(K, V)> for IndexMap`, with string keys: the pairs are inserted in
/// order; a key of the same text as an earlier one keeps the earlier place and key and takes the
/// later value. `IString` compares by its text and hashes it through `Hash for str`, so equal
/// texts always meet.
#[verifier::external_body]
pub(crate) fn collect_text_pairs<V>(pairs: Vec<(IString, V)>) -> (r: HashedEntries<IString, V>)
    ensures
        r@ == insert_all_text(Seq::empty(), pairs@),
{
    HashedEntries { map: IndexMap::from_iter(pairs), entries: Ghost(arbitrary()) }
}

/// Relies on `IndexMap::get_index_of`, with string keys: the position of the entry whose key has
/// the text of the one given, if any.
#[verifier::external_body]
pub(crate) fn text_key_position<V>(m: &HashedEntries<IString, V>, key: &IString) -> (r: Option<
    usize,
>)
    ensures
        same_position(r, find_text(m@, key@)),
{
    m.map.get_index_of(key)
}

impl<V: PartialEq + ImplicitClone + 'static> IMap<IString, V> {
    /// Builds a hash map from `pairs`, inserted in order: a key of the same text as an earlier
    /// one keeps the earlier place and takes the later value.
    pub fn from_text_pairs(pairs: Vec<(IString, V)>) -> (r: IMap<IString, V>)
        ensures
            r is Rc,
            r@ == insert_all_text(Seq::empty(), pairs@),
    {
        IMap::Rc(Rc::new(collect_text_pairs(pairs)))
    }

    /// Builds a hash map from the pairs that `it` yields, inserted in order: a key of the same
    /// text as an earlier one keeps the earlier place and takes the later value.
    pub fn from_text_iterator<I: Iterator<Item = (IString, V)>>(it: I) -> (r: IMap<IString, V>)
        ensures
            r is Rc,
            <I as vstd::std_specs::iter::IteratorSpec>::obeys_prophetic_iter_laws(&it) ==> r@
                == insert_all_text(
                Seq::empty(),
                <I as vstd::std_specs::iter::IteratorSpec>::remaining(&it),
            ),
    {
        IMap::from_text_pairs(drain_to_vec(it))
    }

    /// Returns the position of the entry whose key has the text of `key`, if any.
    pub fn get_text_index_of(&self, key: &IString) -> (r: Option<usize>)
        ensures
            same_position(r, find_text(self@, key@)),
    {
        match self {
            IMap::Static(a) => scan_for_text(a, key),
            IMap::Rc(m) => text_key_position(m, key),
        }
    }

    /// Returns a clone of the value stored under the text `key`.
    pub fn get_static_str(&self, key: &'static str) -> (r: Option<V>)
        ensures
            match find_text(self@, key@) {
                Some(i) => r == Some(self@[i].1),
                None => r is None,
            },
    {
        let key = IString::from(key);
        proof {
            lemma_find_text_found(self@, key@);
        }
        match self.get_text_index_of(&key) {
            Some(i) => match self.get_index(i) {
                Some((_, v)) => Some(v),
                None => None,
            },
            None => None,
        }
    }
}

impl<V: PartialEq + ImplicitClone + 'static> IMap<&'static str, V> {
    /// Returns a clone of the value stored under the text `key`.
    pub fn get_static_str(&self, key: &'static str) -> (r: Option<V>)
        ensures
            self.lookups_exact() ==> match find_key(self@, key) {
                Some(i) => r == Some(self@[i].1),
                None => r is None,
            },
    {
        self.get(&key)
    }
}

/// An iterator over clones of the entries of an [`IMap`], in order.
#[verifier::reject_recursive_types(K)]
#[verifier::reject_recursive_types(V)]
pub struct IMapIter<K: Eq + Hash + ImplicitClone + 'static, V: PartialEq + ImplicitClone + 'static> {
    map: IMap<K, V>,
    next: usize,
}

impl<K: Eq + Hash + ImplicitClone + 'static, V: PartialEq + ImplicitClone + 'static> IMapIter<K, V> {
    #[verifier::type_invariant]
    closed spec fn position_in_bounds(self) -> bool {
        self.next <= self.map@.len()
    }

    /// The items not yet pulled, in order.
    pub closed spec fn remaining(self) -> Seq<(K, V)> {
        self.map@.skip(self.next as int).map_values(|e: (K, V)| e)
    }

    /// Pulls the next item.
    pub fn next(&mut self) -> (r: Option<(K, V)>)
        ensures
            old(self).remaining().len() > 0 ==> r == Some(old(self).remaining()[0])
                && final(self).remaining() == old(self).remaining().drop_first(),
            old(self).remaining().len() == 0 ==> r is None && final(self).remaining()
                == old(self).remaining(),
    {
        proof {
            use_type_invariant(&*self);
        }
        if self.next >= self.map.len() {
            return None;
        }
        match self.map.get_index(self.next) {
            Some(entry) => {
                self.next = self.next + 1;
                assert(self.remaining() =~= old(self).remaining().drop_first());
                Some(entry)
            },
            None => None,
        }
    }
}

/// An iterator over clones of the keys of an [`IMap`], in order.
#[verifier::reject_recursive_types(K)]
#[verifier::reject_recursive_types(V)]
pub struct IMapKeys<K: Eq + Hash + ImplicitClone + 'static, V: PartialEq + ImplicitClone + 'static> {
    map: IMap<K, V>,
    next: usize,
}

impl<K: Eq + Hash + ImplicitClone + 'static, V: PartialEq + ImplicitClone + 'static> IMapKeys<K, V> {
    #[verifier::type_invariant]
    closed spec fn position_in_bounds(self) -> bool {
        self.next <= self.map@.len()
    }

    /// The items not yet pulled, in order.
    pub closed spec fn remaining(self) -> Seq<K> {
        self.map@.skip(self.next as int).map_values(|e: (K, V)| e.0)
    }

    /// Pulls the next item.
    pub fn next(&mut self) -> (r: Option<K>)
        ensures
            old(self).remaining().len() > 0 ==> r == Some(old(self).remaining()[0])
                && final(self).remaining() == old(self).remaining().drop_first(),
            old(self).remaining().len() == 0 ==> r is None && final(self).remaining()
                == old(self).remaining(),
    {
        proof {
            use_type_invariant(&*self);
        }
        if self.next >= self.map.len() {
            return None;
        }
        match self.map.get_index(self.next) {
            Some(entry) => {
                self.next = self.next + 1;
                assert(self.remaining() =~= old(self).remaining().drop_first());
                Some(entry.0)
            },
            None => None,
        }
    }
}

/// An iterator over clones of the values of an [`IMap`], in order.
#[verifier::reject_recursive_types(K)]
#[verifier::reject_recursive_types(V)]
pub struct IMapValues<K: Eq + Hash + ImplicitClone + 'static, V: PartialEq + ImplicitClone + 'static> {
    map: IMap<K, V>,
    next: usize,
}

impl<K: Eq + Hash + ImplicitClone + 'static, V: PartialEq + ImplicitClone + 'static> IMapValues<K, V> {
    #[verifier::type_invariant]
    closed spec fn position_in_bounds(self) -> bool {
        self.next <= self.map@.len()
    }

    /// The items not yet pulled, in order.
    pub closed spec fn remaining(self) -> Seq<V> {
        self.map@.skip(self.next as int).map_values(|e: (K, V)| e.1)
    }

    /// Pulls the next item.
    pub fn next(&mut self) -> (r: Option<V>)
        ensures
            old(self).remaining().len() > 0 ==> r == Some(old(self).remaining()[0])
                && final(self).remaining() == old(self).remaining().drop_first(),
            old(self).remaining().len() == 0 ==> r is None && final(self).remaining()
                == old(self).remaining(),
    {
        proof {
            use_type_invariant(&*self);
        }
        if self.next >= self.map.len() {
            return None;
        }
        match self.map.get_index(self.next) {
            Some(entry) => {
                self.next = self.next + 1;
                assert(self.remaining() =~= old(self).remaining().drop_first());
                Some(entry.1)
            },
            None => None,
        }
    }
}

impl<K: Eq + Hash + ImplicitClone + 'static, V: PartialEq + ImplicitClone + 'static> IMap<K, V> {
    /// Returns an iterator over clones of the entries, in order.
    pub fn iter(&self) -> (r: IMapIter<K, V>)
        ensures
            r.remaining() == self@,
    {
        let r = IMapIter { map: self.clone(), next: 0 };
        assert(r.remaining() =~= self@);
        r
    }

    /// Returns an iterator over clones of the keys, in order.
    pub fn keys(&self) -> (r: IMapKeys<K, V>)
        ensures
            r.remaining() == self@.map_values(|e: (K, V)| e.0),
    {
        let r = IMapKeys { map: self.clone(), next: 0 };
        assert(r.remaining() =~= self@.map_values(|e: (K, V)| e.0));
        r
    }

    /// Returns an iterator over clones of the values, in order.
    pub fn values(&self) -> (r: IMapValues<K, V>)
        ensures
            r.remaining() == self@.map_values(|e: (K, V)| e.1),
    {
        let r = IMapValues { map: self.clone(), next: 0 };
        assert(r.remaining() =~= self@.map_values(|e: (K, V)| e.1));
        r
    }
}

/// A clone compares equal to the map it was made from, whatever its storage, when the keys'
/// and values' `==` are equality of values.
pub proof fn lemma_clone_compares_equal<K: Eq + Hash + ImplicitClone + 'static, V: PartialEq + ImplicitClone + 'static>(
    a: IMap<K, V>,
    c: IMap<K, V>,
)
    requires
        call_ensures(<IMap<K, V> as Clone>::clone, (&a,), c),
        vstd::laws_eq::obeys_concrete_eq::<K>(),
        vstd::laws_eq::obeys_concrete_eq::<V>(),
    ensures
        c@ == a@,
        <IMap<K, V> as vstd::std_specs::cmp::PartialEqSpec>::eq_spec(&c, &a),
{
    reveal(vstd::laws_eq::obeys_concrete_eq);
}

} // verus!
