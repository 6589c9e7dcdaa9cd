use std::collections::HashMap;
use std::hash::Hash;
use vstd::prelude::*;
use vstd::std_specs::hash::obeys_key_model;
use vstd::std_specs::iter::IteratorSpec;

verus! {

/// The key types for which the standard hash map's model holds and whose
/// `==` is plain equality (all integer types, among them the ids).
pub open spec fn supported_key<K: PartialEq>() -> bool {
    &&& obeys_key_model::<K>()
    &&& vstd::laws_eq::obeys_concrete_eq::<K>()
}

/// The position of the first occurrence of `k` in `s`.
pub open spec fn position_of<K>(s: Seq<K>, k: K) -> Option<int> {
    s.index_of_first(k)
}

/// `s` with the entries at `i` and `j` exchanged.
pub open spec fn swapped<K>(s: Seq<K>, i: int, j: int) -> Seq<K> {
    s.update(i, s[j]).update(j, s[i])
}

/// The order after moving `key` one place up (towards the front).
pub open spec fn moved_up<K>(order: Seq<K>, key: K) -> Seq<K> {
    match position_of(order, key) {
        Some(i) => if i != 0 { swapped(order, i, i - 1) } else { order },
        None => order,
    }
}

/// The order after moving `key` one place down (towards the back).
pub open spec fn moved_down<K>(order: Seq<K>, key: K) -> Seq<K> {
    match position_of(order, key) {
        Some(i) => if i != order.len() - 1 { swapped(order, i, i + 1) } else { order },
        None => order,
    }
}

/// The order without the first occurrence of `key`.
pub open spec fn without_first<K>(order: Seq<K>, key: K) -> Seq<K> {
    match position_of(order, key) {
        Some(i) => order.remove(i),
        None => order,
    }
}

/// `HashMap::get_mut`: a mutable reference to the value stored under `k`,
/// through which the entry of `k` changes; `None` when `k` has no entry.
#[verifier::external_body]
fn hash_map_get_mut<'a, K: Eq + Hash, V>(m: &'a mut HashMap<K, V>, k: &K) -> (r: Option<&'a mut V>)
    requires
        obeys_key_model::<K>(),
    ensures
        match r {
            Some(v) => {
                &&& old(m)@.contains_key(*k)
                &&& *v == old(m)@[*k]
                &&& final(m)@ == old(m)@.insert(*k, *final(v))
            },
            None => {
                &&& !old(m)@.contains_key(*k)
                &&& final(m)@ == old(m)@
            },
        },
{
    m.get_mut(k)
}

/// The values of the keys of `order` that have an entry, in that order.
pub open spec fn values_in<K, V>(order: Seq<K>, entries: Map<K, V>) -> Seq<V>
    decreases order.len(),
{
    if order.len() == 0 {
        Seq::empty()
    } else {
        let rest = values_in(order.drop_last(), entries);
        if entries.contains_key(order.last()) {
            rest.push(entries[order.last()])
        } else {
            rest
        }
    }
}

/// `values` lists the value of each key of `entries` once, in some order of
/// the keys.
pub open spec fn one_value_per_key<K, V>(values: Seq<V>, entries: Map<K, V>) -> bool {
    exists|keys: Seq<K>|
        {
            &&& keys.no_duplicates()
            &&& keys.to_set() == entries.dom()
            &&& #[trigger] values_of_keys(keys, entries) == values
        }
}

/// The values of the given keys, in their order.
pub open spec fn values_of_keys<K, V>(keys: Seq<K>, entries: Map<K, V>) -> Seq<V> {
    keys.map_values(|k: K| entries[k])
}

/// `HashMap::values` (std): an iterator visiting all values of the map in
/// arbitrary order, one for each key: the values of the keys, listed in
/// some order of the keys.
#[verifier::external_body]
fn hash_map_values<'a, K: Eq + Hash, V>(m: &'a HashMap<K, V>) -> (r: std::collections::hash_map::Values<'a, K, V>)
    requires
        obeys_key_model::<K>(),
    ensures
        one_value_per_key(r.remaining().unref(), m@),
{
    m.values()
}

/// Two orders of the same keys, each key once, give the same values as a
/// multiset.
proof fn lemma_same_keys_same_values<K, V>(a: Seq<K>, b: Seq<K>, f: spec_fn(K) -> V)
    requires
        a.no_duplicates(),
        b.no_duplicates(),
        a.to_set() == b.to_set(),
    ensures
        a.map_values(f).to_multiset() == b.map_values(f).to_multiset(),
    decreases b.len(),
{
    broadcast use vstd::multiset::group_multiset_axioms;

    if b.len() == 0 {
        if a.len() > 0 {
            assert(a.to_set().contains(a[0]));
            assert(b.to_set().contains(a[0]));
        }
        assert(a.map_values(f) =~= Seq::<V>::empty());
        assert(b.map_values(f) =~= Seq::<V>::empty());
    } else {
        let x = b.last();
        let rest_b = b.drop_last();
        assert(b.to_set().contains(x));
        assert(a.to_set().contains(x));
        let p = choose|p: int| 0 <= p < a.len() && a[p] == x;
        let rest_a = a.remove(p);
        assert(rest_a.no_duplicates()) by {
            assert forall|i: int, j: int| 0 <= i < rest_a.len() && 0 <= j < rest_a.len() && i != j implies rest_a[i] != rest_a[j] by {
                let ii = if i < p { i } else { i + 1 };
                let jj = if j < p { j } else { j + 1 };
                assert(rest_a[i] == a[ii]);
                assert(rest_a[j] == a[jj]);
            }
        }
        assert(rest_a.to_set() =~= rest_b.to_set()) by {
            assert forall|y: K| rest_a.to_set().contains(y) implies rest_b.to_set().contains(y) by {
                let i = choose|i: int| 0 <= i < rest_a.len() && rest_a[i] == y;
                let ii = if i < p { i } else { i + 1 };
                assert(a[ii] == y);
                assert(y != x);
                assert(a.to_set().contains(y));
                assert(b.to_set().contains(y));
                let j = choose|j: int| 0 <= j < b.len() && b[j] == y;
                assert(j != b.len() - 1);
                assert(rest_b[j] == y);
            }
            assert forall|y: K| rest_b.to_set().contains(y) implies rest_a.to_set().contains(y) by {
                let j = choose|j: int| 0 <= j < rest_b.len() && rest_b[j] == y;
                assert(b[j] == y);
                assert(y != x);
                assert(b.to_set().contains(y));
                assert(a.to_set().contains(y));
                let i = choose|i: int| 0 <= i < a.len() && a[i] == y;
                assert(i != p);
                let ii = if i < p { i } else { i - 1 };
                assert(rest_a[ii] == y);
            }
        }
        lemma_same_keys_same_values(rest_a, rest_b, f);
        assert(a.map_values(f) =~= rest_a.map_values(f).insert(p, f(x)));
        vstd::seq_lib::to_multiset_insert(rest_a.map_values(f), p, f(x));
        assert(b.map_values(f) =~= rest_b.map_values(f).push(f(x)));
        vstd::seq_lib::to_multiset_build(rest_b.map_values(f), f(x));
    }
}

/// `order` holds every key of `entries` exactly once and nothing else.
pub open spec fn consistent_parts<K, V>(entries: Map<K, V>, order: Seq<K>) -> bool {
    &&& order.no_duplicates()
    &&& order.to_set() == entries.dom()
}

/// A hash map that remembers an order of its keys.
///
/// The order is kept in `order`; the entries in a hash map. Inserting a key
/// appends it to the order, removing it drops its first occurrence from the
/// order.
#[derive(Debug, Clone)]
pub struct OrderedHashMap<K, V> {
    hash_map: HashMap<K, V>,
    pub order: Vec<K>,
}

impl<K, V> OrderedHashMap<K, V> {
    /// The entries of the map.
    pub closed spec fn entries(&self) -> Map<K, V> {
        self.hash_map@
    }

    /// The order of the keys.
    pub closed spec fn key_order(&self) -> Seq<K> {
        self.order@
    }

    /// The order holds every key of the map exactly once and nothing else.
    pub open spec fn consistent(&self) -> bool {
        consistent_parts(self.entries(), self.key_order())
    }
}

impl<K: Copy + Eq + Hash, V> OrderedHashMap<K, V> {
    pub fn new() -> (r: Self)
        ensures
            r.entries() == Map::<K, V>::empty(),
            r.key_order() == Seq::<K>::empty(),
    {
        Self { hash_map: HashMap::new(), order: Vec::new() }
    }

    /// The position of the first occurrence of `key` in the order.
    pub fn get_order(&self, key: &K) -> (r: Option<usize>)
        requires
            supported_key::<K>(),
        ensures
            match r {
                Some(i) => position_of(self.key_order(), *key) == Some(i as int),
                None => position_of(self.key_order(), *key) is None,
            },
    {
        proof {
            reveal(vstd::laws_eq::obeys_concrete_eq);
            self.order@.index_of_first_ensures(*key);
        }
        let mut i: usize = 0;
        while i < self.order.len()
            invariant
                i <= self.order.len(),
                supported_key::<K>(),
                vstd::laws_eq::obeys_concrete_eq::<K>(),
                forall|j: int| 0 <= j < i ==> self.order@[j] != *key,
            decreases self.order.len() - i,
        {
            proof {
                reveal(vstd::laws_eq::obeys_concrete_eq);
            }
            if self.order[i] == *key {
                proof {
                    self.order@.index_of_first_ensures(*key);
                    let r = self.order@.index_of_first(*key);
                    assert(r is Some);
                    assert(r->0 == i);
                }
                return Some(i);
            }
            i = i + 1;
        }
        proof {
            self.order@.index_of_first_ensures(*key);
            if self.order@.contains(*key) {
                let w = choose|w: int| 0 <= w < self.order@.len() && self.order@[w] == *key;
                assert(self.order@[w] != *key);
            }
        }
        None
    }

    /// Exchanges the key with the one before it, if there is one.
    pub fn move_up(&mut self, key: &K)
        requires
            supported_key::<K>(),
        ensures
            final(self).entries() == old(self).entries(),
            final(self).key_order() == moved_up(old(self).key_order(), *key),
            after_step(*old(self), MapStep::MoveUp(*key), *final(self)),
    {
        proof {
            self.order@.index_of_first_ensures(*key);
        }
        if let Some(index) = self.get_order(key) {
            if index != 0 {
                self.swap_order(index, index - 1);
            }
        }
    }

    /// Exchanges the key with the one after it, if there is one.
    pub fn move_down(&mut self, key: &K)
        requires
            supported_key::<K>(),
        ensures
            final(self).entries() == old(self).entries(),
            final(self).key_order() == moved_down(old(self).key_order(), *key),
            after_step(*old(self), MapStep::MoveDown(*key), *final(self)),
    {
        proof {
            self.order@.index_of_first_ensures(*key);
        }
        if let Some(index) = self.get_order(key) {
            if index != self.order.len() - 1 {
                self.swap_order(index, index + 1);
            }
        }
    }

    fn swap_order(&mut self, i: usize, j: usize)
        requires
            i < old(self).order.len(),
            j < old(self).order.len(),
        ensures
            final(self).entries() == old(self).entries(),
            final(self).key_order() == swapped(old(self).key_order(), i as int, j as int),
    {
        let a = self.order[i];
        let b = self.order[j];
        self.order.set(i, b);
        self.order.set(j, a);
    }

    /// Sets the value of `key` and appends `key` to the order.
    pub fn insert(&mut self, key: K, value: V)
        requires
            supported_key::<K>(),
        ensures
            final(self).entries() == old(self).entries().insert(key, value),
            final(self).key_order() == old(self).key_order().push(key),
            after_step(*old(self), MapStep::Insert(key, value), *final(self)),
    {
        self.hash_map.insert(key, value);
        self.order.push(key);
    }

    /// Removes the entry of `key` and the first occurrence of `key` in the order.
    pub fn remove(&mut self, key: &K)
        requires
            supported_key::<K>(),
        ensures
            final(self).entries() == old(self).entries().remove(*key),
            final(self).key_order() == without_first(old(self).key_order(), *key),
            after_step(*old(self), MapStep::Remove(*key), *final(self)),
    {
        proof {
            self.order@.index_of_first_ensures(*key);
        }
        self.hash_map.remove(key);
        if let Some(index) = self.get_order(key) {
            self.order.remove(index);
        }
    }

    pub fn get(&self, key: &K) -> (r: Option<&V>)
        requires
            supported_key::<K>(),
        ensures
            r == (if self.entries().contains_key(*key) {
                Some(&self.entries()[*key])
            } else {
                None::<&V>
            }),
    {
        self.hash_map.get(key)
    }

    /// A mutable reference to the value of `key`.
    pub fn get_mut(&mut self, key: &K) -> (r: Option<&mut V>)
        requires
            supported_key::<K>(),
        ensures
            final(self).key_order() == old(self).key_order(),
            match r {
                Some(v) => {
                    &&& old(self).entries().contains_key(*key)
                    &&& *v == old(self).entries()[*key]
                    &&& final(self).entries() == old(self).entries().insert(*key, *final(v))
                },
                None => {
                    &&& !old(self).entries().contains_key(*key)
                    &&& final(self).entries() == old(self).entries()
                },
            },
    {
        hash_map_get_mut(&mut self.hash_map, key)
    }

    /// The keys in their order, as a vector.
    pub fn keys(&self) -> (r: &Vec<K>)
        ensures
            r@ == self.key_order(),
    {
        &self.order
    }

    /// The keys in their order.
    pub fn iter(&self) -> (r: std::slice::Iter<'_, K>)
        ensures
            r.remaining() == self.key_order().as_ref(),
    {
        self.order.iter()
    }

    /// The values of the map, each entry once, in no particular order: the
    /// values of the keys, listed in some order of the keys. In a consistent
    /// map they are, as a multiset, the values of the keys of the order.
    pub fn values(&self) -> (r: std::collections::hash_map::Values<'_, K, V>)
        requires
            supported_key::<K>(),
        ensures
            one_value_per_key(r.remaining().unref(), self.entries()),
            self.consistent() ==> r.remaining().unref().to_multiset() == values_in(
                self.key_order(),
                self.entries(),
            ).to_multiset(),
    {
        let r = hash_map_values(&self.hash_map);
        proof {
            let keys = choose|keys: Seq<K>|
                {
                    &&& keys.no_duplicates()
                    &&& keys.to_set() == self.hash_map@.dom()
                    &&& #[trigger] values_of_keys(keys, self.hash_map@) == r.remaining().unref()
                };
            if self.consistent() {
                let f = |k: K| self.hash_map@[k];
                lemma_same_keys_same_values(self.order@, keys, f);
                assert forall|i: int| 0 <= i < self.order@.len() implies self.hash_map@.contains_key(
                    #[trigger] self.order@[i],
                ) by {
                    assert(self.order@.to_set().contains(self.order@[i]));
                }
                lemma_values_of_present_keys(self.hash_map@, self.order@);
            }
        }
        r
    }

    /// The values of the map in the order of their keys: for each key of the
    /// order that has an entry, its value.
    pub fn values_in_order(&self) -> (r: Vec<&V>)
        requires
            supported_key::<K>(),
        ensures
            r@.len() == values_in(self.key_order(), self.entries()).len(),
            forall|i: int| 0 <= i < r@.len() ==> *(#[trigger] r@[i]) == values_in(self.key_order(), self.entries())[i],
    {
        let mut values: Vec<&V> = Vec::new();
        let mut i: usize = 0;
        while i < self.order.len()
            invariant
                i <= self.order@.len(),
                supported_key::<K>(),
                values@.len() == values_in(self.order@.take(i as int), self.hash_map@).len(),
                forall|j: int| 0 <= j < values@.len() ==> *(#[trigger] values@[j]) == values_in(self.order@.take(i as int), self.hash_map@)[j],
            decreases self.order@.len() - i,
        {
            proof {
                assert(self.order@.take(i as int + 1).drop_last() =~= self.order@.take(i as int));
            }
            match self.hash_map.get(&self.order[i]) {
                Some(v) => values.push(v),
                None => {},
            }
            i = i + 1;
        }
        proof {
            assert(self.order@.take(self.order@.len() as int) =~= self.order@);
        }
        values
    }

    /// Moves `key` to the back of the order: its first occurrence is dropped
    /// and it is appended.
    pub fn move_to_bottom(&mut self, key: &K)
        requires
            supported_key::<K>(),
        ensures
            final(self).entries() == old(self).entries(),
            final(self).key_order() == without_first(old(self).key_order(), *key).push(*key),
            after_step(*old(self), MapStep::MoveToBottom(*key), *final(self)),
    {
        proof {
            self.order@.index_of_first_ensures(*key);
        }
        if let Some(index) = self.get_order(key) {
            self.order.remove(index);
        }
        self.order.push(*key);
    }

    /// The number of keys in the order.
    pub fn len(&self) -> (r: usize)
        ensures
            r == self.key_order().len(),
    {
        self.order.len()
    }
}


/// A new map is consistent: its order holds exactly its keys, each once.
pub proof fn law_new_is_consistent<K, V>()
    ensures
        consistent_parts(Map::<K, V>::empty(), Seq::<K>::empty()),
{
    assert(Seq::<K>::empty().to_set() =~= Map::<K, V>::empty().dom());
}

/// Inserting a key that has no entry yet keeps the map consistent.
pub proof fn law_insert_new_key_keeps_consistency<K, V>(
    entries: Map<K, V>,
    order: Seq<K>,
    key: K,
    value: V,
)
    requires
        consistent_parts(entries, order),
        !entries.contains_key(key),
    ensures
        consistent_parts(entries.insert(key, value), order.push(key)),
{
    assert(!order.contains(key)) by {
        if order.contains(key) {
            assert(order.to_set().contains(key));
        }
    }
    assert(order.push(key).to_set() =~= entries.insert(key, value).dom()) by {
        assert forall|x: K| order.push(key).to_set().contains(x) implies entries.insert(key, value).dom().contains(x) by {
            let i = choose|i: int| 0 <= i < order.push(key).len() && order.push(key)[i] == x;
            if i < order.len() {
                assert(order.to_set().contains(order[i]));
            }
        }
        assert forall|x: K| entries.insert(key, value).dom().contains(x) implies order.push(key).to_set().contains(x) by {
            if x == key {
                assert(order.push(key)[order.len() as int] == key);
            } else {
                assert(order.to_set().contains(x));
                let i = choose|i: int| 0 <= i < order.len() && order[i] == x;
                assert(order.push(key)[i] == x);
            }
        }
    }
}

/// Removing a key keeps the map consistent.
pub proof fn law_remove_keeps_consistency<K, V>(entries: Map<K, V>, order: Seq<K>, key: K)
    requires
        consistent_parts(entries, order),
    ensures
        consistent_parts(entries.remove(key), without_first(order, key)),
{
    order.index_of_first_ensures(key);
    match position_of(order, key) {
        Some(i) => {
            let o2 = order.remove(i);
            assert(o2.no_duplicates());
            assert(o2.to_set() =~= entries.remove(key).dom()) by {
                assert forall|x: K| o2.to_set().contains(x) implies entries.remove(key).dom().contains(x) by {
                    let j = choose|j: int| 0 <= j < o2.len() && o2[j] == x;
                    if j < i {
                        assert(order[j] == x);
                        assert(order.to_set().contains(order[j]));
                    } else {
                        assert(order[j + 1] == x);
                        assert(order.to_set().contains(order[j + 1]));
                    }
                }
                assert forall|x: K| entries.remove(key).dom().contains(x) implies o2.to_set().contains(x) by {
                    assert(order.to_set().contains(x));
                    let j = choose|j: int| 0 <= j < order.len() && order[j] == x;
                    if j < i {
                        assert(o2[j] == x);
                    } else {
                        assert(j != i);
                        assert(o2[j - 1] == x);
                    }
                }
            }
        },
        None => {
            assert(!order.to_set().contains(key)) by {
                if order.to_set().contains(key) {
                    assert(order.contains(key));
                }
            }
            assert(entries.remove(key).dom() =~= entries.dom());
        },
    }
}

/// Exchanging two positions keeps the map consistent.
proof fn lemma_swap_keeps_consistency<K, V>(entries: Map<K, V>, order: Seq<K>, i: int, j: int)
    requires
        consistent_parts(entries, order),
        0 <= i < order.len(),
        0 <= j < order.len(),
    ensures
        consistent_parts(entries, swapped(order, i, j)),
{
    let o2 = swapped(order, i, j);
    assert forall|a: int, b: int| 0 <= a < o2.len() && 0 <= b < o2.len() && a != b implies o2[a] != o2[b] by {
        let pa = if a == i { j } else if a == j { i } else { a };
        let pb = if b == i { j } else if b == j { i } else { b };
        assert(o2[a] == order[pa]);
        assert(o2[b] == order[pb]);
    }
    assert(o2.to_set() =~= order.to_set()) by {
        assert forall|x: K| o2.to_set().contains(x) implies order.to_set().contains(x) by {
            let a = choose|a: int| 0 <= a < o2.len() && o2[a] == x;
            let pa = if a == i { j } else if a == j { i } else { a };
            assert(order[pa] == x);
        }
        assert forall|x: K| order.to_set().contains(x) implies o2.to_set().contains(x) by {
            let a = choose|a: int| 0 <= a < order.len() && order[a] == x;
            let pa = if a == i { j } else if a == j { i } else { a };
            assert(o2[pa] == x);
        }
    }
}

/// Moving a key up or down keeps the map consistent.
pub proof fn law_moves_keep_consistency<K, V>(entries: Map<K, V>, order: Seq<K>, key: K)
    requires
        consistent_parts(entries, order),
    ensures
        consistent_parts(entries, moved_up(order, key)),
        consistent_parts(entries, moved_down(order, key)),
{
    order.index_of_first_ensures(key);
    if let Some(i) = position_of(order, key) {
        if i != 0 {
            lemma_swap_keeps_consistency(entries, order, i, i - 1);
        }
        if i != order.len() - 1 {
            lemma_swap_keeps_consistency(entries, order, i, i + 1);
        }
    }
}

/// Moving a key that has an entry to the bottom keeps the map consistent and
/// makes the key the last one.
pub proof fn law_move_to_bottom_keeps_consistency<K, V>(entries: Map<K, V>, order: Seq<K>, key: K)
    requires
        consistent_parts(entries, order),
        entries.contains_key(key),
    ensures
        consistent_parts(entries, without_first(order, key).push(key)),
        without_first(order, key).push(key).last() == key,
{
    law_remove_keeps_consistency(entries, order, key);
    let v = entries[key];
    law_insert_new_key_keeps_consistency(entries.remove(key), without_first(order, key), key, v);
    assert(entries.remove(key).insert(key, v) =~= entries);
}

/// Moving a key up and then down again restores the order, whenever the key
/// is not already the first one.
pub proof fn law_move_up_then_down_restores<K>(order: Seq<K>, key: K, i: int)
    requires
        position_of(order, key) == Some(i),
        i > 0,
    ensures
        moved_down(moved_up(order, key), key) == order,
{
    order.index_of_first_ensures(key);
    let o2 = swapped(order, i, i - 1);
    assert(moved_up(order, key) == o2);
    o2.index_of_first_ensures(key);
    assert(o2[i - 1] == key);
    assert forall|j: int| 0 <= j < i - 1 implies o2[j] != key by {
        assert(o2[j] == order[j]);
    }
    assert(o2.contains(key));
    if let Some(p) = position_of(o2, key) {
        if p < i - 1 {
            assert(o2[p] == order[p]);
        }
        assert(p == i - 1);
    }
    assert(swapped(o2, i - 1, i) =~= order);
}

/// Moving a key down and then up again restores the order, whenever the key
/// is not already the last one and the order holds no key twice.
pub proof fn law_move_down_then_up_restores<K>(order: Seq<K>, key: K, i: int)
    requires
        position_of(order, key) == Some(i),
        i < order.len() - 1,
        order.no_duplicates(),
    ensures
        moved_up(moved_down(order, key), key) == order,
{
    order.index_of_first_ensures(key);
    let o2 = swapped(order, i, i + 1);
    assert(moved_down(order, key) == o2);
    o2.index_of_first_ensures(key);
    assert(o2[i + 1] == key);
    assert(order[i + 1] != key);
    assert forall|j: int| 0 <= j < i + 1 implies o2[j] != key by {
        if j < i {
            assert(o2[j] == order[j]);
        } else {
            assert(o2[j] == order[i + 1]);
        }
    }
    assert(o2.contains(key));
    if let Some(p) = position_of(o2, key) {
        assert(p == i + 1);
    }
    assert(swapped(o2, i + 1, i) =~= order);
}

/// In a consistent map the number of keys in the order equals the number of
/// entries.
pub proof fn law_len_counts_entries<K, V>(entries: Map<K, V>, order: Seq<K>)
    requires
        consistent_parts(entries, order),
    ensures
        order.len() == entries.dom().len(),
{
    order.unique_seq_to_set();
}

/// A lookup after an insert gives back the inserted value under its key and
/// what was there before under every other key.
pub proof fn law_get_after_insert<K, V>(entries: Map<K, V>, key: K, value: V, other: K)
    ensures
        entries.insert(key, value).contains_key(key),
        entries.insert(key, value)[key] == value,
        other != key ==> entries.insert(key, value).contains_key(other) == entries.contains_key(other),
        other != key && entries.contains_key(other) ==> entries.insert(key, value)[other]
            == entries[other],
{
}

/// A lookup after a remove finds nothing under the removed key and what was
/// there before under every other key.
pub proof fn law_get_after_remove<K, V>(entries: Map<K, V>, key: K, other: K)
    ensures
        !entries.remove(key).contains_key(key),
        other != key ==> entries.remove(key).contains_key(other) == entries.contains_key(other),
        other != key && entries.contains_key(other) ==> entries.remove(key)[other] == entries[other],
{
}

/// After inserting a key that was not in the order, the key is found at the
/// end of the order.
pub proof fn law_inserted_key_found_at_end<K>(order: Seq<K>, key: K)
    requires
        !order.contains(key),
    ensures
        position_of(order.push(key), key) == Some(order.len() as int),
{
    order.push(key).index_of_first_ensures(key);
    assert(order.push(key)[order.len() as int] == key);
    if let Some(p) = position_of(order.push(key), key) {
        if p < order.len() {
            assert(order[p] == key);
        }
    }
}


/// In a consistent map, the values in key order are exactly one value per
/// key of the order: the value of each key, in the order of the keys.
pub proof fn law_values_in_order_are_one_per_key<K, V>(entries: Map<K, V>, order: Seq<K>)
    requires
        consistent_parts(entries, order),
    ensures
        values_in(order, entries) == order.map_values(|k: K| entries[k]),
{
    assert forall|i: int| 0 <= i < order.len() implies entries.contains_key(#[trigger] order[i]) by {
        assert(order.to_set().contains(order[i]));
    }
    lemma_values_of_present_keys(entries, order);
}

proof fn lemma_values_of_present_keys<K, V>(entries: Map<K, V>, order: Seq<K>)
    requires
        forall|i: int| 0 <= i < order.len() ==> entries.contains_key(#[trigger] order[i]),
    ensures
        values_in(order, entries) == order.map_values(|k: K| entries[k]),
    decreases order.len(),
{
    if order.len() > 0 {
        let rest = order.drop_last();
        assert forall|i: int| 0 <= i < rest.len() implies entries.contains_key(#[trigger] rest[i]) by {
            assert(rest[i] == order[i]);
        }
        lemma_values_of_present_keys(entries, rest);
        assert(entries.contains_key(order[order.len() - 1]));
        assert(values_in(order, entries) =~= order.map_values(|k: K| entries[k]));
    } else {
        assert(values_in(order, entries) =~= order.map_values(|k: K| entries[k]));
    }
}

/// A call on an ordered map, with what it changes of the entries.
pub enum MapStep<K, V> {
    MoveUp(K),
    MoveDown(K),
    MoveToBottom(K),
    Insert(K, V),
    Remove(K),
}

/// `after` is `before` after the call `step`, as the call's contract
/// states it: `insert` and `remove` change the entries and the order, the
/// moves change only the order.
pub open spec fn after_step<K, V>(before: OrderedHashMap<K, V>, step: MapStep<K, V>, after: OrderedHashMap<K, V>) -> bool {
    match step {
        MapStep::MoveUp(k) => after.entries() == before.entries() && after.key_order() == moved_up(
            before.key_order(),
            k,
        ),
        MapStep::MoveDown(k) => after.entries() == before.entries() && after.key_order() == moved_down(
            before.key_order(),
            k,
        ),
        MapStep::MoveToBottom(k) => after.entries() == before.entries() && after.key_order()
            == without_first(before.key_order(), k).push(k),
        MapStep::Insert(k, v) => after.entries() == before.entries().insert(k, v) && after.key_order()
            == before.key_order().push(k),
        MapStep::Remove(k) => after.entries() == before.entries().remove(k) && after.key_order()
            == without_first(before.key_order(), k),
    }
}

/// The key that a call inserts or removes, if any.
pub open spec fn step_writes<K, V>(step: MapStep<K, V>, key: K) -> bool {
    match step {
        MapStep::Insert(k, _) => k == key,
        MapStep::Remove(k) => k == key,
        _ => false,
    }
}

/// Reordering never changes a stored value: after `insert(key, value)`,
/// any sequence of calls of `move_up`, `move_down`, `move_to_bottom`, and of
/// `insert` and `remove` of other keys, leaves `value` stored under `key`,
/// so that `get(&key)` gives it. `maps[i + 1]` is the map after the call
/// `steps[i]` on `maps[i]`.
pub proof fn law_reordering_keeps_values<K, V>(
    maps: Seq<OrderedHashMap<K, V>>,
    steps: Seq<MapStep<K, V>>,
    key: K,
    value: V,
)
    requires
        steps.len() > 0,
        maps.len() == steps.len() + 1,
        steps[0] == MapStep::Insert(key, value),
        forall|i: int| 0 <= i < steps.len() ==> after_step(maps[i], #[trigger] steps[i], maps[i + 1]),
        forall|i: int| 1 <= i < steps.len() ==> !step_writes(#[trigger] steps[i], key),
    ensures
        maps.last().entries().contains_key(key),
        maps.last().entries()[key] == value,
    decreases steps.len(),
{
    if steps.len() > 1 {
        let n = steps.len() - 1;
        assert(after_step(maps[n], steps[n], maps[n + 1]));
        assert(!step_writes(steps[n], key));
        law_reordering_keeps_values(maps.drop_last(), steps.drop_last(), key, value);
        assert(maps.drop_last().last() == maps[n]);
    } else {
        assert(after_step(maps[0], steps[0], maps[1]));
    }
}

} // verus!
