//! A map from strings to values that remembers the order in which keys came in.
use vstd::prelude::*;

use crate::text::str_eq;

verus! {

/// `order` without the key `key`.
pub open spec fn without(order: Seq<Seq<char>>, key: Seq<char>) -> Seq<Seq<char>> {
    order.filter(|k: Seq<char>| k != key)
}

/// `order` with the key `key`, which joins at the end unless `known`.
pub open spec fn with_key(order: Seq<Seq<char>>, key: Seq<char>, known: bool) -> Seq<Seq<char>> {
    if known {
        order
    } else {
        order.push(key)
    }
}

/// A map keyed by strings. Keys are kept in the order of their first insertion.
#[derive(Debug)]
pub struct StringMap<V> {
    keys: Vec<String>,
    values: Vec<V>,
}

impl<V> View for StringMap<V> {
    type V = Map<Seq<char>, V>;

    /// The entries, as a finite map.
    closed spec fn view(&self) -> Map<Seq<char>, V> {
        Map::new(
            |key: Seq<char>| exists|i: int| 0 <= i < self.keys@.len() && self.keys@[i]@ == key,
            |key: Seq<char>|
                self.values@[choose|i: int| 0 <= i < self.keys@.len() && self.keys@[i]@ == key],
        )
    }
}

impl<V> StringMap<V> {
    /// No key occurs twice, and every key has its value.
    pub closed spec fn wf(&self) -> bool {
        &&& self.keys@.len() == self.values@.len()
        &&& forall|i: int, j: int|
            0 <= i < j < self.keys@.len() ==> self.keys@[i]@ != self.keys@[j]@
    }

    /// The keys in the order in which they were first inserted.
    pub closed spec fn key_order(&self) -> Seq<Seq<char>> {
        self.keys@.map_values(|k: String| k@)
    }

    proof fn lemma_at(&self, i: int)
        requires
            self.wf(),
            0 <= i < self.keys@.len(),
        ensures
            self@.dom().contains(self.keys@[i]@),
            self@[self.keys@[i]@] == self.values@[i],
    {
        let key = self.keys@[i]@;
        let j = choose|j: int| 0 <= j < self.keys@.len() && self.keys@[j]@ == key;
        assert(0 <= j < self.keys@.len() && self.keys@[j]@ == key);
        if i < j {
            assert(self.keys@[i]@ != self.keys@[j]@);
        } else if j < i {
            assert(self.keys@[j]@ != self.keys@[i]@);
        }
    }

    /// Each key of the map stands in the order exactly once.
    pub proof fn lemma_key_order(&self)
        requires
            self.wf(),
        ensures
            self.key_order().no_duplicates(),
            forall|key: Seq<char>| self.key_order().contains(key) <==> self@.dom().contains(key),
    {
        let order = self.key_order();
        assert forall|key: Seq<char>| order.contains(key) implies self@.dom().contains(key) by {
            let i = choose|i: int| 0 <= i < order.len() && order[i] == key;
            self.lemma_at(i);
        }
        assert forall|key: Seq<char>| self@.dom().contains(key) implies order.contains(key) by {
            let i = choose|i: int| 0 <= i < self.keys@.len() && self.keys@[i]@ == key;
            assert(order[i] == key);
        }
    }

    /// The map without entries.
    pub fn new() -> (map: Self)
        ensures
            map.wf(),
            map@ == Map::<Seq<char>, V>::empty(),
            map.key_order() == Seq::<Seq<char>>::empty(),
    {
        let map = StringMap { keys: Vec::new(), values: Vec::new() };
        assert(map@ =~= Map::<Seq<char>, V>::empty());
        map
    }

    /// The number of entries.
    pub fn len(&self) -> (n: usize)
        requires
            self.wf(),
        ensures
            n == self.key_order().len(),
    {
        self.keys.len()
    }

    /// Whether the map has no entries.
    pub fn is_empty(&self) -> (yes: bool)
        requires
            self.wf(),
        ensures
            yes == (self.key_order().len() == 0),
            yes == (self@ == Map::<Seq<char>, V>::empty()),
    {
        proof {
            if self.keys@.len() == 0 {
                assert(self@ =~= Map::<Seq<char>, V>::empty());
            } else {
                self.lemma_at(0);
            }
        }
        self.keys.len() == 0
    }

    fn find(&self, key: &str) -> (at: Option<usize>)
        requires
            self.wf(),
        ensures
            match at {
                Some(i) => i < self.keys@.len() && self.keys@[i as int]@ == key@
                    && self@.dom().contains(key@) && self@[key@] == self.values@[i as int],
                None => !self@.dom().contains(key@) && forall|i: int|
                    0 <= i < self.keys@.len() ==> self.keys@[i]@ != key@,
            },
    {
        let mut i: usize = 0;
        while i < self.keys.len()
            invariant
                self.wf(),
                i <= self.keys@.len(),
                forall|j: int| 0 <= j < i ==> self.keys@[j]@ != key@,
            decreases self.keys@.len() - i,
        {
            if str_eq(self.keys[i].as_str(), key) {
                proof {
                    self.lemma_at(i as int);
                }
                return Some(i);
            }
            i = i + 1;
        }
        None
    }

    /// Whether `key` has an entry.
    pub fn contains_key(&self, key: &str) -> (yes: bool)
        requires
            self.wf(),
        ensures
            yes == self@.dom().contains(key@),
    {
        self.find(key).is_some()
    }

    /// The value of `key`, if it has one.
    pub fn get(&self, key: &str) -> (value: Option<&V>)
        requires
            self.wf(),
        ensures
            match value {
                Some(v) => self@.dom().contains(key@) && *v == self@[key@],
                None => !self@.dom().contains(key@),
            },
    {
        match self.find(key) {
            Some(i) => Some(&self.values[i]),
            None => None,
        }
    }

    /// A mutable reference to the value of `key`, if it has one.
    pub fn get_mut(&mut self, key: &str) -> (value: Option<&mut V>)
        requires
            old(self).wf(),
        ensures
            final(self).wf(),
            final(self).key_order() == old(self).key_order(),
            match value {
                Some(v) => old(self)@.dom().contains(key@) && *v == old(self)@[key@]
                    && final(self)@ == old(self)@.insert(key@, *final(v)),
                None => !old(self)@.dom().contains(key@) && *final(self) == *old(self),
            },
    {
        match self.find(key) {
            Some(i) => Some(&mut self.values[i]),
            None => None,
        }
    }

    /// Gives `key` the value `value` and returns the value it had before.
    pub fn insert(&mut self, key: String, value: V) -> (before: Option<V>)
        requires
            old(self).wf(),
        ensures
            final(self).wf(),
            final(self)@ == old(self)@.insert(key@, value),
            match before {
                Some(v) => old(self)@.dom().contains(key@) && v == old(self)@[key@],
                None => !old(self)@.dom().contains(key@),
            },
            final(self).key_order() == with_key(
                old(self).key_order(),
                key@,
                old(self)@.dom().contains(key@),
            ),
    {
        let ghost before_map = *self;
        match self.find(key.as_str()) {
            Some(i) => {
                let mut value = value;
                let ghost put = value;
                std::mem::swap(&mut self.values[i], &mut value);
                proof {
                    assert(self.values@ == before_map.values@.update(i as int, put));
                    self.lemma_same_keys(before_map, i as int);
                }
                Some(value)
            },
            None => {
                self.keys.push(key);
                self.values.push(value);
                proof {
                    self.lemma_pushed(before_map, key, value);
                }
                None
            },
        }
    }

    proof fn lemma_same_keys(&self, before: Self, i: int)
        requires
            before.wf(),
            0 <= i < before.keys@.len(),
            self.keys@ == before.keys@,
            self.values@.len() == before.values@.len(),
            forall|j: int| 0 <= j < before.values@.len() && j != i ==> self.values@[j]
                == before.values@[j],
        ensures
            self.wf(),
            self@ == before@.insert(before.keys@[i]@, self.values@[i]),
            self.key_order() == before.key_order(),
    {
        let key = before.keys@[i]@;
        let want = before@.insert(key, self.values@[i]);
        before.lemma_at(i);
        self.lemma_at(i);
        assert forall|k: Seq<char>| self@.dom().contains(k) <==> want.dom().contains(k) by {}
        assert forall|k: Seq<char>| self@.dom().contains(k) implies self@[k] == want[k] by {
            let j = choose|j: int| 0 <= j < self.keys@.len() && self.keys@[j]@ == k;
            self.lemma_at(j);
            before.lemma_at(j);
        }
        assert(self@ =~= want);
    }

    proof fn lemma_pushed(&self, before: Self, key: String, value: V)
        requires
            before.wf(),
            !before@.dom().contains(key@),
            forall|i: int| 0 <= i < before.keys@.len() ==> before.keys@[i]@ != key@,
            self.keys@ == before.keys@.push(key),
            self.values@ == before.values@.push(value),
        ensures
            self.wf(),
            self@ == before@.insert(key@, value),
            self.key_order() == before.key_order().push(key@),
    {
        let n = before.keys@.len() as int;
        let want = before@.insert(key@, value);
        assert(self.keys@[n]@ == key@);
        self.lemma_at(n);
        assert forall|k: Seq<char>| self@.dom().contains(k) <==> want.dom().contains(k) by {
            if want.dom().contains(k) && k != key@ {
                let j = choose|j: int| 0 <= j < before.keys@.len() && before.keys@[j]@ == k;
                assert(self.keys@[j]@ == k);
            }
            if self@.dom().contains(k) {
                let j = choose|j: int| 0 <= j < self.keys@.len() && self.keys@[j]@ == k;
                if j < n {
                    assert(before.keys@[j]@ == k);
                }
            }
        }
        assert forall|k: Seq<char>| self@.dom().contains(k) implies self@[k] == want[k] by {
            let j = choose|j: int| 0 <= j < self.keys@.len() && self.keys@[j]@ == k;
            self.lemma_at(j);
            if j < n {
                before.lemma_at(j);
            }
        }
        assert(self@ =~= want);
        assert(self.key_order() =~= before.key_order().push(key@));
    }

    proof fn lemma_removed(&self, before: Self, i: int)
        requires
            before.wf(),
            0 <= i < before.keys@.len(),
            self.keys@ == before.keys@.remove(i),
            self.values@ == before.values@.remove(i),
        ensures
            self.wf(),
            self@ == before@.remove(before.keys@[i]@),
            self.key_order() == before.key_order().remove(i),
    {
        let key = before.keys@[i]@;
        let want = before@.remove(key);
        before.lemma_at(i);
        assert forall|a: int, b: int| 0 <= a < b < self.keys@.len() implies self.keys@[a]@
            != self.keys@[b]@ by {
            let x = if a < i { a } else { a + 1 };
            let y = if b < i { b } else { b + 1 };
            assert(self.keys@[a] == before.keys@[x] && self.keys@[b] == before.keys@[y]);
        }
        assert forall|k: Seq<char>| self@.dom().contains(k) <==> want.dom().contains(k) by {
            if want.dom().contains(k) {
                let j = choose|j: int| 0 <= j < before.keys@.len() && before.keys@[j]@ == k;
                if j < i {
                    assert(self.keys@[j]@ == k);
                } else {
                    assert(j != i);
                    assert(self.keys@[j - 1]@ == k);
                }
            }
            if self@.dom().contains(k) {
                let j = choose|j: int| 0 <= j < self.keys@.len() && self.keys@[j]@ == k;
                let x = if j < i { j } else { j + 1 };
                assert(before.keys@[x]@ == k);
                before.lemma_at(x);
                if i < x {
                    assert(before.keys@[i]@ != before.keys@[x]@);
                }
            }
        }
        assert forall|k: Seq<char>| self@.dom().contains(k) implies self@[k] == want[k] by {
            let j = choose|j: int| 0 <= j < self.keys@.len() && self.keys@[j]@ == k;
            self.lemma_at(j);
            let x = if j < i { j } else { j + 1 };
            before.lemma_at(x);
        }
        assert(self@ =~= want);
        assert(self.key_order() =~= before.key_order().remove(i));
    }

    /// Removes the entry of `key` and returns its value, if there was one.
    pub fn remove(&mut self, key: &str) -> (value: Option<V>)
        requires
            old(self).wf(),
        ensures
            final(self).wf(),
            final(self)@ == old(self)@.remove(key@),
            final(self).key_order() == without(old(self).key_order(), key@),
            match value {
                Some(v) => old(self)@.dom().contains(key@) && v == old(self)@[key@],
                None => !old(self)@.dom().contains(key@),
            },
    {
        let ghost before = *self;
        match self.find(key) {
            Some(i) => {
                let _dropped = self.keys.remove(i);
                let value = self.values.remove(i);
                proof {
                    self.lemma_removed(before, i as int);
                    lemma_filter_one(before.key_order(), i as int, key@);
                }
                Some(value)
            },
            None => {
                proof {
                    assert(self@ =~= before@.remove(key@));
                    lemma_filter_none(before.key_order(), key@);
                }
                None
            },
        }
    }

    /// The keys, in the order in which they came in.
    pub fn keys(&self) -> (keys: Vec<String>)
        requires
            self.wf(),
        ensures
            keys@.map_values(|k: String| k@) == self.key_order(),
    {
        self.keys.clone()
    }

    /// The key at position `i` of the order.
    pub fn key_at(&self, i: usize) -> (key: &String)
        requires
            self.wf(),
            i < self.key_order().len(),
        ensures
            key@ == self.key_order()[i as int],
            self@.dom().contains(key@),
    {
        proof {
            self.lemma_at(i as int);
        }
        &self.keys[i]
    }

    /// The value of the key at position `i` of the order.
    pub fn value_at(&self, i: usize) -> (value: &V)
        requires
            self.wf(),
            i < self.key_order().len(),
        ensures
            self@.dom().contains(self.key_order()[i as int]),
            *value == self@[self.key_order()[i as int]],
    {
        proof {
            self.lemma_at(i as int);
        }
        &self.values[i]
    }

    /// A mutable reference to the value of the key at position `i` of the order.
    pub fn value_at_mut(&mut self, i: usize) -> (value: &mut V)
        requires
            old(self).wf(),
            i < old(self).key_order().len(),
        ensures
            final(self).wf(),
            final(self).key_order() == old(self).key_order(),
            old(self)@.dom().contains(old(self).key_order()[i as int]),
            *value == old(self)@[old(self).key_order()[i as int]],
            final(self)@ == old(self)@.insert(old(self).key_order()[i as int], *final(value)),
    {
        proof {
            self.lemma_at(i as int);
        }
        &mut self.values[i]
    }
}

impl<V: Clone> Clone for StringMap<V> {
    fn clone(&self) -> (copy: Self)
        ensures
            self.wf() ==> copy.wf(),
            copy.key_order() == self.key_order(),
            copy@.dom() == self@.dom(),
            self.wf() ==> forall|key: Seq<char>| #[trigger]
                self@.dom().contains(key) ==> cloned::<V>(self@[key], copy@[key]),
    {
        let copy = StringMap { keys: self.keys.clone(), values: self.values.clone() };
        proof {
            assert(copy.keys@ =~= self.keys@);
            assert(copy@.dom() =~= self@.dom());
            if self.wf() {
                assert forall|key: Seq<char>| #[trigger]
                    self@.dom().contains(key) implies cloned::<V>(self@[key], copy@[key]) by {
                    let i = choose|i: int| 0 <= i < self.keys@.len() && self.keys@[i]@ == key;
                    self.lemma_at(i);
                    copy.lemma_at(i);
                }
            }
        }
        copy
    }
}

proof fn lemma_filter_none(order: Seq<Seq<char>>, key: Seq<char>)
    requires
        forall|i: int| 0 <= i < order.len() ==> order[i] != key,
    ensures
        without(order, key) == order,
    decreases order.len(),
{
    reveal(Seq::filter);
    if order.len() > 0 {
        lemma_filter_none(order.drop_last(), key);
        assert(order.drop_last().push(order.last()) =~= order);
    }
}

proof fn lemma_filter_one(order: Seq<Seq<char>>, i: int, key: Seq<char>)
    requires
        0 <= i < order.len(),
        order[i] == key,
        forall|j: int| 0 <= j < order.len() && j != i ==> order[j] != key,
    ensures
        without(order, key) == order.remove(i),
    decreases order.len(),
{
    reveal(Seq::filter);
    if i == order.len() - 1 {
        lemma_filter_none(order.drop_last(), key);
        assert(order.drop_last() =~= order.remove(i));
    } else {
        lemma_filter_one(order.drop_last(), i, key);
        assert(order.drop_last().remove(i).push(order.last()) =~= order.remove(i));
    }
}

/// A new key comes last, and a known one keeps its place.
pub proof fn law_keys_keep_their_places(order: Seq<Seq<char>>, key: Seq<char>)
    ensures
        with_key(order, key, true) == order,
        with_key(order, key, false).len() == order.len() + 1,
        with_key(order, key, false).last() == key,
        with_key(order, key, false).drop_last() == order,
{
    assert(order.push(key).drop_last() =~= order);
}

/// A removed key is gone, the others are not, and one more at the end stays at the end.
pub proof fn law_removed_keys_are_gone(order: Seq<Seq<char>>, key: Seq<char>, other: Seq<char>)
    ensures
        !without(order, key).contains(key),
        other != key ==> (without(order, key).contains(other) <==> order.contains(other)),
        other != key ==> without(order.push(other), key) == without(order, key).push(other),
        without(order.push(key), key) == without(order, key),
{
    lemma_without(order, key, other);
    reveal(Seq::filter);
    assert(order.push(other).drop_last() =~= order);
    assert(order.push(key).drop_last() =~= order);
}

proof fn lemma_without(order: Seq<Seq<char>>, key: Seq<char>, other: Seq<char>)
    ensures
        !without(order, key).contains(key),
        other != key ==> (without(order, key).contains(other) <==> order.contains(other)),
    decreases order.len(),
{
    reveal(Seq::filter);
    if order.len() > 0 {
        let before = order.drop_last();
        let last = order.last();
        lemma_without(before, key, other);
        assert(order =~= before.push(last));
        lemma_push_contains(before, last, other);
        lemma_push_contains(without(before, key), last, other);
        lemma_push_contains(without(before, key), last, key);
    }
}

proof fn lemma_push_contains(order: Seq<Seq<char>>, last: Seq<char>, key: Seq<char>)
    ensures
        order.push(last).contains(key) <==> order.contains(key) || last == key,
{
    let longer = order.push(last);
    if order.contains(key) {
        let i = choose|i: int| 0 <= i < order.len() && order[i] == key;
        assert(longer[i] == key);
    }
    if last == key {
        assert(longer[order.len() as int] == key);
    }
}

} // verus!
