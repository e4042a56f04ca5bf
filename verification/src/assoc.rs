//! Maps that are filled from a list of key-value pairs, one pair after the
//! other, a later pair replacing an earlier one with the same key.
//!
//! [`to_map`] says what map a list of pairs stands for. [`LinearMap`] is such
//! a map in executable form: it keeps one pair per key.

use vstd::prelude::*;

verus! {

/// The map that the pairs of `s` give when they are inserted in order into an
/// empty map.
pub open spec fn to_map<K, V>(s: Seq<(K, V)>) -> Map<K, V>
    decreases s.len(),
{
    if s.len() == 0 {
        Map::empty()
    } else {
        to_map(s.drop_last()).insert(s.last().0, s.last().1)
    }
}

/// Whether some pair of `s` has the key `k`.
pub open spec fn has_key<K, V>(s: Seq<(K, V)>, k: K) -> bool {
    exists|i: int| 0 <= i < s.len() && (#[trigger] s[i]).0 == k
}

/// Whether the pair at `i` is the last one of `s` with its key.
pub open spec fn is_last_with_key<K, V>(s: Seq<(K, V)>, i: int) -> bool {
    &&& 0 <= i < s.len()
    &&& forall|j: int| i < j < s.len() ==> (#[trigger] s[j]).0 != s[i].0
}

/// Whether no two pairs of `s` share a key.
pub open spec fn distinct_keys<K, V>(s: Seq<(K, V)>) -> bool {
    forall|i: int, j: int| 0 <= i < j < s.len() ==> (#[trigger] s[i]).0 != (#[trigger] s[j]).0
}

/// The keys of the map are the keys that occur in the list, and the map is
/// finite.
pub proof fn lemma_to_map_dom<K, V>(s: Seq<(K, V)>)
    ensures
        to_map(s).dom().finite(),
        forall|k: K| #[trigger] to_map(s).contains_key(k) <==> has_key(s, k),
    decreases s.len(),
{
    if s.len() > 0 {
        let front = s.drop_last();
        lemma_to_map_dom(front);
        assert forall|k: K| #[trigger] to_map(s).contains_key(k) <==> has_key(s, k) by {
            if has_key(s, k) {
                let i = choose|i: int| 0 <= i < s.len() && (#[trigger] s[i]).0 == k;
                if i < front.len() {
                    assert(front[i].0 == k);
                    assert(has_key(front, k));
                }
            }
            if to_map(s).contains_key(k) && k != s.last().0 {
                assert(has_key(front, k));
                let i = choose|i: int| 0 <= i < front.len() && (#[trigger] front[i]).0 == k;
                assert(s[i].0 == k);
            }
            if k == s.last().0 {
                assert(s[s.len() - 1].0 == k);
            }
        }
    }
}

/// Of the pairs that share a key, the last one decides what the map holds.
pub proof fn lemma_to_map_last_wins<K, V>(s: Seq<(K, V)>, i: int)
    requires
        is_last_with_key(s, i),
    ensures
        to_map(s).contains_key(s[i].0),
        to_map(s)[s[i].0] == s[i].1,
    decreases s.len(),
{
    if i < s.len() - 1 {
        let front = s.drop_last();
        assert(s[s.len() - 1].0 != s[i].0);
        assert forall|j: int| i < j < front.len() implies (#[trigger] front[j]).0 != front[i].0 by {
            assert(s[j].0 != s[i].0);
        }
        lemma_to_map_last_wins(front, i);
    }
}

/// One more pair at the end is one more insertion.
pub proof fn lemma_to_map_push<K, V>(s: Seq<(K, V)>, k: K, v: V)
    ensures
        to_map(s.push((k, v))) == to_map(s).insert(k, v),
{
    assert(s.push((k, v)).drop_last() =~= s);
}

/// Where each key occurs once, replacing the value of a pair is an insertion
/// of its key with the new value.
pub proof fn lemma_to_map_update<K, V>(s: Seq<(K, V)>, i: int, v: V)
    requires
        distinct_keys(s),
        0 <= i < s.len(),
    ensures
        distinct_keys(s.update(i, (s[i].0, v))),
        to_map(s.update(i, (s[i].0, v))) == to_map(s).insert(s[i].0, v),
{
    let k = s[i].0;
    let t = s.update(i, (k, v));
    assert forall|a: int, b: int| 0 <= a < b < t.len() implies (#[trigger] t[a]).0 != (
    #[trigger] t[b]).0 by {
        assert(s[a].0 != s[b].0);
    }
    lemma_to_map_dom(s);
    lemma_to_map_dom(t);
    let left = to_map(t);
    let right = to_map(s).insert(k, v);
    assert forall|q: K| #[trigger] left.contains_key(q) <==> right.contains_key(q) by {
        if has_key(t, q) {
            let j = choose|j: int| 0 <= j < t.len() && (#[trigger] t[j]).0 == q;
            if j != i {
                assert(s[j].0 == q);
            }
        }
        if has_key(s, q) {
            let j = choose|j: int| 0 <= j < s.len() && (#[trigger] s[j]).0 == q;
            assert(t[j].0 == q);
        }
        assert(t[i].0 == k);
    }
    assert forall|q: K| #[trigger] left.contains_key(q) implies left[q] == right[q] by {
        let j = choose|j: int| 0 <= j < t.len() && (#[trigger] t[j]).0 == q;
        assert(is_last_with_key(t, j)) by {
            assert forall|b: int| j < b < t.len() implies (#[trigger] t[b]).0 != t[j].0 by {}
        }
        lemma_to_map_last_wins(t, j);
        if j != i {
            assert(is_last_with_key(s, j)) by {
                assert forall|b: int| j < b < s.len() implies (#[trigger] s[b]).0 != s[j].0 by {}
            }
            lemma_to_map_last_wins(s, j);
            assert(s[j].0 != s[i].0) by {
                if j < i {
                    assert(s[j].0 != s[i].0);
                } else {
                    assert(s[i].0 != s[j].0);
                }
            }
        }
    }
    assert(left =~= right);
}

/// Where each key occurs once, the map has as many keys as the list has
/// pairs.
pub proof fn lemma_to_map_len<K, V>(s: Seq<(K, V)>)
    requires
        distinct_keys(s),
    ensures
        to_map(s).len() == s.len(),
    decreases s.len(),
{
    if s.len() > 0 {
        let front = s.drop_last();
        assert forall|a: int, b: int| 0 <= a < b < front.len() implies (#[trigger] front[a]).0 != (
        #[trigger] front[b]).0 by {
            assert(s[a].0 != s[b].0);
        }
        lemma_to_map_len(front);
        lemma_to_map_dom(front);
        if has_key(front, s.last().0) {
            let j = choose|j: int| 0 <= j < front.len() && (#[trigger] front[j]).0 == s.last().0;
            assert(s[j].0 != s[s.len() - 1].0);
        }
    }
}

/// Where in `s` the first pair with the key `k` stands, for a key that `s`
/// has.
pub open spec fn index_of<K, V>(s: Seq<(K, V)>, k: K) -> int {
    choose|i: int| 0 <= i < s.len() && (#[trigger] s[i]).0 == k
}

/// The list `s` after the value of `k` is set to `v`: the pair with the key
/// `k` has the new value and keeps its place, and where there is none the
/// new pair stands at the end.
pub open spec fn inserted<K, V>(s: Seq<(K, V)>, k: K, v: V) -> Seq<(K, V)> {
    if has_key(s, k) {
        s.update(index_of(s, k), (k, v))
    } else {
        s.push((k, v))
    }
}

/// Setting a value in a list where each key occurs once leaves each key
/// occurring once, and is an insertion into the map.
pub proof fn lemma_inserted<K, V>(s: Seq<(K, V)>, k: K, v: V)
    requires
        distinct_keys(s),
    ensures
        distinct_keys(inserted(s, k, v)),
        to_map(inserted(s, k, v)) == to_map(s).insert(k, v),
{
    if has_key(s, k) {
        lemma_to_map_update(s, index_of(s, k), v);
    } else {
        lemma_to_map_push(s, k, v);
        let after = s.push((k, v));
        assert forall|a: int, b: int| 0 <= a < b < after.len() implies (#[trigger] after[a]).0 != (
        #[trigger] after[b]).0 by {
            if b < s.len() {
                assert(s[a].0 != s[b].0);
            } else {
                assert(s[a].0 != k);
            }
        }
    }
}

/// A type whose values can serve as the keys of a [`LinearMap`].
pub trait Key: Sized {
    /// What a key is told apart by.
    type Id;

    /// What this key is told apart by: two keys with the same `id` are the
    /// same key.
    spec fn id(&self) -> Self::Id;

    /// Whether `self` and `other` are the same key.
    fn same(&self, other: &Self) -> (b: bool)
        ensures
            b == (self.id() == other.id()),
    ;
}

impl Key for String {
    type Id = Seq<char>;

    open spec fn id(&self) -> Seq<char> {
        self@
    }

    fn same(&self, other: &Self) -> (b: bool) {
        *self == *other
    }
}

/// The pairs of `s` as the map sees them: each key by its `id`, each value by
/// its view.
pub open spec fn pairs_of<K: Key, V: View>(s: Seq<(K, V)>) -> Seq<(K::Id, V::V)> {
    s.map_values(|e: (K, V)| (e.0.id(), e.1@))
}

/// A map that keeps its pairs in a list, one pair per key, in the order in
/// which the keys were first inserted.
#[derive(Debug)]
pub struct LinearMap<K: Key, V: View> {
    entries: Vec<(K, V)>,
}

impl<K: Key, V: View> View for LinearMap<K, V> {
    type V = Map<K::Id, V::V>;

    closed spec fn view(&self) -> Map<K::Id, V::V> {
        to_map(self.pairs())
    }
}

impl<K: Key, V: View> LinearMap<K, V> {
    /// The pairs of the map, in the order in which their keys were first
    /// inserted.
    pub closed spec fn pairs(&self) -> Seq<(K::Id, V::V)> {
        pairs_of(self.entries@)
    }

    #[verifier::type_invariant]
    spec fn one_pair_per_key(self) -> bool {
        distinct_keys(self.pairs())
    }

    /// The map holds for each key what its pairs give.
    pub proof fn lemma_view(&self)
        ensures
            self@ == to_map(self.pairs()),
    {
    }

    /// An empty map.
    pub fn new() -> (m: Self)
        ensures
            m.pairs() == Seq::<(K::Id, V::V)>::empty(),
            m@ == Map::<K::Id, V::V>::empty(),
    {
        let m = LinearMap { entries: Vec::new() };
        assert(m.pairs() =~= Seq::<(K::Id, V::V)>::empty());
        m
    }

    /// The number of keys.
    pub fn len(&self) -> (n: usize)
        ensures
            n == self@.len(),
            n == self.pairs().len(),
            self@.dom().finite(),
    {
        proof {
            use_type_invariant(self);
            lemma_to_map_len(self.pairs());
            lemma_to_map_dom(self.pairs());
        }
        self.entries.len()
    }

    /// Where in the list the pair with the key `key` stands, if there is one.
    fn position(&self, key: &K) -> (r: Option<usize>)
        ensures
            match r {
                Some(i) => i < self.pairs().len() && self.pairs()[i as int].0 == key.id(),
                None => !has_key(self.pairs(), key.id()),
            },
    {
        let n = self.entries.len();
        let mut i: usize = 0;
        while i < n
            invariant
                i <= n,
                n == self.entries@.len(),
                forall|j: int| 0 <= j < i ==> (#[trigger] self.pairs()[j]).0 != key.id(),
            decreases n - i,
        {
            if self.entries[i].0.same(key) {
                return Some(i);
            }
            i = i + 1;
        }
        None
    }

    /// Whether the map has the key `key`.
    pub fn contains_key(&self, key: &K) -> (b: bool)
        ensures
            b == self@.contains_key(key.id()),
    {
        proof {
            lemma_to_map_dom(self.pairs());
        }
        self.position(key).is_some()
    }

    /// The value that the map holds for `key`, if it has that key.
    pub fn get(&self, key: &K) -> (r: Option<&V>)
        ensures
            match r {
                Some(v) => self@.contains_key(key.id()) && self@[key.id()] == v@,
                None => !self@.contains_key(key.id()),
            },
    {
        proof {
            use_type_invariant(self);
            lemma_to_map_dom(self.pairs());
        }
        match self.position(key) {
            Some(i) => {
                proof {
                    assert(is_last_with_key(self.pairs(), i as int));
                    lemma_to_map_last_wins(self.pairs(), i as int);
                }
                Some(&self.entries[i].1)
            },
            None => None,
        }
    }

    /// Sets the value for `key` to `value`, whether or not the map had the
    /// key before. Every other key keeps its value, and every key that the
    /// map had keeps its place in the order.
    pub fn insert(&mut self, key: K, value: V)
        ensures
            final(self).pairs() == inserted(old(self).pairs(), key.id(), value@),
            final(self)@ == old(self)@.insert(key.id(), value@),
    {
        proof {
            use_type_invariant(&*self);
        }
        let ghost before = self.pairs();
        proof {
            lemma_inserted(before, key.id(), value@);
        }
        let found = self.position(&key);
        // The list leaves the map while it changes, so that the map is never
        // seen with a pair too many.
        let mut entries: Vec<(K, V)> = Vec::new();
        std::mem::swap(&mut entries, &mut self.entries);
        match found {
            Some(i) => {
                assert(before[index_of(before, key.id())].0 == before[i as int].0);
                entries.set(i, (key, value));
            },
            None => {
                entries.push((key, value));
            },
        }
        assert(pairs_of(entries@) =~= inserted(before, key.id(), value@));
        self.entries = entries;
    }

    /// The pairs of the map, each key once, in the order in which the keys
    /// were first inserted.
    pub fn entries(&self) -> (r: &Vec<(K, V)>)
        ensures
            pairs_of(r@) == self.pairs(),
            distinct_keys(self.pairs()),
            self@ == to_map(self.pairs()),
    {
        proof {
            use_type_invariant(self);
        }
        &self.entries
    }
}

} // verus!
