//! Keyed storage shared by the pallets: a map from keys to values whose
//! mathematical content is a `Map` over the keys' views.

use vstd::prelude::*;
use vstd::seq_lib::seq_to_set_is_finite;

verus! {

/// A storage key: a value that can be compared and duplicated at run time
/// and that stands for a mathematical value, its view, in contracts.
///
/// Two keys name the same storage slot exactly when their views are equal.
pub trait Key: View + Sized {
    /// Tells whether `self` and `other` name the same slot.
    fn same(&self, other: &Self) -> (r: bool)
        ensures
            r == (self@ == other@),
    ;

    /// Returns a fresh key that names the same slot as `self`.
    fn duplicate(&self) -> (r: Self)
        ensures
            r@ == self@,
    ;
}

impl Key for String {
    fn same(&self, other: &Self) -> (r: bool) {
        *self == *other
    }

    fn duplicate(&self) -> (r: Self) {
        self.clone()
    }
}

/// A finite map from keys to values, held as a list of entries in which no
/// two keys have the same view.
#[derive(Debug)]
pub struct StorageMap<K: Key, V> {
    entries: Vec<(K, V)>,
}

/// `i` is a position in `s` whose key has view `k`.
spec fn slot_at<K: Key, V>(s: Seq<(K, V)>, k: K::V, i: int) -> bool {
    0 <= i < s.len() && s[i].0@ == k
}

/// No two positions of `s` hold keys with the same view.
spec fn distinct_keys<K: Key, V>(s: Seq<(K, V)>) -> bool {
    forall|i: int, j: int|
        #![trigger s[i], s[j]]
        0 <= i < j < s.len() ==> s[i].0@ != s[j].0@
}

/// The map that a list of entries with distinct keys stands for.
spec fn entries_map<K: Key, V>(s: Seq<(K, V)>) -> Map<K::V, V> {
    Map::new(
        |k: K::V| exists|i: int| slot_at(s, k, i),
        |k: K::V| s[choose|i: int| slot_at(s, k, i)].1,
    )
}

impl<K: Key, V> View for StorageMap<K, V> {
    type V = Map<K::V, V>;

    closed spec fn view(&self) -> Map<K::V, V> {
        entries_map(self.entries@)
    }
}

impl<K: Key, V> StorageMap<K, V> {
    #[verifier::type_invariant]
    spec fn well_formed(&self) -> bool {
        distinct_keys(self.entries@)
    }

    /// The map holds finitely many keys.
    pub proof fn lemma_finite(&self)
        ensures
            self@.dom().finite(),
    {
        let keys = self.entries@.map_values(|e: (K, V)| e.0@);
        seq_to_set_is_finite(keys);
        assert forall|k: K::V| self@.dom().contains(k) == keys.to_set().contains(k) by {
            if self@.dom().contains(k) {
                let i = choose|i: int| slot_at(self.entries@, k, i);
                assert(keys[i] == k);
            }
            if keys.to_set().contains(k) {
                let i = choose|i: int| 0 <= i < keys.len() && keys[i] == k;
                assert(slot_at(self.entries@, k, i));
            }
        }
        assert(self@.dom() =~= keys.to_set());
    }

    /// Creates an empty map.
    pub fn new() -> (r: Self)
        ensures
            r@ == Map::<K::V, V>::empty(),
    {
        Self { entries: Vec::new() }
    }

    /// Looks up the value stored under `key`, if there is one.
    pub fn get(&self, key: &K) -> (r: Option<&V>)
        ensures
            r == (if self@.contains_key(key@) {
                Some(&self@[key@])
            } else {
                None
            }),
    {
        proof {
            use_type_invariant(self);
        }
        let mut i: usize = 0;
        while i < self.entries.len()
            invariant
                i <= self.entries.len(),
                distinct_keys(self.entries@),
                forall|j: int| 0 <= j < i ==> !slot_at(self.entries@, key@, j),
            decreases self.entries.len() - i,
        {
            if self.entries[i].0.same(key) {
                assert(slot_at(self.entries@, key@, i as int));
                return Some(&self.entries[i].1);
            }
            i += 1;
        }
        None
    }

    /// Stores `value` under `key`, replacing what was stored there before.
    pub fn insert(&mut self, key: K, value: V)
        ensures
            final(self)@ == old(self)@.insert(key@, value),
    {
        proof {
            use_type_invariant(&*self);
        }
        let mut entries: Vec<(K, V)> = Vec::new();
        std::mem::swap(&mut entries, &mut self.entries);
        let ghost before = entries@;
        let mut i: usize = 0;
        while i < entries.len()
            invariant
                i <= entries.len(),
                entries@ == before,
                before == old(self).entries@,
                distinct_keys(before),
                forall|j: int| 0 <= j < i ==> !slot_at(before, key@, j),
            decreases entries.len() - i,
        {
            if entries[i].0.same(&key) {
                let ghost k = key@;
                entries.set(i, (key, value));
                proof {
                    lemma_store(before, entries@, i as int, k, value);
                }
                self.entries = entries;
                return;
            }
            i += 1;
        }
        let ghost k = key@;
        entries.push((key, value));
        proof {
            lemma_store(before, entries@, before.len() as int, k, value);
        }
        self.entries = entries;
    }
}

/// Let `b` agree with `a` everywhere but at position `p`, where `b` holds
/// `v` under `k`; and let `p` either be the position at which `a` holds `k`
/// or a new last position, `a` not holding `k`. Then `b` stands for the map
/// of `a` with `v` stored under `k`, and its keys are distinct.
proof fn lemma_store<K: Key, V>(a: Seq<(K, V)>, b: Seq<(K, V)>, p: int, k: K::V, v: V)
    requires
        distinct_keys(a),
        0 <= p <= a.len(),
        b.len() == (if p < a.len() {
            a.len()
        } else {
            a.len() + 1
        }),
        b[p].0@ == k,
        b[p].1 == v,
        forall|j: int| 0 <= j < a.len() && j != p ==> b[j] == a[j],
        p < a.len() ==> a[p].0@ == k,
        p == a.len() ==> forall|j: int| 0 <= j < a.len() ==> !slot_at(a, k, j),
    ensures
        distinct_keys(b),
        entries_map(b) == entries_map(a).insert(k, v),
{
    assert forall|j: int| 0 <= j < a.len() && j != p implies !slot_at(a, k, j) by {
        if p < a.len() {
            assert(a[j].0@ != a[p].0@);
        }
    }
    assert forall|x: int, y: int| 0 <= x < y < b.len() implies b[x].0@ != b[y].0@ by {
        if x == p {
            assert(!slot_at(a, k, y));
        } else if y == p {
            assert(!slot_at(a, k, x));
        } else {
            assert(a[x].0@ != a[y].0@);
        }
    }
    let m = entries_map(a).insert(k, v);
    assert forall|q: K::V| entries_map(b).contains_key(q) == m.contains_key(q) by {
        if entries_map(b).contains_key(q) {
            let j = choose|j: int| slot_at(b, q, j);
            if j != p {
                assert(slot_at(a, q, j));
            }
        }
        if m.contains_key(q) && q != k {
            let j = choose|j: int| slot_at(a, q, j);
            assert(slot_at(b, q, j));
        }
        if q == k {
            assert(slot_at(b, q, p));
        }
    }
    assert forall|q: K::V| entries_map(b).contains_key(q) implies entries_map(b)[q] == m[q] by {
        let j = choose|j: int| slot_at(b, q, j);
        if q != k {
            assert(slot_at(a, q, j));
        }
    }
}

} // verus!
