//! An insertion-ordered key/value table: the persistent-storage model that
//! the contracts keep their records in.
use vstd::prelude::*;

verus! {

/// A key whose equality and copies are known to the verifier through its view.
pub trait TableKey: View + Sized {
    fn same_key(&self, other: &Self) -> (r: bool)
        ensures
            r == (self@ == other@),
    ;

    fn copy_key(&self) -> (r: Self)
        ensures
            r@ == self@,
    ;
}

impl TableKey for u64 {
    fn same_key(&self, other: &Self) -> (r: bool) {
        *self == *other
    }

    fn copy_key(&self) -> (r: Self) {
        *self
    }
}

impl TableKey for String {
    fn same_key(&self, other: &Self) -> (r: bool) {
        *self == *other
    }

    fn copy_key(&self) -> (r: Self) {
        self.clone()
    }
}

impl TableKey for (u64, String) {
    fn same_key(&self, other: &Self) -> (r: bool) {
        self.0 == other.0 && self.1 == other.1
    }

    fn copy_key(&self) -> (r: Self) {
        (self.0, self.1.clone())
    }
}

impl TableKey for (String, u32) {
    fn same_key(&self, other: &Self) -> (r: bool) {
        self.0 == other.0 && self.1 == other.1
    }

    fn copy_key(&self) -> (r: Self) {
        (self.0.clone(), self.1)
    }
}

impl TableKey for (u64, String, u32) {
    fn same_key(&self, other: &Self) -> (r: bool) {
        self.0 == other.0 && self.1 == other.1 && self.2 == other.2
    }

    fn copy_key(&self) -> (r: Self) {
        (self.0, self.1.clone(), self.2)
    }
}

/// The keys of a sequence of entries, in order.
pub open spec fn seq_keys<K: View, V>(s: Seq<(K, V)>) -> Seq<K::V> {
    s.map_values(|e: (K, V)| e.0@)
}

/// The map that a sequence of entries with distinct keys stands for.
pub open spec fn seq_map<K: View, V: View>(s: Seq<(K, V)>) -> Map<K::V, V::V> {
    Map::new(
        |k: K::V| seq_keys(s).contains(k),
        |k: K::V| s[seq_keys(s).index_of(k)].1@,
    )
}

proof fn lemma_index_of_unique<A>(s: Seq<A>, j: int)
    requires
        s.no_duplicates(),
        0 <= j < s.len(),
    ensures
        s.contains(s[j]),
        s.index_of(s[j]) == j,
{
    let a = s[j];
    assert(s[j] == a);
    assert(s.contains(a));
    let k = s.index_of(a);
    assert(0 <= k < s.len() && s[k] == a);
}

proof fn lemma_map_at<K: View, V: View>(s: Seq<(K, V)>, i: int)
    requires
        seq_keys(s).no_duplicates(),
        0 <= i < s.len(),
    ensures
        seq_keys(s)[i] == s[i].0@,
        seq_map(s).contains_key(s[i].0@),
        seq_map(s)[s[i].0@] == s[i].1@,
{
    lemma_index_of_unique(seq_keys(s), i);
}

/// A table of values keyed by `K`, remembering the order in which keys first
/// arrived. No key occurs twice.
pub struct Table<K: TableKey, V: View> {
    entries: Vec<(K, V)>,
}

impl<K: TableKey, V: View> View for Table<K, V> {
    type V = Map<K::V, V::V>;

    closed spec fn view(&self) -> Map<K::V, V::V> {
        seq_map(self.entries@)
    }
}

impl<K: TableKey, V: View> Table<K, V> {
    /// The keys, in the order in which each was first inserted.
    pub closed spec fn keys(&self) -> Seq<K::V> {
        seq_keys(self.entries@)
    }

    #[verifier::type_invariant]
    closed spec fn keys_distinct(&self) -> bool {
        seq_keys(self.entries@).no_duplicates()
    }

    /// A key is present exactly when it is among the ordered keys.
    pub proof fn lemma_dom(&self)
        ensures
            forall|k: K::V| #[trigger] self@.contains_key(k) <==> self.keys().contains(k),
    {
    }

    pub fn new() -> (t: Self)
        ensures
            t@ == Map::<K::V, V::V>::empty(),
            t.keys() == Seq::<K::V>::empty(),
    {
        let t = Table { entries: Vec::new() };
        assert(t.keys() =~= Seq::<K::V>::empty());
        assert(t@ =~= Map::<K::V, V::V>::empty());
        t
    }

    pub fn len(&self) -> (n: usize)
        ensures
            n == self.keys().len(),
    {
        self.entries.len()
    }

    fn find(&self, k: &K) -> (r: Option<usize>)
        ensures
            match r {
                Some(i) => i < self.keys().len() && self.keys()[i as int] == k@,
                None => !self.keys().contains(k@),
            },
    {
        let mut i: usize = 0;
        while i < self.entries.len()
            invariant
                i <= self.entries@.len(),
                forall|j: int| 0 <= j < i ==> self.keys()[j] != k@,
            decreases self.entries@.len() - i,
        {
            if self.entries[i].0.same_key(k) {
                return Some(i);
            }
            i += 1;
        }
        None
    }

    pub fn contains_key(&self, k: &K) -> (r: bool)
        ensures
            r == self@.contains_key(k@),
    {
        match self.find(k) {
            Some(i) => {
                assert(self.keys().contains(k@)) by {
                    assert(self.keys()[i as int] == k@);
                }
                true
            },
            None => false,
        }
    }

    pub fn get(&self, k: &K) -> (r: Option<&V>)
        ensures
            match r {
                Some(v) => self@.contains_key(k@) && v@ == self@[k@],
                None => !self@.contains_key(k@),
            },
    {
        proof {
            use_type_invariant(self);
        }
        match self.find(k) {
            Some(i) => {
                proof {
                    lemma_map_at(self.entries@, i as int);
                }
                Some(&self.entries[i].1)
            },
            None => None,
        }
    }

    pub fn key_at(&self, i: usize) -> (r: &K)
        requires
            i < self.keys().len(),
        ensures
            r@ == self.keys()[i as int],
    {
        &self.entries[i].0
    }

    pub fn value_at(&self, i: usize) -> (r: &V)
        requires
            i < self.keys().len(),
        ensures
            self@.contains_key(self.keys()[i as int]),
            r@ == self@[self.keys()[i as int]],
    {
        proof {
            use_type_invariant(self);
            lemma_map_at(self.entries@, i as int);
        }
        &self.entries[i].1
    }

    /// Sets the value of `k`, keeping its place if it was already present and
    /// appending it otherwise.
    pub fn insert(&mut self, k: K, v: V)
        ensures
            final(self)@ == old(self)@.insert(k@, v@),
            final(self).keys() == (if old(self).keys().contains(k@) {
                old(self).keys()
            } else {
                old(self).keys().push(k@)
            }),
    {
        proof {
            use_type_invariant(&*self);
        }
        let found = self.find(&k);
        let mut entries: Vec<(K, V)> = Vec::new();
        std::mem::swap(&mut entries, &mut self.entries);
        let ghost s = entries@;
        let ghost kv = k@;
        let ghost vv = v@;
        assert(s == old(self).entries@);
        match found {
            Some(i) => {
                entries.set(i, (k, v));
                let ghost t = entries@;
                assert(seq_keys(t) =~= seq_keys(s));
                assert(seq_map(t) =~= seq_map(s).insert(kv, vv)) by {
                    lemma_map_at(t, i as int);
                    assert forall|key: K::V| #[trigger] seq_map(s).contains_key(key) && key != kv
                        implies seq_map(t)[key] == seq_map(s)[key] by {
                        let j = seq_keys(s).index_of(key);
                        assert(0 <= j < s.len() && seq_keys(s)[j] == key);
                        assert(j != i);
                    }
                }
            },
            None => {
                entries.push((k, v));
                let ghost t = entries@;
                assert(seq_keys(t) =~= seq_keys(s).push(kv));
                assert(seq_keys(t).no_duplicates()) by {
                    assert forall|a: int, b: int|
                        0 <= a < seq_keys(t).len() && 0 <= b < seq_keys(t).len() && a != b
                        implies seq_keys(t)[a] != seq_keys(t)[b] by {
                        if a == s.len() {
                            assert(seq_keys(s)[b] == seq_keys(t)[b]);
                        } else if b == s.len() {
                            assert(seq_keys(s)[a] == seq_keys(t)[a]);
                        }
                    }
                }
                assert(seq_map(t) =~= seq_map(s).insert(kv, vv)) by {
                    lemma_map_at(t, s.len() as int);
                    assert forall|key: K::V| #[trigger] seq_map(s).contains_key(key) && key != kv
                        implies seq_map(t).contains_key(key) && seq_map(t)[key] == seq_map(s)[key] by {
                        let j = seq_keys(s).index_of(key);
                        assert(0 <= j < s.len() && seq_keys(s)[j] == key);
                        lemma_map_at(s, j);
                        lemma_map_at(t, j);
                    }
                    assert forall|key: K::V| #[trigger] seq_map(t).contains_key(key) && key != kv
                        implies seq_map(s).contains_key(key) by {
                        let j = seq_keys(t).index_of(key);
                        assert(0 <= j < t.len() && seq_keys(t)[j] == key);
                        assert(seq_keys(s)[j] == key);
                    }
                }
            },
        }
        self.entries = entries;
    }

    /// Removes `k` and its value, if present; the other keys keep their order.
    pub fn remove(&mut self, k: &K)
        ensures
            final(self)@ == old(self)@.remove(k@),
            final(self).keys() == (if old(self).keys().contains(k@) {
                old(self).keys().remove(old(self).keys().index_of(k@))
            } else {
                old(self).keys()
            }),
    {
        proof {
            use_type_invariant(&*self);
        }
        match self.find(k) {
            Some(i) => {
                let mut entries: Vec<(K, V)> = Vec::new();
                std::mem::swap(&mut entries, &mut self.entries);
                let ghost s = entries@;
                let _ = entries.remove(i);
                let ghost t = entries@;
                assert(seq_keys(t) =~= seq_keys(s).remove(i as int));
                proof {
                    lemma_index_of_unique(seq_keys(s), i as int);
                }
                assert(seq_keys(t).no_duplicates()) by {
                    assert forall|a: int, b: int|
                        0 <= a < seq_keys(t).len() && 0 <= b < seq_keys(t).len() && a != b
                        implies seq_keys(t)[a] != seq_keys(t)[b] by {
                        let a2 = if a < i { a } else { a + 1 };
                        let b2 = if b < i { b } else { b + 1 };
                        assert(seq_keys(t)[a] == seq_keys(s)[a2]);
                        assert(seq_keys(t)[b] == seq_keys(s)[b2]);
                    }
                }
                assert(seq_map(t) =~= seq_map(s).remove(k@)) by {
                    assert forall|key: K::V| #[trigger] seq_map(t).contains_key(key)
                        implies key != k@ && seq_map(s).contains_key(key)
                            && seq_map(t)[key] == seq_map(s)[key] by {
                        let j = seq_keys(t).index_of(key);
                        assert(0 <= j < t.len() && seq_keys(t)[j] == key);
                        let j2 = if j < i { j } else { j + 1 };
                        assert(seq_keys(s)[j2] == key);
                        lemma_map_at(s, j2);
                        lemma_map_at(t, j);
                    }
                    assert forall|key: K::V| #[trigger] seq_map(s).contains_key(key) && key != k@
                        implies seq_map(t).contains_key(key) by {
                        let j = seq_keys(s).index_of(key);
                        assert(0 <= j < s.len() && seq_keys(s)[j] == key);
                        assert(j != i);
                        let j2 = if j < i { j } else { j - 1 };
                        assert(seq_keys(t)[j2] == key);
                    }
                }
                self.entries = entries;
            },
            None => {
                assert(self@ =~= old(self)@.remove(k@));
            },
        }
    }
}

} // verus!
