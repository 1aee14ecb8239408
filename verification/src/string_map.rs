//! A map from strings to values that keeps its entries in insertion order.
use vstd::prelude::*;

verus! {

/// The value stored for key `k` in a list of entries: that of the first entry with key `k`.
pub open spec fn lookup<V>(entries: Seq<(Seq<char>, V)>, k: Seq<char>) -> Option<V>
    decreases entries.len(),
{
    if entries.len() == 0 {
        None
    } else if entries[0].0 == k {
        Some(entries[0].1)
    } else {
        lookup(entries.drop_first(), k)
    }
}

/// The position of the first entry with key `k`, if any.
pub open spec fn position<V>(entries: Seq<(Seq<char>, V)>, k: Seq<char>) -> Option<int>
    decreases entries.len(),
{
    if entries.len() == 0 {
        None
    } else if entries[0].0 == k {
        Some(0)
    } else {
        match position(entries.drop_first(), k) {
            Some(i) => Some(i + 1),
            None => None,
        }
    }
}

/// No key occurs twice among the entries.
pub open spec fn keys_distinct<V>(entries: Seq<(Seq<char>, V)>) -> bool {
    forall|i: int, j: int|
        0 <= i < j < entries.len() ==> #[trigger] entries[i].0 != #[trigger] entries[j].0
}

/// The entries that result from inserting `(k, v)`: the first entry with key `k` gets the value
/// `v`, or the pair is appended when no entry has key `k`.
pub open spec fn insert_spec<V>(entries: Seq<(Seq<char>, V)>, k: Seq<char>, v: V) -> Seq<(Seq<char>, V)> {
    match position(entries, k) {
        Some(i) => entries.update(i, (k, v)),
        None => entries.push((k, v)),
    }
}

/// Facts about `position`: it points at the first entry with the key.
pub proof fn lemma_position<V>(entries: Seq<(Seq<char>, V)>, k: Seq<char>)
    ensures
        match position(entries, k) {
            Some(i) => 0 <= i < entries.len() && entries[i].0 == k && (forall|j: int|
                0 <= j < i ==> entries[j].0 != k) && lookup(entries, k) == Some(entries[i].1),
            None => (forall|j: int| 0 <= j < entries.len() ==> entries[j].0 != k) && lookup(
                entries,
                k,
            ) is None,
        },
    decreases entries.len(),
{
    if entries.len() > 0 && entries[0].0 != k {
        lemma_position(entries.drop_first(), k);
        match position(entries.drop_first(), k) {
            Some(i) => {
                assert forall|j: int| 0 <= j < i + 1 implies entries[j].0 != k by {
                    if j > 0 {
                        assert(entries[j] == entries.drop_first()[j - 1]);
                    }
                }
            },
            None => {
                assert forall|j: int| 0 <= j < entries.len() implies entries[j].0 != k by {
                    if j > 0 {
                        assert(entries[j] == entries.drop_first()[j - 1]);
                    }
                }
            },
        }
    }
}

/// `lookup` finds the first entry with the key, wherever it is.
pub proof fn lemma_lookup_at<V>(entries: Seq<(Seq<char>, V)>, k: Seq<char>, i: int)
    requires
        0 <= i < entries.len(),
        entries[i].0 == k,
        forall|j: int| 0 <= j < i ==> entries[j].0 != k,
    ensures
        lookup(entries, k) == Some(entries[i].1),
        position(entries, k) == Some(i),
    decreases i,
{
    if i > 0 {
        lemma_lookup_at(entries.drop_first(), k, i - 1);
    }
}

/// `lookup` misses a key that no entry has.
pub proof fn lemma_lookup_none<V>(entries: Seq<(Seq<char>, V)>, k: Seq<char>)
    requires
        forall|j: int| 0 <= j < entries.len() ==> entries[j].0 != k,
    ensures
        lookup(entries, k) is None,
        position(entries, k) is None,
    decreases entries.len(),
{
    if entries.len() > 0 {
        lemma_lookup_none(entries.drop_first(), k);
    }
}

/// After an insertion the key maps to the inserted value and every other key keeps its value.
pub proof fn lemma_insert_lookup<V>(entries: Seq<(Seq<char>, V)>, k: Seq<char>, v: V, k2: Seq<char>)
    ensures
        lookup(insert_spec(entries, k, v), k2) == if k2 == k {
            Some(v)
        } else {
            lookup(entries, k2)
        },
{
    let n = insert_spec(entries, k, v);
    lemma_position(entries, k);
    lemma_position(entries, k2);
    match position(entries, k) {
        Some(i) => {
            if k2 == k {
                lemma_lookup_at(n, k2, i);
            } else {
                match position(entries, k2) {
                    Some(j) => {
                        assert forall|m: int| 0 <= m < j implies n[m].0 != k2 by {
                            if m != i {
                                assert(n[m] == entries[m]);
                            }
                        }
                        lemma_lookup_at(n, k2, j);
                    },
                    None => {
                        assert forall|m: int| 0 <= m < n.len() implies n[m].0 != k2 by {
                            if m != i {
                                assert(n[m] == entries[m]);
                            }
                        }
                        lemma_lookup_none(n, k2);
                    },
                }
            }
        },
        None => {
            if k2 == k {
                assert forall|m: int| 0 <= m < entries.len() implies n[m].0 != k2 by {
                    assert(n[m] == entries[m]);
                }
                lemma_lookup_at(n, k2, entries.len() as int);
            } else {
                match position(entries, k2) {
                    Some(j) => {
                        assert forall|m: int| 0 <= m < j implies n[m].0 != k2 by {
                            assert(n[m] == entries[m]);
                        }
                        lemma_lookup_at(n, k2, j);
                    },
                    None => {
                        assert forall|m: int| 0 <= m < n.len() implies n[m].0 != k2 by {
                            if m < entries.len() {
                                assert(n[m] == entries[m]);
                            }
                        }
                        lemma_lookup_none(n, k2);
                    },
                }
            }
        },
    }
}

/// A map with string keys whose entries keep the order in which their keys were first inserted.
#[derive(Debug, PartialEq)]
pub struct StringMap<V> {
    /// The entries in order; when two share a key, the first one counts.
    pub entries: Vec<(String, V)>,
}

impl<V> StringMap<V> {
    /// The entries, keys taken as character sequences, in order.
    pub open spec fn entries_spec(&self) -> Seq<(Seq<char>, V)> {
        self.entries@.map_values(|e: (String, V)| (e.0@, e.1))
    }

    /// The value stored for a key.
    pub open spec fn get_spec(&self, k: Seq<char>) -> Option<V> {
        lookup(self.entries_spec(), k)
    }

    /// The number of entries.
    pub open spec fn len_spec(&self) -> nat {
        self.entries_spec().len()
    }

    /// An empty map.
    pub fn new() -> (r: Self)
        ensures
            r.entries_spec() == Seq::<(Seq<char>, V)>::empty(),
    {
        let r = StringMap { entries: Vec::new() };
        assert(r.entries_spec() =~= Seq::<(Seq<char>, V)>::empty());
        r
    }

    /// The number of entries.
    pub fn len(&self) -> (r: usize)
        ensures
            r == self.len_spec(),
    {
        self.entries.len()
    }

    /// Whether the map has no entries.
    pub fn is_empty(&self) -> (r: bool)
        ensures
            r == (self.len_spec() == 0),
    {
        self.entries.len() == 0
    }

    /// The position of the entry with the given key.
    fn find(&self, k: &str) -> (r: Option<usize>)
        ensures
            match r {
                Some(i) => position(self.entries_spec(), k@) == Some(i as int),
                None => position(self.entries_spec(), k@) is None,
            },
    {
        let ghost es = self.entries_spec();
        let mut i: usize = 0;
        while i < self.entries.len()
            invariant
                i <= self.entries.len(),
                es == self.entries_spec(),
                es.len() == self.entries.len(),
                forall|j: int| 0 <= j < i ==> es[j].0 != k@,
            decreases self.entries.len() - i,
        {
            assert(es[i as int].0 == self.entries@[i as int].0@);
            if crate::text::same_text(self.entries[i].0.as_str(), k) {
                proof {
                    lemma_lookup_at(es, k@, i as int);
                }
                return Some(i);
            }
            i += 1;
        }
        proof {
            lemma_lookup_none(es, k@);
        }
        None
    }

    /// The value stored for a key (`HashMap::get`).
    pub fn get(&self, k: &str) -> (r: Option<&V>)
        ensures
            match r {
                Some(v) => self.get_spec(k@) == Some(*v),
                None => self.get_spec(k@) is None,
            },
    {
        proof {
            lemma_position(self.entries_spec(), k@);
        }
        match self.find(k) {
            Some(i) => Some(&self.entries[i].1),
            None => None,
        }
    }

    /// Whether a value is stored for the key.
    pub fn contains_key(&self, k: &str) -> (r: bool)
        ensures
            r == (self.get_spec(k@) is Some),
    {
        proof {
            lemma_position(self.entries_spec(), k@);
        }
        self.find(k).is_some()
    }

    /// Stores `v` for `k` (`HashMap::insert`): an entry with key `k` keeps its place and gets the
    /// new value, otherwise the pair is added at the end. Returns the value that was replaced.
    pub fn insert(&mut self, k: String, v: V) -> (r: Option<V>)
        ensures
            final(self).entries_spec() == insert_spec(old(self).entries_spec(), k@, v),
            r == old(self).get_spec(k@),
    {
        let ghost es = self.entries_spec();
        proof {
            lemma_position(es, k@);
        }
        match self.find(k.as_str()) {
            Some(i) => {
                let ghost kv = k@;
                let old_entry = self.entries.remove(i);
                self.entries.insert(i, (k, v));
                let r = Some(old_entry.1);
                assert(self.entries_spec() =~= es.update(i as int, (kv, v)));
                r
            },
            None => {
                self.entries.push((k, v));
                assert(self.entries_spec() =~= es.push((k@, v)));
                None
            },
        }
    }

    /// The key of the `i`-th entry.
    pub fn key_at(&self, i: usize) -> (r: &String)
        requires
            i < self.len_spec(),
        ensures
            r@ == self.entries_spec()[i as int].0,
    {
        &self.entries[i].0
    }

    /// The value of the `i`-th entry.
    pub fn value_at(&self, i: usize) -> (r: &V)
        requires
            i < self.len_spec(),
        ensures
            *r == self.entries_spec()[i as int].1,
    {
        &self.entries[i].1
    }
}

impl StringMap<String> {
    /// A copy of the map.
    pub fn copy(&self) -> (r: Self)
        ensures
            r.entries_spec() == self.entries_spec(),
    {
        let mut entries: Vec<(String, String)> = Vec::new();
        let mut i: usize = 0;
        while i < self.entries.len()
            invariant
                i <= self.entries@.len(),
                entries@ == self.entries@.take(i as int),
            decreases self.entries@.len() - i,
        {
            let k = self.entries[i].0.clone();
            let v = self.entries[i].1.clone();
            entries.push((k, v));
            assert(entries@ =~= self.entries@.take(i + 1));
            i += 1;
        }
        assert(self.entries@.take(self.entries@.len() as int) =~= self.entries@);
        StringMap { entries }
    }
}

} // verus!
