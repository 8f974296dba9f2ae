//! A small map from strings to values, kept in a vector.
//!
//! The registry of connections has to hand a connection out when it takes
//! it off the books, which the hash maps at hand cannot do. It holds the
//! connections in flight only, so the map is a vector of pairs in which no
//! key occurs twice.

use vstd::prelude::*;

verus! {

/// Whether some entry of `s` has the key `k`.
spec fn has_key<V>(s: Seq<(String, V)>, k: Seq<char>) -> bool {
    exists|i: int| 0 <= i < s.len() && #[trigger] s[i].0@ == k
}

/// The place of an entry of `s` with the key `k`.
spec fn index_of<V>(s: Seq<(String, V)>, k: Seq<char>) -> int {
    choose|i: int| 0 <= i < s.len() && #[trigger] s[i].0@ == k
}

/// Whether no key occurs twice in `s`.
spec fn keys_distinct<V>(s: Seq<(String, V)>) -> bool {
    forall|i: int, j: int|
        0 <= i < s.len() && 0 <= j < s.len() && i != j ==> #[trigger] s[i].0@ != #[trigger] s[j].0@
}

/// The map that the entries `s` stand for.
spec fn entries_map<V>(s: Seq<(String, V)>) -> Map<Seq<char>, V> {
    Map::new(|k: Seq<char>| has_key(s, k), |k: Seq<char>| s[index_of(s, k)].1)
}

/// With distinct keys, the entry at `i` is the one that its key finds.
proof fn lemma_entry_found<V>(s: Seq<(String, V)>, i: int)
    requires
        keys_distinct(s),
        0 <= i < s.len(),
    ensures
        has_key(s, s[i].0@),
        index_of(s, s[i].0@) == i,
        entries_map(s).contains_key(s[i].0@),
        entries_map(s)[s[i].0@] == s[i].1,
{
    let k = s[i].0@;
    assert(0 <= i < s.len() && s[i].0@ == k);
    let j = index_of(s, k);
    assert(0 <= j < s.len() && s[j].0@ == k);
}

/// Appending an entry with a new key inserts it into the map.
proof fn lemma_push_inserts<V>(s: Seq<(String, V)>, e: (String, V))
    requires
        keys_distinct(s),
        !has_key(s, e.0@),
    ensures
        keys_distinct(s.push(e)),
        entries_map(s.push(e)) == entries_map(s).insert(e.0@, e.1),
{
    let t = s.push(e);
    assert forall|i: int, j: int| 0 <= i < t.len() && 0 <= j < t.len() && i != j implies #[trigger]
        t[i].0@ != #[trigger] t[j].0@ by {
        if i < s.len() && j < s.len() {
            assert(s[i].0@ != s[j].0@);
        } else if i < s.len() {
            assert(s[i].0@ == t[i].0@);
        } else {
            assert(s[j].0@ == t[j].0@);
        }
    }
    assert forall|k: Seq<char>| #[trigger]
        entries_map(t).contains_key(k) == entries_map(s).insert(e.0@, e.1).contains_key(k) by {
        if has_key(s, k) {
            let i = index_of(s, k);
            assert(t[i].0@ == k);
        }
        if k == e.0@ {
            assert(t[s.len() as int].0@ == k);
        }
        if has_key(t, k) {
            let i = index_of(t, k);
            if i < s.len() {
                assert(s[i].0@ == k);
            }
        }
    }
    assert forall|k: Seq<char>| #[trigger] entries_map(t).contains_key(k) implies entries_map(t)[k]
        == entries_map(s).insert(e.0@, e.1)[k] by {
        let i = index_of(t, k);
        lemma_entry_found(t, i);
        if i < s.len() {
            assert(s[i].0@ == k);
            lemma_entry_found(s, i);
        }
    }
    assert(entries_map(t) =~= entries_map(s).insert(e.0@, e.1));
}

/// Taking the entry at `i` out removes its key from the map.
proof fn lemma_remove_removes<V>(s: Seq<(String, V)>, i: int)
    requires
        keys_distinct(s),
        0 <= i < s.len(),
    ensures
        keys_distinct(s.remove(i)),
        !has_key(s.remove(i), s[i].0@),
        entries_map(s.remove(i)) == entries_map(s).remove(s[i].0@),
{
    let t = s.remove(i);
    let gone = s[i].0@;
    assert forall|a: int| 0 <= a < t.len() implies #[trigger] t[a] == s[if a < i {
        a
    } else {
        a + 1
    }] by {}
    assert forall|a: int, b: int| 0 <= a < t.len() && 0 <= b < t.len() && a != b implies #[trigger]
        t[a].0@ != #[trigger] t[b].0@ by {
        let a2 = if a < i {
            a
        } else {
            a + 1
        };
        let b2 = if b < i {
            b
        } else {
            b + 1
        };
        assert(s[a2].0@ != s[b2].0@);
    }
    if has_key(t, gone) {
        let a = index_of(t, gone);
        let a2 = if a < i {
            a
        } else {
            a + 1
        };
        assert(s[a2].0@ == gone);
        assert(s[i].0@ == gone);
        assert(false);
    }
    assert forall|k: Seq<char>| #[trigger]
        entries_map(t).contains_key(k) == entries_map(s).remove(gone).contains_key(k) by {
        if has_key(t, k) {
            let a = index_of(t, k);
            let a2 = if a < i {
                a
            } else {
                a + 1
            };
            assert(s[a2].0@ == k);
        }
        if has_key(s, k) && k != gone {
            let a = index_of(s, k);
            let a2 = if a < i {
                a
            } else {
                a - 1
            };
            assert(t[a2].0@ == k);
        }
    }
    assert forall|k: Seq<char>| #[trigger] entries_map(t).contains_key(k) implies entries_map(t)[k]
        == entries_map(s).remove(gone)[k] by {
        let a = index_of(t, k);
        lemma_entry_found(t, a);
        let a2 = if a < i {
            a
        } else {
            a + 1
        };
        assert(s[a2].0@ == k);
        lemma_entry_found(s, a2);
    }
    assert(entries_map(t) =~= entries_map(s).remove(gone));
}

/// A map from strings to values of type `V`.
#[verifier::reject_recursive_types(V)]
pub struct Table<V> {
    entries: Vec<(String, V)>,
}

impl<V> View for Table<V> {
    type V = Map<Seq<char>, V>;

    closed spec fn view(&self) -> Map<Seq<char>, V> {
        entries_map(self.entries@)
    }
}

impl<V> Table<V> {
    /// No key occurs twice among the entries.
    pub closed spec fn wf(&self) -> bool {
        keys_distinct(self.entries@)
    }

    /// An empty table.
    pub fn new() -> (t: Table<V>)
        ensures
            t.wf(),
            t@ == Map::<Seq<char>, V>::empty(),
    {
        let t = Table { entries: Vec::new() };
        assert(t@ =~= Map::<Seq<char>, V>::empty());
        t
    }

    /// The place of the entry with key `k`, if there is one.
    fn find(&self, k: &String) -> (r: Option<usize>)
        ensures
            match r {
                Some(i) => i < self.entries@.len() && self.entries@[i as int].0@ == k@,
                None => !has_key(self.entries@, k@),
            },
    {
        let mut i: usize = 0;
        while i < self.entries.len()
            invariant
                i <= self.entries@.len(),
                forall|j: int| 0 <= j < i ==> (#[trigger] self.entries@[j]).0@ != k@,
            decreases self.entries@.len() - i,
        {
            if self.entries[i].0 == *k {
                return Some(i);
            }
            i = i + 1;
        }
        None
    }

    /// Whether the table has an entry for `k`.
    pub fn contains_key(&self, k: &String) -> (r: bool)
        ensures
            r == self@.contains_key(k@),
    {
        self.find(k).is_some()
    }

    /// The value stored for `k`, if there is one.
    pub fn get(&self, k: &String) -> (r: Option<&V>)
        requires
            self.wf(),
        ensures
            match r {
                Some(v) => self@.contains_key(k@) && *v == self@[k@],
                None => !self@.contains_key(k@),
            },
    {
        match self.find(k) {
            Some(i) => {
                proof {
                    lemma_entry_found(self.entries@, i as int);
                }
                Some(&self.entries[i].1)
            },
            None => None,
        }
    }

    /// Stores `v` for `k`, in place of what was stored for `k` before.
    pub fn insert(&mut self, k: String, v: V)
        requires
            old(self).wf(),
        ensures
            final(self).wf(),
            final(self)@ == old(self)@.insert(k@, v),
    {
        match self.find(&k) {
            Some(i) => {
                proof {
                    lemma_remove_removes(self.entries@, i as int);
                }
                let _ = self.entries.remove(i);
            },
            None => {},
        }
        proof {
            lemma_push_inserts(self.entries@, (k, v));
            assert(old(self)@.remove(k@).insert(k@, v) =~= old(self)@.insert(k@, v));
        }
        self.entries.push((k, v));
    }

    /// Takes the value stored for `k` out of the table.
    pub fn remove(&mut self, k: &String) -> (r: Option<V>)
        requires
            old(self).wf(),
        ensures
            final(self).wf(),
            final(self)@ == old(self)@.remove(k@),
            r == if old(self)@.contains_key(k@) {
                Some(old(self)@[k@])
            } else {
                None
            },
    {
        match self.find(k) {
            Some(i) => {
                proof {
                    lemma_remove_removes(self.entries@, i as int);
                    lemma_entry_found(self.entries@, i as int);
                }
                let e = self.entries.remove(i);
                Some(e.1)
            },
            None => {
                assert(old(self)@.remove(k@) =~= old(self)@);
                None
            },
        }
    }
}

} // verus!
