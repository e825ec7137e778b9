//! A small map from string keys to values, kept as a vector of pairs with
//! unique keys and viewed as a `Map`.
use vstd::prelude::*;
use crate::json::str_eq;

verus! {

pub open spec fn keys_unique<V>(e: Seq<(String, V)>) -> bool {
    forall|i: int, j: int|
        0 <= i < e.len() && 0 <= j < e.len() && i != j ==> #[trigger] e[i].0@ != #[trigger] e[j].0@
}

pub open spec fn has_key<V>(e: Seq<(String, V)>, k: Seq<char>) -> bool {
    exists|i: int| 0 <= i < e.len() && #[trigger] e[i].0@ == k
}

/// The map that a list of pairs with unique keys stands for.
pub open spec fn pairs_map<V>(e: Seq<(String, V)>) -> Map<Seq<char>, V> {
    Map::new(
        |k: Seq<char>| has_key(e, k),
        |k: Seq<char>| e[choose|i: int| 0 <= i < e.len() && #[trigger] e[i].0@ == k].1,
    )
}

proof fn lemma_pairs_map_at<V>(e: Seq<(String, V)>, i: int)
    requires
        keys_unique(e),
        0 <= i < e.len(),
    ensures
        pairs_map(e).contains_key(e[i].0@),
        pairs_map(e)[e[i].0@] == e[i].1,
{
    let k = e[i].0@;
    assert(has_key(e, k));
    let j = choose|j: int| 0 <= j < e.len() && #[trigger] e[j].0@ == k;
    assert(j == i);
}

proof fn lemma_pairs_map_remove<V>(e: Seq<(String, V)>, i: int)
    requires
        keys_unique(e),
        0 <= i < e.len(),
    ensures
        keys_unique(e.remove(i)),
        pairs_map(e.remove(i)) =~= pairs_map(e).remove(e[i].0@),
{
    let r = e.remove(i);
    let key = e[i].0@;
    assert forall|a: int, b: int|
        0 <= a < r.len() && 0 <= b < r.len() && a != b implies #[trigger] r[a].0@ != #[trigger] r[b].0@ by {
        let aa = if a < i { a } else { a + 1 };
        let bb = if b < i { b } else { b + 1 };
        assert(r[a] == e[aa] && r[b] == e[bb]);
    }
    assert forall|k: Seq<char>|
        #[trigger] pairs_map(r).contains_key(k) == pairs_map(e).remove(key).contains_key(k) by {
        if has_key(r, k) {
            let j = choose|j: int| 0 <= j < r.len() && #[trigger] r[j].0@ == k;
            let jj = if j < i { j } else { j + 1 };
            assert(r[j] == e[jj]);
            assert(has_key(e, k));
        }
        if has_key(e, k) && k != key {
            let jj = choose|j: int| 0 <= j < e.len() && #[trigger] e[j].0@ == k;
            let j = if jj < i { jj } else { jj - 1 };
            assert(r[j] == e[jj]);
            assert(has_key(r, k));
        }
    }
    assert forall|k: Seq<char>| #[trigger] pairs_map(r).contains_key(k) implies pairs_map(r)[k]
        == pairs_map(e)[k] by {
        let j = choose|j: int| 0 <= j < r.len() && #[trigger] r[j].0@ == k;
        let jj = if j < i { j } else { j + 1 };
        assert(r[j] == e[jj]);
        lemma_pairs_map_at(r, j);
        lemma_pairs_map_at(e, jj);
    }
}

proof fn lemma_pairs_map_push<V>(e: Seq<(String, V)>, key: String, v: V)
    requires
        keys_unique(e),
        !pairs_map(e).contains_key(key@),
    ensures
        keys_unique(e.push((key, v))),
        pairs_map(e.push((key, v))) =~= pairs_map(e).insert(key@, v),
{
    let p = e.push((key, v));
    let n = e.len() as int;
    assert forall|a: int, b: int|
        0 <= a < p.len() && 0 <= b < p.len() && a != b implies #[trigger] p[a].0@ != #[trigger] p[b].0@ by {
        if a < n && b == n {
            assert(!has_key(e, key@));
            assert(e[a].0@ != key@);
        }
        if b < n && a == n {
            assert(!has_key(e, key@));
            assert(e[b].0@ != key@);
        }
    }
    assert forall|k: Seq<char>|
        #[trigger] pairs_map(p).contains_key(k) == pairs_map(e).insert(key@, v).contains_key(k) by {
        if has_key(p, k) && k != key@ {
            let j = choose|j: int| 0 <= j < p.len() && #[trigger] p[j].0@ == k;
            assert(j < n);
            assert(p[j] == e[j]);
            assert(has_key(e, k));
        }
        if has_key(e, k) {
            let j = choose|j: int| 0 <= j < e.len() && #[trigger] e[j].0@ == k;
            assert(p[j] == e[j]);
            assert(has_key(p, k));
        }
        if k == key@ {
            assert(p[n].0@ == k);
            assert(has_key(p, k));
        }
    }
    assert forall|k: Seq<char>| #[trigger] pairs_map(p).contains_key(k) implies pairs_map(p)[k]
        == pairs_map(e).insert(key@, v)[k] by {
        let j = choose|j: int| 0 <= j < p.len() && #[trigger] p[j].0@ == k;
        lemma_pairs_map_at(p, j);
        if j < n {
            assert(p[j] == e[j]);
            lemma_pairs_map_at(e, j);
        }
    }
}

/// A map from string keys to values; each key appears at most once.
pub struct Table<V> {
    entries: Vec<(String, V)>,
}

impl<V> View for Table<V> {
    type V = Map<Seq<char>, V>;

    closed spec fn view(&self) -> Map<Seq<char>, V> {
        pairs_map(self.entries@)
    }
}

impl<V> Table<V> {
    /// Keys are unique.
    pub closed spec fn wf(&self) -> bool {
        keys_unique(self.entries@)
    }

    /// An empty table.
    pub fn new() -> (r: Table<V>)
        ensures
            r.wf(),
            r@ == Map::<Seq<char>, V>::empty(),
    {
        let r = Table { entries: Vec::new() };
        assert(r@ =~= Map::<Seq<char>, V>::empty());
        r
    }

    fn find(&self, key: &str) -> (r: Option<usize>)
        requires
            self.wf(),
        ensures
            match r {
                Some(i) => i < self.entries@.len() && self.entries@[i as int].0@ == key@,
                None => !self@.contains_key(key@),
            },
    {
        let mut i: usize = 0;
        while i < self.entries.len()
            invariant
                i <= self.entries@.len(),
                forall|j: int| 0 <= j < i ==> #[trigger] self.entries@[j].0@ != key@,
            decreases self.entries@.len() - i,
        {
            if str_eq(self.entries[i].0.as_str(), key) {
                return Some(i);
            }
            i = i + 1;
        }
        None
    }

    /// Whether `key` has a value.
    pub fn contains_key(&self, key: &str) -> (r: bool)
        requires
            self.wf(),
        ensures
            r == self@.contains_key(key@),
    {
        match self.find(key) {
            Some(i) => {
                proof {
                    lemma_pairs_map_at(self.entries@, i as int);
                }
                true
            },
            None => false,
        }
    }

    /// The value of `key`, if any.
    pub fn get(&self, key: &str) -> (r: Option<&V>)
        requires
            self.wf(),
        ensures
            match r {
                Some(v) => self@.contains_key(key@) && self@[key@] == *v,
                None => !self@.contains_key(key@),
            },
    {
        match self.find(key) {
            Some(i) => {
                proof {
                    lemma_pairs_map_at(self.entries@, i as int);
                }
                Some(&self.entries[i].1)
            },
            None => None,
        }
    }

    /// Takes the value of `key` out of the table.
    pub fn remove(&mut self, key: &str) -> (r: Option<V>)
        requires
            old(self).wf(),
        ensures
            final(self).wf(),
            final(self)@ == old(self)@.remove(key@),
            r == (if old(self)@.contains_key(key@) {
                Some(old(self)@[key@])
            } else {
                None::<V>
            }),
    {
        match self.find(key) {
            Some(i) => {
                proof {
                    lemma_pairs_map_at(self.entries@, i as int);
                    lemma_pairs_map_remove(self.entries@, i as int);
                }
                let (_, v) = self.entries.remove(i);
                Some(v)
            },
            None => {
                assert(self@.remove(key@) =~= self@);
                None
            },
        }
    }

    /// Sets the value of `key`, handing back the value it replaces.
    pub fn insert(&mut self, key: String, v: V) -> (r: Option<V>)
        requires
            old(self).wf(),
        ensures
            final(self).wf(),
            final(self)@ == old(self)@.insert(key@, v),
            r == (if old(self)@.contains_key(key@) {
                Some(old(self)@[key@])
            } else {
                None::<V>
            }),
    {
        let previous = self.remove(key.as_str());
        proof {
            lemma_pairs_map_push(self.entries@, key, v);
        }
        self.entries.push((key, v));
        assert(old(self)@.remove(key@).insert(key@, v) =~= old(self)@.insert(key@, v));
        previous
    }
}

} // verus!
