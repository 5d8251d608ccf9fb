//! A small mapping from text to text.
//!
//! The mapping is modelled as a `Map<Seq<char>, Seq<char>>`. Its entries are held in a vector
//! in which no key occurs twice, so the vector is the mapping's content, entry for entry.

use vstd::prelude::*;

verus! {

/// A key with its value, both as text.
pub type Pair = (Seq<char>, Seq<char>);

/// The mapping that results from inserting the pairs one after the other: where a key
/// repeats, its last value stays.
pub open spec fn pairs_map(pairs: Seq<Pair>) -> Map<Seq<char>, Seq<char>>
    decreases pairs.len(),
{
    if pairs.len() == 0 {
        Map::empty()
    } else {
        pairs_map(pairs.drop_last()).insert(pairs.last().0, pairs.last().1)
    }
}

/// The pairs of strings as pairs of text.
pub open spec fn pairs_view(entries: Seq<(String, String)>) -> Seq<Pair> {
    entries.map_values(|e: (String, String)| (e.0@, e.1@))
}

/// No key occurs at two places.
pub open spec fn distinct_keys(pairs: Seq<Pair>) -> bool {
    forall|i: int, j: int|
        0 <= i < pairs.len() && 0 <= j < pairs.len() && i != j ==> (#[trigger] pairs[i]).0 != (
        #[trigger] pairs[j]).0
}

/// Some pair has this key.
pub open spec fn has_key(pairs: Seq<Pair>, key: Seq<char>) -> bool {
    exists|i: int| 0 <= i < pairs.len() && (#[trigger] pairs[i]).0 == key
}

/// The keys of `pairs_map` are the keys that occur, and the map is finite.
pub proof fn lemma_pairs_map_dom(pairs: Seq<Pair>)
    ensures
        pairs_map(pairs).dom().finite(),
        forall|key: Seq<char>| #[trigger]
            pairs_map(pairs).contains_key(key) <==> has_key(pairs, key),
    decreases pairs.len(),
{
    if pairs.len() > 0 {
        let front = pairs.drop_last();
        lemma_pairs_map_dom(front);
        assert forall|key: Seq<char>| #[trigger]
            pairs_map(pairs).contains_key(key) <==> has_key(pairs, key) by {
            if has_key(pairs, key) {
                let i = choose|i: int| 0 <= i < pairs.len() && (#[trigger] pairs[i]).0 == key;
                if i < front.len() {
                    assert(front[i].0 == key);
                    assert(has_key(front, key));
                }
            }
            if pairs_map(pairs).contains_key(key) {
                if key == pairs.last().0 {
                    assert(pairs[pairs.len() - 1].0 == key);
                } else {
                    assert(has_key(front, key));
                    let i = choose|i: int| 0 <= i < front.len() && (#[trigger] front[i]).0 == key;
                    assert(pairs[i].0 == key);
                }
            }
        }
    }
}

/// Where no key repeats, every pair is an entry of `pairs_map`.
pub proof fn lemma_pairs_map_entries(pairs: Seq<Pair>)
    requires
        distinct_keys(pairs),
    ensures
        forall|i: int|
            0 <= i < pairs.len() ==> pairs_map(pairs).contains_key((#[trigger] pairs[i]).0)
                && pairs_map(pairs)[pairs[i].0] == pairs[i].1,
    decreases pairs.len(),
{
    if pairs.len() > 0 {
        let front = pairs.drop_last();
        assert forall|i: int, j: int|
            0 <= i < front.len() && 0 <= j < front.len() && i != j implies (#[trigger] front[i]).0
            != (#[trigger] front[j]).0 by {
            assert(front[i] == pairs[i] && front[j] == pairs[j]);
        }
        lemma_pairs_map_entries(front);
        assert forall|i: int| 0 <= i < pairs.len() implies pairs_map(pairs).contains_key(
            (#[trigger] pairs[i]).0,
        ) && pairs_map(pairs)[pairs[i].0] == pairs[i].1 by {
            if i < front.len() {
                assert(front[i] == pairs[i]);
                assert(pairs[i].0 != pairs[pairs.len() - 1].0);
            }
        }
    }
}

/// Where no key repeats, `pairs_map` has as many entries as there are pairs.
pub proof fn lemma_pairs_map_len(pairs: Seq<Pair>)
    requires
        distinct_keys(pairs),
    ensures
        pairs_map(pairs).dom().finite(),
        pairs_map(pairs).len() == pairs.len(),
    decreases pairs.len(),
{
    lemma_pairs_map_dom(pairs);
    if pairs.len() > 0 {
        let front = pairs.drop_last();
        assert forall|i: int, j: int|
            0 <= i < front.len() && 0 <= j < front.len() && i != j implies (#[trigger] front[i]).0
            != (#[trigger] front[j]).0 by {
            assert(front[i] == pairs[i] && front[j] == pairs[j]);
        }
        lemma_pairs_map_len(front);
        lemma_pairs_map_dom(front);
        let key = pairs.last().0;
        if has_key(front, key) {
            let i = choose|i: int| 0 <= i < front.len() && (#[trigger] front[i]).0 == key;
            assert(pairs[i].0 == pairs[pairs.len() - 1].0);
        }
        assert(!pairs_map(front).contains_key(key));
    }
}

/// A pair whose key does not occur behind it is an entry of `pairs_map`.
pub proof fn lemma_pairs_map_last_wins(pairs: Seq<Pair>, at: int)
    requires
        0 <= at < pairs.len(),
        forall|j: int| at < j < pairs.len() ==> (#[trigger] pairs[j]).0 != pairs[at].0,
    ensures
        pairs_map(pairs).contains_key(pairs[at].0),
        pairs_map(pairs)[pairs[at].0] == pairs[at].1,
    decreases pairs.len(),
{
    if at < pairs.len() - 1 {
        let front = pairs.drop_last();
        assert(front[at] == pairs[at]);
        assert forall|j: int| at < j < front.len() implies (#[trigger] front[j]).0 != front[at].0 by {
            assert(front[j] == pairs[j]);
        }
        lemma_pairs_map_last_wins(front, at);
        assert(pairs[pairs.len() - 1].0 != pairs[at].0);
    }
}

/// Appending a pair inserts it.
pub proof fn lemma_pairs_map_push(pairs: Seq<Pair>, key: Seq<char>, value: Seq<char>)
    ensures
        pairs_map(pairs.push((key, value))) == pairs_map(pairs).insert(key, value),
{
    assert(pairs.push((key, value)).drop_last() == pairs);
}

/// Where no key repeats, giving the pair at `at` a new value is inserting under its key.
pub proof fn lemma_pairs_map_update(pairs: Seq<Pair>, at: int, value: Seq<char>)
    requires
        distinct_keys(pairs),
        0 <= at < pairs.len(),
    ensures
        distinct_keys(pairs.update(at, (pairs[at].0, value))),
        pairs_map(pairs.update(at, (pairs[at].0, value))) == pairs_map(pairs).insert(
            pairs[at].0,
            value,
        ),
{
    let key = pairs[at].0;
    let changed = pairs.update(at, (key, value));
    assert forall|i: int, j: int|
        0 <= i < changed.len() && 0 <= j < changed.len() && i != j implies (#[trigger] changed[i]).0
        != (#[trigger] changed[j]).0 by {
        assert(changed[i].0 == pairs[i].0 && changed[j].0 == pairs[j].0);
    }
    lemma_pairs_map_dom(pairs);
    lemma_pairs_map_dom(changed);
    lemma_pairs_map_entries(pairs);
    lemma_pairs_map_entries(changed);
    let before = pairs_map(pairs).insert(key, value);
    let after = pairs_map(changed);
    assert forall|k: Seq<char>| before.contains_key(k) <==> after.contains_key(k) by {
        if before.contains_key(k) {
            if k == key {
                assert(changed[at].0 == k);
            } else {
                let i = choose|i: int| 0 <= i < pairs.len() && (#[trigger] pairs[i]).0 == k;
                assert(changed[i].0 == k);
            }
            assert(has_key(changed, k));
        }
        if after.contains_key(k) {
            let i = choose|i: int| 0 <= i < changed.len() && (#[trigger] changed[i]).0 == k;
            assert(pairs[i].0 == k);
            assert(has_key(pairs, k));
        }
    }
    assert forall|k: Seq<char>| before.contains_key(k) implies before[k] == after[k] by {
        let i = choose|i: int| 0 <= i < changed.len() && (#[trigger] changed[i]).0 == k;
        assert(after[changed[i].0] == changed[i].1);
        if i != at {
            assert(changed[i] == pairs[i]);
            assert(pairs[i].0 != pairs[at].0);
            assert(pairs_map(pairs)[pairs[i].0] == pairs[i].1);
        }
    }
    assert(before =~= after);
}

/// A mapping from text to text.
pub struct FieldMap {
    entries: Vec<(String, String)>,
}

impl View for FieldMap {
    type V = Map<Seq<char>, Seq<char>>;

    closed spec fn view(&self) -> Map<Seq<char>, Seq<char>> {
        pairs_map(pairs_view(self.entries@))
    }
}

impl FieldMap {
    #[verifier::type_invariant]
    spec fn no_key_twice(self) -> bool {
        distinct_keys(pairs_view(self.entries@))
    }

    /// The empty mapping.
    pub fn new() -> (r: Self)
        ensures
            r@ == Map::<Seq<char>, Seq<char>>::empty(),
    {
        let r = FieldMap { entries: Vec::new() };
        assert(pairs_view(r.entries@).len() == 0);
        r
    }

    /// The number of entries.
    pub fn len(&self) -> (n: usize)
        ensures
            self@.dom().finite(),
            n == self@.len(),
    {
        proof {
            use_type_invariant(self);
            lemma_pairs_map_len(pairs_view(self.entries@));
        }
        self.entries.len()
    }

    /// Whether the mapping has no entry.
    pub fn is_empty(&self) -> (r: bool)
        ensures
            r == (self@ == Map::<Seq<char>, Seq<char>>::empty()),
    {
        proof {
            use_type_invariant(self);
            lemma_pairs_map_len(pairs_view(self.entries@));
            if self.entries@.len() == 0 {
                assert(self@ =~= Map::<Seq<char>, Seq<char>>::empty());
            }
        }
        self.entries.len() == 0
    }

    /// The place of `key` among the entries, if it has one.
    fn position(&self, key: &String) -> (r: Option<usize>)
        ensures
            match r {
                Some(i) => i < self.entries@.len() && self.entries@[i as int].0@ == key@,
                None => !has_key(pairs_view(self.entries@), key@),
            },
    {
        let mut i: usize = 0;
        while i < self.entries.len()
            invariant
                i <= self.entries@.len(),
                forall|j: int| 0 <= j < i ==> (#[trigger] pairs_view(self.entries@)[j]).0 != key@,
            decreases self.entries@.len() - i,
        {
            if self.entries[i].0 == *key {
                return Some(i);
            }
            assert(pairs_view(self.entries@)[i as int].0 == self.entries@[i as int].0@);
            i += 1;
        }
        None
    }

    /// The value stored under `key`.
    pub fn get(&self, key: &str) -> (r: Option<&String>)
        ensures
            match r {
                Some(value) => self@.contains_key(key@) && self@[key@] == value@,
                None => !self@.contains_key(key@),
            },
    {
        let wanted = String::from_str(key);
        proof {
            use_type_invariant(self);
            lemma_pairs_map_dom(pairs_view(self.entries@));
            lemma_pairs_map_entries(pairs_view(self.entries@));
        }
        match self.position(&wanted) {
            Some(i) => {
                assert(pairs_view(self.entries@)[i as int] == (
                    self.entries@[i as int].0@,
                    self.entries@[i as int].1@,
                ));
                Some(&self.entries[i].1)
            },
            None => None,
        }
    }

    /// Whether a value is stored under `key`.
    pub fn contains_key(&self, key: &str) -> (r: bool)
        ensures
            r == self@.contains_key(key@),
    {
        self.get(key).is_some()
    }

    /// Stores `value` under `key`; a value already stored under `key` is replaced.
    pub fn insert(&mut self, key: String, value: String)
        ensures
            final(self)@ == old(self)@.insert(key@, value@),
    {
        proof {
            use_type_invariant(&*self);
        }
        let ghost before = pairs_view(self.entries@);
        let found = self.position(&key);
        let mut entries: Vec<(String, String)> = Vec::new();
        core::mem::swap(&mut self.entries, &mut entries);
        match found {
            Some(i) => {
                proof {
                    assert(before[i as int].0 == key@);
                    lemma_pairs_map_update(before, i as int, value@);
                }
                entries.set(i, (key, value));
                assert(pairs_view(entries@) =~= before.update(i as int, (key@, value@)));
            },
            None => {
                proof {
                    lemma_pairs_map_push(before, key@, value@);
                    assert forall|i: int, j: int|
                        0 <= i < before.len() + 1 && 0 <= j < before.len() + 1 && i != j implies (
                    #[trigger] before.push((key@, value@))[i]).0 != (#[trigger] before.push(
                        (key@, value@),
                    )[j]).0 by {
                        if i < before.len() {
                            assert(before[i].0 != key@);
                        }
                        if j < before.len() {
                            assert(before[j].0 != key@);
                        }
                    }
                }
                entries.push((key, value));
                assert(pairs_view(entries@) =~= before.push((key@, value@)));
            },
        }
        self.entries = entries;
    }

    /// The mapping that results from inserting the pairs in their order.
    pub fn from_pairs(pairs: &Vec<(String, String)>) -> (r: Self)
        ensures
            r@ == pairs_map(pairs_view(pairs@)),
    {
        let mut r = FieldMap::new();
        let mut i: usize = 0;
        while i < pairs.len()
            invariant
                i <= pairs@.len(),
                r@ == pairs_map(pairs_view(pairs@).take(i as int)),
            decreases pairs@.len() - i,
        {
            let key = pairs[i].0.clone();
            let value = pairs[i].1.clone();
            proof {
                let all = pairs_view(pairs@);
                assert(all.take(i + 1) == all.take(i as int).push((key@, value@)));
                lemma_pairs_map_push(all.take(i as int), key@, value@);
            }
            r.insert(key, value);
            i += 1;
        }
        assert(pairs_view(pairs@).take(pairs@.len() as int) == pairs_view(pairs@));
        r
    }

    /// The entries of the mapping, each once: no key occurs twice.
    pub fn entries(&self) -> (r: &Vec<(String, String)>)
        ensures
            distinct_keys(pairs_view(r@)),
            pairs_map(pairs_view(r@)) == self@,
    {
        proof {
            use_type_invariant(self);
        }
        &self.entries
    }
}

} // verus!
