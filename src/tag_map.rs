use vstd::prelude::*;

verus! {

/// The map that a sequence of entries stands for: each key that occurs maps to
/// the value stored beside it (the keys are unique where this is used).
pub closed spec fn entries_view<T>(s: Seq<(String, T)>) -> Map<Seq<char>, T> {
    Map::new(
        |k: Seq<char>| exists|i: int| 0 <= i < s.len() && s[i].0@ == k,
        |k: Seq<char>| s[choose|i: int| 0 <= i < s.len() && s[i].0@ == k].1,
    )
}

/// No key occurs twice.
pub closed spec fn keys_unique<T>(s: Seq<(String, T)>) -> bool {
    forall|i: int, j: int|
        0 <= i < s.len() && 0 <= j < s.len() && s[i].0@ == s[j].0@ ==> i == j
}

proof fn lemma_entry_in_view<T>(s: Seq<(String, T)>, i: int)
    requires
        keys_unique(s),
        0 <= i < s.len(),
    ensures
        entries_view(s).contains_key(s[i].0@),
        entries_view(s)[s[i].0@] == s[i].1,
{
    let k = s[i].0@;
    assert(0 <= i < s.len() && s[i].0@ == k);
    let j = choose|j: int| 0 <= j < s.len() && s[j].0@ == k;
    assert(j == i);
}

/// `m` without the keys whose value is `v`.
pub open spec fn without_value<T>(m: Map<Seq<char>, T>, v: T) -> Map<Seq<char>, T> {
    Map::new(|k: Seq<char>| m.contains_key(k) && m[k] != v, |k: Seq<char>| m[k])
}

/// A small map from text keys to copyable values, stored as a list of entries
/// in which each key occurs at most once.
pub struct TagMap<T> {
    entries: Vec<(String, T)>,
}

impl<T> View for TagMap<T> {
    type V = Map<Seq<char>, T>;

    closed spec fn view(&self) -> Map<Seq<char>, T> {
        entries_view(self.entries@)
    }
}

impl<T: Copy> TagMap<T> {
    /// Every key is stored once.
    pub closed spec fn wf(&self) -> bool {
        keys_unique(self.entries@)
    }

    pub fn new() -> (r: Self)
        ensures
            r.wf(),
            r@ == Map::<Seq<char>, T>::empty(),
    {
        let r = TagMap { entries: Vec::new() };
        assert(r@ =~= Map::<Seq<char>, T>::empty());
        r
    }

    /// The entries, each key once, for handing the map to code outside the library.
    pub fn as_vec(&self) -> (r: &Vec<(String, T)>)
        requires
            self.wf(),
        ensures
            keys_unique(r@),
            entries_view(r@) == self@,
    {
        &self.entries
    }

    fn find(&self, key: &String) -> (r: Option<usize>)
        requires
            self.wf(),
        ensures
            match r {
                Some(i) => i < self.entries@.len() && self.entries@[i as int].0@ == key@,
                None => !self@.contains_key(key@),
            },
    {
        let mut i: usize = 0;
        while i < self.entries.len()
            invariant
                i <= self.entries@.len(),
                forall|j: int| 0 <= j < i ==> self.entries@[j].0@ != key@,
            decreases self.entries@.len() - i,
        {
            if self.entries[i].0 == *key {
                return Some(i);
            }
            i = i + 1;
        }
        None
    }

    /// The value stored under `key`, if any.
    pub fn get(&self, key: &str) -> (r: Option<T>)
        requires
            self.wf(),
        ensures
            r == (if self@.contains_key(key@) {
                Some(self@[key@])
            } else {
                None::<T>
            }),
    {
        let k = key.to_owned();
        match self.find(&k) {
            Some(i) => {
                proof {
                    lemma_entry_in_view(self.entries@, i as int);
                }
                Some(self.entries[i].1)
            },
            None => None,
        }
    }

    /// Stores `value` under `key`, replacing what was there.
    pub fn insert(&mut self, key: &str, value: T)
        requires
            old(self).wf(),
        ensures
            final(self).wf(),
            final(self)@ == old(self)@.insert(key@, value),
    {
        let k = key.to_owned();
        let ghost s0 = self.entries@;
        match self.find(&k) {
            Some(i) => {
                self.entries.set(i, (k, value));
                let ghost s1 = self.entries@;
                assert(keys_unique(s1));
                assert forall|q: Seq<char>|
                    #![auto]
                    entries_view(s1).contains_key(q) == entries_view(s0).insert(key@, value).contains_key(q) by {
                    if entries_view(s0).contains_key(q) {
                        let j = choose|j: int| 0 <= j < s0.len() && s0[j].0@ == q;
                        assert(s1[j].0@ == q);
                    }
                    if entries_view(s1).contains_key(q) {
                        let j = choose|j: int| 0 <= j < s1.len() && s1[j].0@ == q;
                        assert(s0[j].0@ == q);
                    }
                }
                assert forall|q: Seq<char>| #[trigger] entries_view(s1).contains_key(q) implies
                    entries_view(s1)[q] == entries_view(s0).insert(key@, value)[q] by {
                    let j = choose|j: int| 0 <= j < s1.len() && s1[j].0@ == q;
                    lemma_entry_in_view(s1, j);
                    if j != i as int {
                        lemma_entry_in_view(s0, j);
                    }
                }
                assert(entries_view(s1) =~= entries_view(s0).insert(key@, value));
            },
            None => {
                self.entries.push((k, value));
                let ghost s1 = self.entries@;
                assert(keys_unique(s1));
                assert forall|q: Seq<char>|
                    #![auto]
                    entries_view(s1).contains_key(q) == entries_view(s0).insert(key@, value).contains_key(q) by {
                    if entries_view(s0).contains_key(q) {
                        let j = choose|j: int| 0 <= j < s0.len() && s0[j].0@ == q;
                        assert(s1[j].0@ == q);
                    }
                    if q == key@ {
                        assert(s1[s0.len() as int].0@ == q);
                    }
                }
                assert forall|q: Seq<char>| #[trigger] entries_view(s1).contains_key(q) implies
                    entries_view(s1)[q] == entries_view(s0).insert(key@, value)[q] by {
                    let j = choose|j: int| 0 <= j < s1.len() && s1[j].0@ == q;
                    lemma_entry_in_view(s1, j);
                    if j < s0.len() {
                        lemma_entry_in_view(s0, j);
                    }
                }
                assert(entries_view(s1) =~= entries_view(s0).insert(key@, value));
            },
        }
    }
}

impl TagMap<u32> {
    /// Removes every entry whose value is `value`; the others stay as they were.
    pub fn remove_value(&mut self, value: u32)
        requires
            old(self).wf(),
        ensures
            final(self).wf(),
            final(self)@ == without_value(old(self)@, value),
    {
        let ghost s0 = self.entries@;
        let mut kept: Vec<(String, u32)> = Vec::new();
        let mut i: usize = 0;
        while i < self.entries.len()
            invariant
                self.entries@ == s0,
                keys_unique(s0),
                i <= s0.len(),
                keys_unique(kept@),
                forall|j: int|
                    0 <= j < kept@.len() ==> (#[trigger] kept@[j]).1 != value && exists|p: int|
                        0 <= p < i && s0[p] == kept@[j],
                forall|p: int|
                    0 <= p < i && (#[trigger] s0[p]).1 != value ==> exists|j: int|
                        0 <= j < kept@.len() && kept@[j] == s0[p],
            decreases s0.len() - i,
        {
            if self.entries[i].1 != value {
                let e = (self.entries[i].0.clone(), self.entries[i].1);
                assert(e == s0[i as int]);
                let ghost k0 = kept@;
                kept.push(e);
                assert forall|a: int, b: int|
                    0 <= a < kept@.len() && 0 <= b < kept@.len() && kept@[a].0@ == kept@[b].0@ implies a
                    == b by {
                    if a < k0.len() && b == k0.len() {
                        assert(k0[a].1 != value);
                        let p = choose|p: int| 0 <= p < i && s0[p] == k0[a];
                        assert(s0[p].0@ == s0[i as int].0@);
                    }
                    if b < k0.len() && a == k0.len() {
                        assert(k0[b].1 != value);
                        let p = choose|p: int| 0 <= p < i && s0[p] == k0[b];
                        assert(s0[p].0@ == s0[i as int].0@);
                    }
                }
                assert forall|j: int| 0 <= j < kept@.len() implies (#[trigger] kept@[j]).1 != value
                    && exists|p: int| 0 <= p < i + 1 && s0[p] == kept@[j] by {
                    if j < k0.len() {
                        assert(kept@[j] == k0[j]);
                        let p = choose|p: int| 0 <= p < i && s0[p] == k0[j];
                        assert(0 <= p < i + 1 && s0[p] == kept@[j]);
                    } else {
                        assert(s0[i as int] == kept@[j]);
                    }
                }
                assert forall|p: int| 0 <= p < i + 1 && (#[trigger] s0[p]).1 != value implies exists|
                    j: int,
                | 0 <= j < kept@.len() && kept@[j] == s0[p] by {
                    if p < i {
                        let j = choose|j: int| 0 <= j < k0.len() && k0[j] == s0[p];
                        assert(kept@[j] == k0[j]);
                    } else {
                        assert(kept@[k0.len() as int] == s0[p]);
                    }
                }
            }
            i = i + 1;
        }
        self.entries = kept;
        let ghost s1 = kept@;
        let ghost target = without_value(entries_view(s0), value);
        assert forall|q: Seq<char>| #![auto] entries_view(s1).contains_key(q) == target.contains_key(q) by {
            if entries_view(s1).contains_key(q) {
                let j = choose|j: int| 0 <= j < s1.len() && s1[j].0@ == q;
                assert(s1[j].1 != value);
                let p = choose|p: int| 0 <= p < s0.len() && s0[p] == s1[j];
                lemma_entry_in_view(s0, p);
            }
            if target.contains_key(q) {
                let p = choose|p: int| 0 <= p < s0.len() && s0[p].0@ == q;
                lemma_entry_in_view(s0, p);
                assert(s0[p].1 != value);
                let j = choose|j: int| 0 <= j < s1.len() && s1[j] == s0[p];
                assert(s1[j].0@ == q);
            }
        }
        assert forall|q: Seq<char>| #[trigger] entries_view(s1).contains_key(q) implies entries_view(
            s1,
        )[q] == target[q] by {
            let j = choose|j: int| 0 <= j < s1.len() && s1[j].0@ == q;
            lemma_entry_in_view(s1, j);
            assert(s1[j].1 != value);
            let p = choose|p: int| 0 <= p < s0.len() && s0[p] == s1[j];
            lemma_entry_in_view(s0, p);
        }
        assert(entries_view(s1) =~= target);
    }
}

} // verus!
