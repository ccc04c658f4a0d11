//! A small string-keyed map with a `Map` view: the store behind the API-key
//! table, the draft fields keyed by backend id and the speaker rename
//! drafts.

use vstd::prelude::*;

use crate::labels::str_eq;

verus! {

/// The map an entry list stands for: later entries win, though a
/// well-formed list never repeats a key.
pub open spec fn entries_map(e: Seq<(String, String)>) -> Map<Seq<char>, Seq<char>>
    decreases e.len(),
{
    if e.len() == 0 {
        Map::empty()
    } else {
        entries_map(e.drop_last()).insert(e.last().0@, e.last().1@)
    }
}

/// No key occurs twice.
pub open spec fn unique_keys(e: Seq<(String, String)>) -> bool {
    forall|i: int, j: int| 0 <= i < j < e.len() ==> (#[trigger] e[i]).0@ != (#[trigger] e[j]).0@
}

/// A map from strings to strings, in insertion order.
#[derive(Debug)]
pub struct StringMap {
    entries: Vec<(String, String)>,
}

proof fn lemma_entries_map_dom(e: Seq<(String, String)>, k: Seq<char>)
    ensures
        entries_map(e).contains_key(k) <==> exists|i: int| 0 <= i < e.len() && (#[trigger] e[i]).0@
            == k,
    decreases e.len(),
{
    if e.len() > 0 {
        lemma_entries_map_dom(e.drop_last(), k);
        if entries_map(e.drop_last()).contains_key(k) {
            let i = choose|i: int|
                0 <= i < e.drop_last().len() && (#[trigger] e.drop_last()[i]).0@ == k;
            assert(e[i] == e.drop_last()[i]);
        }
        if exists|i: int| 0 <= i < e.len() && (#[trigger] e[i]).0@ == k {
            let i = choose|i: int| 0 <= i < e.len() && (#[trigger] e[i]).0@ == k;
            if i < e.len() - 1 {
                assert(e.drop_last()[i] == e[i]);
            }
        }
    }
}

proof fn lemma_entries_map_at(e: Seq<(String, String)>, i: int)
    requires
        unique_keys(e),
        0 <= i < e.len(),
    ensures
        entries_map(e).contains_key(e[i].0@),
        entries_map(e)[e[i].0@] == e[i].1@,
    decreases e.len(),
{
    if i < e.len() - 1 {
        let d = e.drop_last();
        assert(unique_keys(d)) by {
            assert forall|a: int, b: int| 0 <= a < b < d.len() implies (#[trigger] d[a]).0@ != (
            #[trigger] d[b]).0@ by {
                assert(d[a] == e[a] && d[b] == e[b]);
            }
        }
        assert(d[i] == e[i]);
        lemma_entries_map_at(d, i);
        assert(e[i].0@ != e[e.len() - 1].0@);
    }
}

impl View for StringMap {
    type V = Map<Seq<char>, Seq<char>>;

    closed spec fn view(&self) -> Map<Seq<char>, Seq<char>> {
        entries_map(self.entries@)
    }
}

impl StringMap {
    /// The map is well formed: no key occurs twice.
    pub closed spec fn wf(&self) -> bool {
        unique_keys(self.entries@)
    }

    /// An empty map.
    pub fn new() -> (m: Self)
        ensures
            m.wf(),
            m@ == Map::<Seq<char>, Seq<char>>::empty(),
    {
        StringMap { entries: Vec::new() }
    }

    fn find(&self, key: &str) -> (r: Option<usize>)
        requires
            self.wf(),
        ensures
            match r {
                Some(i) => i < self.entries@.len() && self.entries@[i as int].0@ == key@,
                None => !self@.contains_key(key@),
            },
    {
        let mut i: usize = 0;
        while i < self.entries.len()
            invariant
                i <= self.entries.len(),
                forall|j: int| 0 <= j < i ==> (#[trigger] self.entries@[j]).0@ != key@,
            decreases self.entries.len() - i,
        {
            if str_eq(self.entries[i].0.as_str(), key) {
                return Some(i);
            }
            i += 1;
        }
        proof {
            lemma_entries_map_dom(self.entries@, key@);
        }
        None
    }

    /// The value stored under `key`, if any.
    pub fn get(&self, key: &str) -> (v: Option<&String>)
        requires
            self.wf(),
        ensures
            match v {
                Some(s) => self@.contains_key(key@) && self@[key@] == s@,
                None => !self@.contains_key(key@),
            },
    {
        match self.find(key) {
            Some(i) => {
                proof {
                    lemma_entries_map_at(self.entries@, i as int);
                }
                Some(&self.entries[i].1)
            },
            None => None,
        }
    }

    /// Whether `key` has a value.
    pub fn contains_key(&self, key: &str) -> (b: bool)
        requires
            self.wf(),
        ensures
            b == self@.contains_key(key@),
    {
        match self.get(key) {
            Some(_) => true,
            None => false,
        }
    }

    /// Stores `value` under `key`, replacing any previous value.
    pub fn insert(&mut self, key: &str, value: String)
        requires
            old(self).wf(),
        ensures
            final(self).wf(),
            final(self)@ == old(self)@.insert(key@, value@),
    {
        match self.find(key) {
            Some(i) => {
                let ghost before = self.entries@;
                let k = self.entries[i].0.clone();
                self.entries.set(i, (k, value));
                proof {
                    let after = self.entries@;
                    assert(unique_keys(after)) by {
                        assert forall|a: int, b: int| 0 <= a < b < after.len() implies (
                        #[trigger] after[a]).0@ != (#[trigger] after[b]).0@ by {
                            assert(after[a].0@ == before[a].0@);
                            assert(after[b].0@ == before[b].0@);
                        }
                    }
                    assert forall|x: Seq<char>| #[trigger]
                        entries_map(after).contains_key(x) == entries_map(before).insert(
                            key@,
                            value@,
                        ).contains_key(x) by {
                        lemma_entries_map_dom(after, x);
                        lemma_entries_map_dom(before, x);
                        if exists|j: int| 0 <= j < before.len() && (#[trigger] before[j]).0@ == x {
                            let j = choose|j: int|
                                0 <= j < before.len() && (#[trigger] before[j]).0@ == x;
                            assert(after[j].0@ == x);
                        }
                        if exists|j: int| 0 <= j < after.len() && (#[trigger] after[j]).0@ == x {
                            let j = choose|j: int|
                                0 <= j < after.len() && (#[trigger] after[j]).0@ == x;
                            assert(before[j].0@ == x);
                        }
                        if x == key@ {
                            assert(after[i as int].0@ == x);
                        }
                    }
                    assert forall|x: Seq<char>| #[trigger]
                        entries_map(after).contains_key(x) implies entries_map(after)[x]
                        == entries_map(before).insert(key@, value@)[x] by {
                        lemma_entries_map_dom(after, x);
                        let j = choose|j: int| 0 <= j < after.len() && (#[trigger] after[j]).0@ == x;
                        lemma_entries_map_at(after, j);
                        if j != i {
                            lemma_entries_map_at(before, j);
                            assert(before[j] == after[j]);
                        }
                    }
                    assert(entries_map(after) =~= entries_map(before).insert(key@, value@));
                }
            },
            None => {
                let ghost before = self.entries@;
                self.entries.push((String::from_str(key), value));
                proof {
                    let after = self.entries@;
                    assert(after.drop_last() =~= before);
                    assert(unique_keys(after)) by {
                        assert forall|a: int, b: int| 0 <= a < b < after.len() implies (
                        #[trigger] after[a]).0@ != (#[trigger] after[b]).0@ by {
                            if b == after.len() - 1 {
                                lemma_entries_map_dom(before, key@);
                                assert(before[a] == after[a]);
                            } else {
                                assert(before[a] == after[a] && before[b] == after[b]);
                            }
                        }
                    }
                }
            },
        }
    }

    /// Removes `key` and its value, if present.
    pub fn remove(&mut self, key: &str)
        requires
            old(self).wf(),
        ensures
            final(self).wf(),
            final(self)@ == old(self)@.remove(key@),
    {
        let ghost before = self.entries@;
        let mut kept: Vec<(String, String)> = Vec::new();
        let mut i: usize = 0;
        while i < self.entries.len()
            invariant
                before == self.entries@,
                unique_keys(before),
                i <= self.entries.len(),
                unique_keys(kept@),
                entries_map(kept@) == entries_map(before.take(i as int)).remove(key@),
                forall|a: int| 0 <= a < kept@.len() ==> exists|b: int| 0 <= b < i && (#[trigger] kept@[a]).0@ == (#[trigger] before[b]).0@,
            decreases self.entries.len() - i,
        {
            let ghost old_kept = kept@;
            proof {
                assert(before.take(i + 1).drop_last() =~= before.take(i as int));
            }
            if !str_eq(self.entries[i].0.as_str(), key) {
                let e = (self.entries[i].0.clone(), self.entries[i].1.clone());
                kept.push(e);
                proof {
                    assert(kept@.drop_last() =~= old_kept);
                    assert(unique_keys(kept@)) by {
                        assert forall|a: int, b: int| 0 <= a < b < kept@.len() implies (
                        #[trigger] kept@[a]).0@ != (#[trigger] kept@[b]).0@ by {
                            if b == kept@.len() - 1 {
                                let c = choose|c: int| 0 <= c < i && (#[trigger] old_kept[a]).0@ == (#[trigger] before[c]).0@;
                                assert(old_kept[a] == kept@[a]);
                            } else {
                                assert(old_kept[a] == kept@[a] && old_kept[b] == kept@[b]);
                            }
                        }
                    }
                    assert(entries_map(kept@) =~= entries_map(before.take(i + 1)).remove(key@));
                    assert forall|a: int| 0 <= a < kept@.len() implies exists|b: int| 0 <= b < i + 1 && (#[trigger] kept@[a]).0@ == (#[trigger] before[b]).0@ by {
                        if a == kept@.len() - 1 {
                            assert(kept@[a].0@ == before[i as int].0@);
                        } else {
                            assert(kept@[a] == old_kept[a]);
                            let c = choose|c: int| 0 <= c < i && (#[trigger] old_kept[a]).0@ == (#[trigger] before[c]).0@;
                        }
                    }
                }
            } else {
                proof {
                    assert(entries_map(kept@) =~= entries_map(before.take(i + 1)).remove(key@));
                }
            }
            i += 1;
        }
        proof {
            assert(before.take(before.len() as int) =~= before);
        }
        self.entries = kept;
    }
}

/// What a map gives back for a key is what was last stored under it, and
/// storing leaves every other key alone.
pub proof fn a_read_gives_back_the_last_write(
    m: Map<Seq<char>, Seq<char>>,
    key: Seq<char>,
    value: Seq<char>,
    other: Seq<char>,
)
    requires
        other != key,
    ensures
        m.insert(key, value)[key] == value,
        m.insert(key, value).contains_key(other) == m.contains_key(other),
        m.insert(key, value)[other] == m[other],
        !m.remove(key).contains_key(key),
{
}

} // verus!
