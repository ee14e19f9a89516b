//! The shared key-value scratchpad: string keys mapped to dynamically
//! shaped values. Keys are unique, a put overwrites (last write wins), and
//! no entry is ever removed. The store is modelled as a mathematical map
//! from key characters to values.

use vstd::prelude::*;

use crate::value::Value;

verus! {

/// The state store: an entry list with pairwise distinct keys, viewed as a
/// map from key characters to values.
pub struct StateStore {
    entries: Vec<(String, Value)>,
}

impl View for StateStore {
    type V = Map<Seq<char>, Value>;

    closed spec fn view(&self) -> Map<Seq<char>, Value> {
        Map::new(
            |k: Seq<char>| StateStore::spec_lookup(self.entries@, k) is Some,
            |k: Seq<char>| StateStore::spec_lookup(self.entries@, k).unwrap(),
        )
    }
}

impl StateStore {
    /// The value the entry list associates with a key, later entries
    /// winning; `None` when no entry has the key.
    pub closed spec fn spec_lookup(s: Seq<(String, Value)>, k: Seq<char>) -> Option<Value>
        decreases s.len(),
    {
        if s.len() == 0 {
            None
        } else if s.last().0@ == k {
            Some(s.last().1)
        } else {
            Self::spec_lookup(s.drop_last(), k)
        }
    }

    /// Well-formed: no two entries share a key.
    pub closed spec fn wf(&self) -> bool {
        forall|i: int, j: int|
            0 <= i < j < self.entries@.len() ==> self.entries@[i].0@ != self.entries@[j].0@
    }

    proof fn lemma_lookup_none(s: Seq<(String, Value)>, k: Seq<char>)
        requires
            forall|j: int| 0 <= j < s.len() ==> s[j].0@ != k,
        ensures
            Self::spec_lookup(s, k) is None,
        decreases s.len(),
    {
        if s.len() > 0 {
            Self::lemma_lookup_none(s.drop_last(), k);
        }
    }

    proof fn lemma_lookup_at_index(s: Seq<(String, Value)>, k: Seq<char>, i: int)
        requires
            0 <= i < s.len(),
            s[i].0@ == k,
            forall|j: int| 0 <= j < s.len() && j != i ==> s[j].0@ != k,
        ensures
            Self::spec_lookup(s, k) == Some(s[i].1),
        decreases s.len(),
    {
        if i == s.len() - 1 {
        } else {
            Self::lemma_lookup_at_index(s.drop_last(), k, i);
        }
    }

    proof fn lemma_lookup_update_other(
        s: Seq<(String, Value)>,
        i: int,
        p: (String, Value),
        k: Seq<char>,
    )
        requires
            0 <= i < s.len(),
            k != p.0@,
            k != s[i].0@,
        ensures
            Self::spec_lookup(s.update(i, p), k) == Self::spec_lookup(s, k),
        decreases s.len(),
    {
        let s2 = s.update(i, p);
        if i == s.len() - 1 {
            assert(s2.last() == p);
            assert(s2.drop_last() =~= s.drop_last());
        } else {
            assert(s2.last() == s.last());
            assert(s2.drop_last() =~= s.drop_last().update(i, p));
            Self::lemma_lookup_update_other(s.drop_last(), i, p, k);
        }
    }

    /// A new store is empty.
    pub fn new() -> (r: StateStore)
        ensures
            r.wf(),
            r@ == Map::<Seq<char>, Value>::empty(),
    {
        let r = StateStore { entries: Vec::new() };
        proof {
            assert forall|k: Seq<char>| Self::spec_lookup(r.entries@, k) is None by {
                Self::lemma_lookup_none(r.entries@, k);
            }
            assert(r@ =~= Map::<Seq<char>, Value>::empty());
        }
        r
    }

    /// Look a key up: a reference to the stored value, or `None` when the
    /// key was never written.
    pub fn get<'a>(&'a self, key: &str) -> (r: Option<&'a Value>)
        requires
            self.wf(),
        ensures
            match r {
                Some(v) => self@.contains_key(key@) && *v == self@[key@],
                None => !self@.contains_key(key@),
            },
    {
        let k: String = key.to_owned();
        let n = self.entries.len();
        let mut i: usize = 0;
        while i < n
            invariant
                n == self.entries@.len(),
                0 <= i <= n,
                k@ == key@,
                self.wf(),
                forall|j: int| 0 <= j < i ==> self.entries@[j].0@ != key@,
            decreases n - i,
        {
            if self.entries[i].0 == k {
                proof {
                    Self::lemma_lookup_at_index(self.entries@, key@, i as int);
                }
                return Some(&self.entries[i].1);
            }
            i += 1;
        }
        proof {
            Self::lemma_lookup_none(self.entries@, key@);
        }
        None
    }

    /// Insert or overwrite the entry for a key: the store afterwards maps
    /// the key to the value and every other key as before.
    pub fn put(&mut self, key: &str, value: Value)
        requires
            old(self).wf(),
        ensures
            final(self).wf(),
            final(self)@ == old(self)@.insert(key@, value),
    {
        let ghost s0 = self.entries@;
        let k: String = key.to_owned();
        let n = self.entries.len();
        let mut i: usize = 0;
        while i < n
            invariant
                self.entries@ == s0,
                s0 == old(self).entries@,
                n == s0.len(),
                0 <= i <= n,
                k@ == key@,
                old(self).wf(),
                self.wf(),
                forall|j: int| 0 <= j < i ==> s0[j].0@ != key@,
            decreases n - i,
        {
            if self.entries[i].0 == k {
                let entry = &mut self.entries[i];
                entry.1 = value;
                proof {
                    let s1 = self.entries@;
                    assert(s1 =~= s0.update(i as int, s1[i as int]));
                    assert(s1[i as int].0@ == key@);
                    assert forall|a: int, b: int|
                        0 <= a < b < s1.len() implies s1[a].0@ != s1[b].0@ by {
                        assert(s1[a].0@ == s0[a].0@ && s1[b].0@ == s0[b].0@);
                    }
                    assert(forall|j: int| 0 <= j < s1.len() && j != i ==> s1[j].0@ == s0[j].0@);
                    Self::lemma_lookup_at_index(s1, key@, i as int);
                    assert(Self::spec_lookup(s1, key@) == Some(value));
                    assert forall|kk: Seq<char>| kk != key@ implies Self::spec_lookup(s1, kk)
                        == Self::spec_lookup(s0, kk) by {
                        Self::lemma_lookup_update_other(s0, i as int, s1[i as int], kk);
                    }
                    let m1 = self@;
                    let m2 = old(self)@.insert(key@, value);
                    assert forall|kk: Seq<char>| m1.dom().contains(kk)
                        == m2.dom().contains(kk) by {
                        assert(m1.dom().contains(kk) == (Self::spec_lookup(s1, kk) is Some));
                        assert(old(self)@.dom().contains(kk) == (Self::spec_lookup(s0, kk)
                            is Some));
                    }
                    assert forall|kk: Seq<char>| m1.dom().contains(kk) implies m1[kk]
                        == m2[kk] by {
                        assert(m1[kk] == Self::spec_lookup(s1, kk).unwrap());
                        if kk != key@ {
                            assert(m2[kk] == old(self)@[kk]);
                            assert(old(self)@[kk] == Self::spec_lookup(s0, kk).unwrap());
                        }
                    }
                    assert(m1 =~= m2);
                }
                return ;
            }
            i += 1;
        }
        self.entries.push((k, value));
        proof {
            let s1 = self.entries@;
            assert(s1.last() == (k, value));
            assert(s1.drop_last() =~= s0);
            assert forall|a: int, b: int| 0 <= a < b < s1.len() implies s1[a].0@ != s1[b].0@ by {
                if b == s1.len() - 1 {
                    assert(s1[a].0@ == s0[a].0@);
                } else {
                    assert(s1[a].0@ == s0[a].0@ && s1[b].0@ == s0[b].0@);
                }
            }
            assert(Self::spec_lookup(s1, key@) == Some(value));
            assert(forall|kk: Seq<char>| kk != key@ ==> Self::spec_lookup(s1, kk)
                == Self::spec_lookup(s0, kk));
            let m1 = self@;
            let m2 = old(self)@.insert(key@, value);
            assert forall|kk: Seq<char>| m1.dom().contains(kk) == m2.dom().contains(kk) by {
                assert(m1.dom().contains(kk) == (Self::spec_lookup(s1, kk) is Some));
                assert(old(self)@.dom().contains(kk) == (Self::spec_lookup(s0, kk) is Some));
            }
            assert forall|kk: Seq<char>| m1.dom().contains(kk) implies m1[kk] == m2[kk] by {
                assert(m1[kk] == Self::spec_lookup(s1, kk).unwrap());
                if kk != key@ {
                    assert(m2[kk] == old(self)@[kk]);
                    assert(old(self)@[kk] == Self::spec_lookup(s0, kk).unwrap());
                }
            }
            assert(m1 =~= m2);
        }
    }
}

} // verus!
