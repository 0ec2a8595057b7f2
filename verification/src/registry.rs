//! A small map from names to values, kept in insertion order.
use vstd::prelude::*;
use crate::json::str_equal;

verus! {

/// The value of the first entry named `key`.
pub open spec fn entry_lookup<T>(entries: Seq<(String, T)>, key: Seq<char>) -> Option<T>
    decreases entries.len(),
{
    if entries.len() == 0 {
        None
    } else if entries[0].0@ == key {
        Some(entries[0].1)
    } else {
        entry_lookup(entries.drop_first(), key)
    }
}

proof fn lemma_lookup_found<T>(entries: Seq<(String, T)>, key: Seq<char>, i: int)
    requires
        0 <= i < entries.len(),
        entries[i].0@ == key,
        forall|j: int| 0 <= j < i ==> #[trigger] entries[j].0@ != key,
    ensures
        entry_lookup(entries, key) == Some(entries[i].1),
    decreases i,
{
    if i > 0 {
        lemma_lookup_found(entries.drop_first(), key, i - 1);
    }
}

proof fn lemma_lookup_absent<T>(entries: Seq<(String, T)>, key: Seq<char>)
    requires
        forall|j: int| 0 <= j < entries.len() ==> #[trigger] entries[j].0@ != key,
    ensures
        entry_lookup(entries, key) is None,
    decreases entries.len(),
{
    if entries.len() > 0 {
        lemma_lookup_absent(entries.drop_first(), key);
    }
}

proof fn lemma_lookup_push<T>(entries: Seq<(String, T)>, name: String, v: T, key: Seq<char>)
    ensures
        entry_lookup(entries.push((name, v)), key) == match entry_lookup(entries, key) {
            Some(x) => Some(x),
            None => if name@ == key { Some(v) } else { None },
        },
    decreases entries.len(),
{
    if entries.len() > 0 {
        assert(entries.push((name, v))[0] == entries[0]);
        assert(entries.push((name, v)).drop_first() =~= entries.drop_first().push((name, v)));
        lemma_lookup_push(entries.drop_first(), name, v, key);
    } else {
        let pushed = entries.push((name, v));
        assert(pushed[0] == (name, v));
        assert(pushed.drop_first() =~= Seq::<(String, T)>::empty());
        assert(entry_lookup(pushed.drop_first(), key) is None);
    }
}

proof fn lemma_lookup_update<T>(entries: Seq<(String, T)>, i: int, v: T, key: Seq<char>)
    requires
        0 <= i < entries.len(),
        forall|j: int| 0 <= j < i ==> #[trigger] entries[j].0@ != entries[i].0@,
    ensures
        entry_lookup(entries.update(i, (entries[i].0, v)), key) == if key == entries[i].0@ {
            Some(v)
        } else {
            entry_lookup(entries, key)
        },
    decreases i,
{
    if i > 0 {
        assert(entries.update(i, (entries[i].0, v))[0] == entries[0]);
        assert(entries.update(i, (entries[i].0, v)).drop_first() =~= entries.drop_first().update(i - 1, (entries[i].0, v)));
        lemma_lookup_update(entries.drop_first(), i - 1, v, key);
    } else {
        assert(entries.update(0, (entries[0].0, v)).drop_first() =~= entries.drop_first());
    }
}

/// Names mapped to values; looking a name up gives the value it was last
/// inserted with.
#[derive(Debug)]
pub struct Registry<T> {
    entries: Vec<(String, T)>,
}

impl<T: Copy> Registry<T> {
    /// The value registered under `key`, if any.
    pub closed spec fn lookup(self, key: Seq<char>) -> Option<T> {
        entry_lookup(self.entries@, key)
    }

    pub fn new() -> (r: Registry<T>)
        ensures
            forall|k: Seq<char>| #[trigger] r.lookup(k) is None,
    {
        Registry { entries: Vec::new() }
    }

    /// Registers `value` under `name`, replacing what was registered there.
    pub fn insert(&mut self, name: String, value: T)
        ensures
            forall|k: Seq<char>| #[trigger] final(self).lookup(k) == if k == name@ {
                Some(value)
            } else {
                old(self).lookup(k)
            },
    {
        let mut i: usize = 0;
        while i < self.entries.len()
            invariant
                self.entries@ == old(self).entries@,
                i <= self.entries@.len(),
                forall|j: int| 0 <= j < i ==> #[trigger] self.entries@[j].0@ != name@,
            decreases self.entries@.len() - i,
        {
            if str_equal(self.entries[i].0.as_str(), name.as_str()) {
                let ghost before = self.entries@;
                let key = self.entries[i].0.clone();
                self.entries.set(i, (key, value));
                proof {
                    assert(self.entries@ =~= before.update(i as int, (before[i as int].0, value)));
                    assert forall|k: Seq<char>| #[trigger] entry_lookup(self.entries@, k) == if k == name@ {
                        Some(value)
                    } else {
                        entry_lookup(before, k)
                    } by {
                        lemma_lookup_update(before, i as int, value, k);
                    }
                }
                return;
            }
            i = i + 1;
        }
        let ghost before = self.entries@;
        self.entries.push((name, value));
        proof {
            assert forall|k: Seq<char>| #[trigger] entry_lookup(self.entries@, k) == if k == name@ {
                Some(value)
            } else {
                entry_lookup(before, k)
            } by {
                lemma_lookup_push(before, name, value, k);
                if k == name@ {
                    lemma_lookup_absent(before, k);
                }
            }
        }
    }

    /// The value registered under `name`, if any.
    pub fn get(&self, name: &str) -> (r: Option<T>)
        ensures
            r == self.lookup(name@),
    {
        let mut i: usize = 0;
        while i < self.entries.len()
            invariant
                i <= self.entries@.len(),
                forall|j: int| 0 <= j < i ==> #[trigger] self.entries@[j].0@ != name@,
            decreases self.entries@.len() - i,
        {
            if str_equal(self.entries[i].0.as_str(), name) {
                proof {
                    lemma_lookup_found(self.entries@, name@, i as int);
                }
                return Some(self.entries[i].1);
            }
            i = i + 1;
        }
        proof {
            lemma_lookup_absent(self.entries@, name@);
        }
        None
    }
}

} // verus!
