//! Values by name.

use vstd::prelude::*;

use crate::text::str_eq;

verus! {

/// Values by name. A name stands once.
pub struct NameMap<V> {
    pub entries: Vec<(String, V)>,
}

/// The value that goes with a name.
pub open spec fn entry_value<V>(entries: Seq<(String, V)>, name: Seq<char>) -> Option<V>
    decreases entries.len(),
{
    if entries.len() == 0 {
        None
    } else if entries.last().0@ == name {
        Some(entries.last().1)
    } else {
        entry_value(entries.drop_last(), name)
    }
}

/// No name stands twice.
pub open spec fn names_are_distinct<V>(entries: Seq<(String, V)>) -> bool {
    forall|i: int, j: int|
        0 <= i < j < entries.len() ==> (#[trigger] entries[i]).0@ != (#[trigger] entries[j]).0@
}

pub proof fn lemma_entry_value<V>(entries: Seq<(String, V)>, name: Seq<char>, i: int)
    requires
        0 <= i < entries.len(),
        entries[i].0@ == name,
        forall|k: int| i < k < entries.len() ==> (#[trigger] entries[k]).0@ != name,
    ensures
        entry_value(entries, name) == Some(entries[i].1),
    decreases entries.len(),
{
    if i < entries.len() - 1 {
        assert(entries.last() == entries[entries.len() - 1]);
        lemma_entry_value(entries.drop_last(), name, i);
    }
}

pub proof fn lemma_no_entry<V>(entries: Seq<(String, V)>, name: Seq<char>)
    requires
        forall|k: int| 0 <= k < entries.len() ==> (#[trigger] entries[k]).0@ != name,
    ensures
        entry_value(entries, name) is None,
    decreases entries.len(),
{
    if entries.len() > 0 {
        assert(entries.last() == entries[entries.len() - 1]);
        lemma_no_entry(entries.drop_last(), name);
    }
}

/// Replacing the value of one name leaves the others alone.
proof fn lemma_other_entries<V>(
    before: Seq<(String, V)>,
    after: Seq<(String, V)>,
    i: int,
    other: Seq<char>,
)
    requires
        before.len() == after.len(),
        0 <= i < before.len(),
        before[i].0@ == after[i].0@,
        before[i].0@ != other,
        forall|k: int| 0 <= k < before.len() && k != i ==> before[k] == after[k],
    ensures
        entry_value(before, other) == entry_value(after, other),
    decreases before.len(),
{
    if i < before.len() - 1 {
        lemma_other_entries(before.drop_last(), after.drop_last(), i, other);
    } else {
        assert(before.drop_last() =~= after.drop_last());
    }
}

impl<V> NameMap<V> {
    pub open spec fn wf(self) -> bool {
        names_are_distinct(self.entries@)
    }

    pub open spec fn value(self, name: Seq<char>) -> Option<V> {
        entry_value(self.entries@, name)
    }

    pub fn new() -> (map: NameMap<V>)
        ensures
            map.wf(),
            map.entries@.len() == 0,
            forall|name: Seq<char>| #[trigger] map.value(name) is None,
    {
        NameMap { entries: Vec::new() }
    }

    pub fn len(&self) -> (count: usize)
        ensures
            count == self.entries@.len(),
    {
        self.entries.len()
    }

    fn place(&self, name: &str) -> (place: Option<usize>)
        ensures
            match place {
                Some(i) => i < self.entries@.len() && self.entries@[i as int].0@ == name@,
                None => forall|k: int|
                    0 <= k < self.entries@.len() ==> (#[trigger] self.entries@[k]).0@ != name@,
            },
    {
        let mut i: usize = 0;
        while i < self.entries.len()
            invariant
                i <= self.entries@.len(),
                forall|k: int| 0 <= k < i ==> (#[trigger] self.entries@[k]).0@ != name@,
            decreases self.entries.len() - i,
        {
            if str_eq(self.entries[i].0.as_str(), name) {
                return Some(i);
            }
            i += 1;
        }
        None
    }

    pub fn get(&self, name: &str) -> (value: Option<&V>)
        requires
            self.wf(),
        ensures
            match value {
                Some(value) => self.value(name@) == Some(*value),
                None => self.value(name@) is None,
            },
    {
        match self.place(name) {
            Some(i) => {
                proof {
                    lemma_entry_value(self.entries@, name@, i as int);
                }
                Some(&self.entries[i].1)
            },
            None => {
                proof {
                    lemma_no_entry(self.entries@, name@);
                }
                None
            },
        }
    }

    /// Sets the value of a name, in place of an earlier one. Tells whether there was one.
    pub fn insert(&mut self, name: String, value: V) -> (replaced: bool)
        requires
            old(self).wf(),
        ensures
            final(self).wf(),
            replaced == (old(self).value(name@) is Some),
            final(self).entries@.len() == (if replaced {
                old(self).entries@.len()
            } else {
                old(self).entries@.len() + 1
            }),
            forall|other: Seq<char>| #[trigger]
                final(self).value(other) == (if other == name@ {
                    Some(value)
                } else {
                    old(self).value(other)
                }),
    {
        let ghost before = self.entries@;
        let ghost wanted = name@;
        match self.place(name.as_str()) {
            Some(i) => {
                proof {
                    lemma_entry_value(before, wanted, i as int);
                }
                self.entries[i] = (name, value);
                proof {
                    let after = self.entries@;
                    assert(after =~= before.update(i as int, after[i as int]));
                    assert forall|other: Seq<char>| #[trigger] self.value(other) == (if other
                        == wanted {
                        Some(after[i as int].1)
                    } else {
                        entry_value(before, other)
                    }) by {
                        if other == wanted {
                            lemma_entry_value(after, other, i as int);
                        } else {
                            lemma_other_entries(before, after, i as int, other);
                        }
                    }
                }
                true
            },
            None => {
                proof {
                    lemma_no_entry(before, wanted);
                }
                self.entries.push((name, value));
                proof {
                    let after = self.entries@;
                    assert(after.drop_last() =~= before);
                }
                false
            },
        }
    }
}

} // verus!
