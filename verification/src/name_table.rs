//! A table keyed by name, in which no name occurs twice.
//!
//! The table stands where a hash map keyed by `String` would: vstd gives
//! `String` no key model, so nothing can be proved of such a map. Here the
//! entries lie in a vector, and that no name occurs twice is the type's
//! invariant.

use vstd::prelude::*;

verus! {

/// No two entries have the same name.
pub open spec fn names_distinct<V>(entries: Seq<(String, V)>) -> bool {
    forall|i: int, j: int|
        0 <= i < j < entries.len() ==> (#[trigger] entries[i]).0@ != (#[trigger] entries[j]).0@
}

/// No entry has the name `name`.
pub open spec fn name_absent<V>(entries: Seq<(String, V)>, name: Seq<char>) -> bool {
    forall|i: int| 0 <= i < entries.len() ==> (#[trigger] entries[i]).0@ != name
}

/// The map from each entry's name to its value.
pub open spec fn table_of<V>(entries: Seq<(String, V)>) -> Map<Seq<char>, V>
    decreases entries.len(),
{
    if entries.len() == 0 {
        Map::empty()
    } else {
        table_of(entries.drop_last()).insert(entries.last().0@, entries.last().1)
    }
}

/// A name is in the map exactly where an entry has it.
pub proof fn lemma_table_names<V>(entries: Seq<(String, V)>, name: Seq<char>)
    ensures
        table_of(entries).contains_key(name) <==> !name_absent(entries, name),
    decreases entries.len(),
{
    if entries.len() > 0 {
        let front = entries.drop_last();
        lemma_table_names(front, name);
        if entries.last().0@ != name {
            if !name_absent(entries, name) {
                let i = choose|i: int| 0 <= i < entries.len() && (#[trigger] entries[i]).0@ == name;
                assert(front[i].0@ == name);
            }
            if !name_absent(front, name) {
                let i = choose|i: int| 0 <= i < front.len() && (#[trigger] front[i]).0@ == name;
                assert(entries[i].0@ == name);
            }
        }
    }
}

/// Where the names are distinct, the map holds each entry's value under the
/// entry's name.
pub proof fn lemma_table_value<V>(entries: Seq<(String, V)>, i: int)
    requires
        names_distinct(entries),
        0 <= i < entries.len(),
    ensures
        table_of(entries).contains_key(entries[i].0@),
        table_of(entries)[entries[i].0@] == entries[i].1,
    decreases entries.len(),
{
    let front = entries.drop_last();
    if i < entries.len() - 1 {
        assert(names_distinct(front)) by {
            assert forall|a: int, b: int| 0 <= a < b < front.len() implies (
            #[trigger] front[a]).0@ != (#[trigger] front[b]).0@ by {
                assert(entries[a].0@ != entries[b].0@);
            }
        }
        lemma_table_value(front, i);
        assert(front[i] == entries[i]);
        assert(entries[i].0@ != entries[entries.len() - 1].0@);
    }
}

/// Where the names are distinct, taking an entry out takes its name out of
/// the map and nothing else, and the names stay distinct.
pub proof fn lemma_table_remove<V>(entries: Seq<(String, V)>, i: int)
    requires
        names_distinct(entries),
        0 <= i < entries.len(),
    ensures
        table_of(entries.remove(i)) == table_of(entries).remove(entries[i].0@),
        names_distinct(entries.remove(i)),
    decreases entries.len(),
{
    let front = entries.drop_last();
    let shorter = entries.remove(i);
    let name = entries[i].0@;
    assert(names_distinct(shorter)) by {
        assert forall|a: int, b: int| 0 <= a < b < shorter.len() implies (
        #[trigger] shorter[a]).0@ != (#[trigger] shorter[b]).0@ by {
            let a0 = if a < i {
                a
            } else {
                a + 1
            };
            let b0 = if b < i {
                b
            } else {
                b + 1
            };
            assert(shorter[a] == entries[a0]);
            assert(shorter[b] == entries[b0]);
            assert(entries[a0].0@ != entries[b0].0@);
        }
    }
    if i == entries.len() - 1 {
        assert(shorter =~= front);
        assert(name_absent(front, name)) by {
            assert forall|a: int| 0 <= a < front.len() implies (#[trigger] front[a]).0@
                != name by {
                assert(front[a] == entries[a]);
                assert(entries[a].0@ != entries[i].0@);
            }
        }
        lemma_table_names(front, name);
        assert(table_of(front) =~= table_of(entries).remove(name));
    } else {
        assert(names_distinct(front)) by {
            assert forall|a: int, b: int| 0 <= a < b < front.len() implies (
            #[trigger] front[a]).0@ != (#[trigger] front[b]).0@ by {
                assert(entries[a].0@ != entries[b].0@);
            }
        }
        lemma_table_remove(front, i);
        assert(front[i] == entries[i]);
        assert(shorter.drop_last() =~= front.remove(i));
        assert(shorter.last() == entries.last());
        assert(entries[i].0@ != entries[entries.len() - 1].0@);
        assert(table_of(shorter) =~= table_of(entries).remove(name));
    }
}

/// A table from names to values of `V`.
pub struct NameTable<V> {
    entries: Vec<(String, V)>,
}

impl<V> NameTable<V> {
    #[verifier::type_invariant]
    spec fn distinct(self) -> bool {
        names_distinct(self.entries@)
    }

    /// The table as a map from each name to its value.
    pub closed spec fn view(&self) -> Map<Seq<char>, V> {
        table_of(self.entries@)
    }

    /// A table without entries.
    pub fn new() -> (table: Self)
        ensures
            table@ == Map::<Seq<char>, V>::empty(),
    {
        NameTable { entries: Vec::new() }
    }

    /// Where the entry of `name` stands, if there is one.
    fn position(&self, name: &String) -> (found: Option<usize>)
        ensures
            match found {
                Some(i) => i < self.entries@.len() && self.entries@[i as int].0@ == name@,
                None => name_absent(self.entries@, name@),
            },
    {
        let mut i: usize = 0;
        while i < self.entries.len()
            invariant
                i <= self.entries@.len(),
                name_absent(self.entries@.take(i as int), name@),
            decreases self.entries@.len() - i,
        {
            if self.entries[i].0 == *name {
                return Some(i);
            }
            i += 1;
            assert forall|a: int| 0 <= a < i implies (#[trigger] self.entries@.take(
                i as int,
            )[a]).0@ != name@ by {
                if a < i - 1 {
                    assert(self.entries@.take(i - 1)[a] == self.entries@[a]);
                }
            }
        }
        assert(self.entries@.take(i as int) =~= self.entries@);
        None
    }

    /// Whether the table has an entry under `name`.
    pub fn contains(&self, name: &str) -> (found: bool)
        ensures
            found == self@.contains_key(name@),
    {
        let key: String = name.to_owned();
        proof {
            lemma_table_names(self.entries@, name@);
        }
        self.position(&key).is_some()
    }

    /// How many entries the table has.
    pub fn len(&self) -> (n: usize)
        ensures
            n == self@.dom().len(),
            self@.dom().finite(),
    {
        proof {
            use_type_invariant(self);
            lemma_table_len(self.entries@);
        }
        self.entries.len()
    }

    /// Takes the entry of `name` out of the table and returns its value.
    pub fn remove(&mut self, name: &str) -> (removed: Option<V>)
        ensures
            final(self)@ == old(self)@.remove(name@),
            removed == if old(self)@.contains_key(name@) {
                Some(old(self)@[name@])
            } else {
                None
            },
    {
        let key: String = name.to_owned();
        proof {
            use_type_invariant(&*self);
            lemma_table_names(self.entries@, name@);
        }
        match self.position(&key) {
            Some(i) => {
                proof {
                    lemma_table_value(self.entries@, i as int);
                    lemma_table_remove(self.entries@, i as int);
                }
                let mut entries: Vec<(String, V)> = Vec::new();
                core::mem::swap(&mut self.entries, &mut entries);
                let entry = entries.remove(i);
                core::mem::swap(&mut self.entries, &mut entries);
                Some(entry.1)
            },
            None => {
                assert(self@.remove(name@) =~= self@);
                None
            },
        }
    }

    /// Puts `value` under `name`, in place of the value that stood there,
    /// which is returned.
    pub fn insert(&mut self, name: String, value: V) -> (displaced: Option<V>)
        ensures
            final(self)@ == old(self)@.insert(name@, value),
            displaced == if old(self)@.contains_key(name@) {
                Some(old(self)@[name@])
            } else {
                None
            },
    {
        let displaced = self.remove(name.as_str());
        proof {
            use_type_invariant(&*self);
            lemma_table_names(self.entries@, name@);
            assert(self.entries@.push((name, value)).drop_last() =~= self.entries@);
            assert(old(self)@.remove(name@).insert(name@, value) =~= old(self)@.insert(
                name@,
                value,
            ));
        }
        let mut entries: Vec<(String, V)> = Vec::new();
        core::mem::swap(&mut self.entries, &mut entries);
        entries.push((name, value));
        core::mem::swap(&mut self.entries, &mut entries);
        displaced
    }
}

/// Where the names are distinct, the map has as many names as there are
/// entries.
pub proof fn lemma_table_len<V>(entries: Seq<(String, V)>)
    requires
        names_distinct(entries),
    ensures
        table_of(entries).dom().finite(),
        table_of(entries).dom().len() == entries.len(),
    decreases entries.len(),
{
    if entries.len() > 0 {
        let front = entries.drop_last();
        let name = entries.last().0@;
        assert(names_distinct(front)) by {
            assert forall|a: int, b: int| 0 <= a < b < front.len() implies (
            #[trigger] front[a]).0@ != (#[trigger] front[b]).0@ by {
                assert(entries[a].0@ != entries[b].0@);
            }
        }
        lemma_table_len(front);
        assert(name_absent(front, name)) by {
            assert forall|a: int| 0 <= a < front.len() implies (#[trigger] front[a]).0@
                != name by {
                assert(front[a] == entries[a]);
                assert(entries[a].0@ != entries[entries.len() - 1].0@);
            }
        }
        lemma_table_names(front, name);
        assert(table_of(entries).dom() =~= table_of(front).dom().insert(name));
    }
}

} // verus!
