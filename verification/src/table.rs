//! Tables from names to values, in which no name occurs twice.

use vstd::prelude::*;

verus! {

/// What a list of entries maps its names to.
pub open spec fn as_map<V>(entries: Seq<(String, V)>) -> Map<Seq<char>, V>
    decreases entries.len(),
{
    if entries.len() == 0 {
        Map::empty()
    } else {
        as_map(entries.drop_last()).insert(entries.last().0@, entries.last().1)
    }
}

/// No two entries share a name.
pub open spec fn distinct<V>(entries: Seq<(String, V)>) -> bool {
    forall|i: int, j: int|
        0 <= i < j < entries.len() ==> (#[trigger] entries[i]).0@ != (#[trigger] entries[j]).0@
}

/// A table from names to values. Its view is the map that it stands for. The
/// entries are kept in a list, so that a walk over them has a fixed order.
#[derive(Debug)]
pub struct Table<V> {
    entries: Vec<(String, V)>,
}

impl<V> View for Table<V> {
    type V = Map<Seq<char>, V>;

    open spec fn view(&self) -> Map<Seq<char>, V> {
        as_map(self.listed())
    }
}

impl<V> Table<V> {
    /// The entries, in the order in which their names were first inserted.
    pub closed spec fn listed(&self) -> Seq<(String, V)> {
        self.entries@
    }

    #[verifier::type_invariant]
    spec fn names_are_distinct(self) -> bool {
        distinct(self.entries@)
    }

    /// A table without entries.
    pub fn new() -> (table: Self)
        ensures
            table@ == Map::<Seq<char>, V>::empty(),
            table.listed().len() == 0,
    {
        Table { entries: Vec::new() }
    }

    /// The entries of the table.
    pub fn entries(&self) -> (entries: &Vec<(String, V)>)
        ensures
            entries@ == self.listed(),
            distinct(entries@),
    {
        proof {
            use_type_invariant(&*self);
        }
        &self.entries
    }

    /// Whether the table has no entry.
    pub fn is_empty(&self) -> (empty: bool)
        ensures
            empty == (self@ == Map::<Seq<char>, V>::empty()),
    {
        proof {
            if self.entries@.len() > 0 {
                assert(self@.contains_key(self.entries@.last().0@));
            }
        }
        self.entries.len() == 0
    }

    /// Where a name stands among the entries.
    fn position(&self, key: &String) -> (found: Option<usize>)
        ensures
            match found {
                Some(i) => i < self.entries@.len() && self.entries@[i as int].0@ == key@,
                None => forall|j: int|
                    0 <= j < self.entries@.len() ==> (#[trigger] self.entries@[j]).0@ != key@,
            },
    {
        for i in 0..self.entries.len()
            invariant
                forall|j: int| 0 <= j < i ==> (#[trigger] self.entries@[j]).0@ != key@,
        {
            if self.entries[i].0 == *key {
                return Some(i);
            }
        }
        None
    }

    /// The value stored under a name.
    pub fn get(&self, key: &str) -> (found: Option<&V>)
        ensures
            found is Some <==> self@.contains_key(key@),
            found matches Some(value) ==> *value == self@[key@],
    {
        proof {
            use_type_invariant(&*self);
        }
        let name = key.to_owned();
        match self.position(&name) {
            Some(i) => {
                proof {
                    lemma_entry_in_map(self.entries@, i as int);
                }
                Some(&self.entries[i].1)
            },
            None => {
                proof {
                    lemma_absent_from_map(self.entries@, key@);
                }
                None
            },
        }
    }

    /// Whether a value is stored under a name.
    pub fn contains_key(&self, key: &str) -> (found: bool)
        ensures
            found == self@.contains_key(key@),
    {
        self.get(key).is_some()
    }

    /// Stores a value under a name, in place of one that was there. A new name
    /// comes last; a known one keeps its place.
    pub fn insert(&mut self, key: String, value: V)
        ensures
            final(self)@ == old(self)@.insert(key@, value),
            !old(self)@.contains_key(key@) ==> final(self).listed() == old(self).listed().push(
                (key, value),
            ),
            old(self)@.contains_key(key@) ==> exists|i: int|
                0 <= i < old(self).listed().len() && (#[trigger] old(self).listed()[i]).0@ == key@
                    && final(self).listed() == old(self).listed().update(i, (key, value)),
    {
        proof {
            use_type_invariant(&*self);
        }
        let found = self.position(&key);
        let mut entries: Vec<(String, V)> = Vec::new();
        std::mem::swap(&mut entries, &mut self.entries);
        let ghost before = entries@;
        match found {
            Some(i) => {
                entries.set(i, (key, value));
                proof {
                    lemma_replace(before, i as int, (key, value));
                    lemma_entry_in_map(before, i as int);
                }
            },
            None => {
                entries.push((key, value));
                proof {
                    lemma_absent_from_map(before, key@);
                    assert(entries@.drop_last() =~= before);
                }
            },
        }
        self.entries = entries;
    }
}

impl Table<String> {
    /// A table with the same entries.
    pub fn duplicate(&self) -> (table: Self)
        ensures
            table@ == self@,
    {
        proof {
            use_type_invariant(&*self);
        }
        let mut table: Table<String> = Table::new();
        for i in 0..self.entries.len()
            invariant
                table@ == as_map(self.entries@.take(i as int)),
        {
            assert(self.entries@.take(i + 1).drop_last() =~= self.entries@.take(i as int));
            table.insert(self.entries[i].0.clone(), self.entries[i].1.clone());
        }
        assert(self.entries@.take(self.entries@.len() as int) =~= self.entries@);
        table
    }
}

impl<V> Default for Table<V> {
    fn default() -> (table: Self)
        ensures
            table@ == Map::<Seq<char>, V>::empty(),
            table.listed().len() == 0,
    {
        Table::new()
    }
}

/// A map of entries has the names of the entries and no others.
pub proof fn lemma_names<V>(entries: Seq<(String, V)>, key: Seq<char>)
    ensures
        as_map(entries).contains_key(key) <==> exists|i: int|
            0 <= i < entries.len() && (#[trigger] entries[i]).0@ == key,
    decreases entries.len(),
{
    if entries.len() > 0 {
        let front = entries.drop_last();
        lemma_names(front, key);
        if as_map(front).contains_key(key) {
            let i = choose|i: int| 0 <= i < front.len() && (#[trigger] front[i]).0@ == key;
            assert(entries[i].0@ == key);
        } else if entries.last().0@ == key {
            assert(entries[entries.len() - 1].0@ == key);
        } else if exists|i: int| 0 <= i < entries.len() && (#[trigger] entries[i]).0@ == key {
            let i = choose|i: int| 0 <= i < entries.len() && (#[trigger] entries[i]).0@ == key;
            assert(front[i].0@ == key);
        }
    }
}

proof fn lemma_absent_from_map<V>(entries: Seq<(String, V)>, key: Seq<char>)
    requires
        forall|j: int| 0 <= j < entries.len() ==> (#[trigger] entries[j]).0@ != key,
    ensures
        !as_map(entries).contains_key(key),
{
    lemma_names(entries, key);
}

/// Where no name occurs twice, an entry's name is mapped to its value.
pub proof fn lemma_entry_in_map<V>(entries: Seq<(String, V)>, i: int)
    requires
        distinct(entries),
        0 <= i < entries.len(),
    ensures
        as_map(entries).contains_key(entries[i].0@),
        as_map(entries)[entries[i].0@] == entries[i].1,
    decreases entries.len(),
{
    if i < entries.len() - 1 {
        let front = entries.drop_last();
        assert(forall|a: int| 0 <= a < front.len() ==> #[trigger] front[a] == entries[a]);
        lemma_entry_in_map(front, i);
        assert(entries[i].0@ != entries[entries.len() - 1].0@);
    }
}

proof fn lemma_replace<V>(entries: Seq<(String, V)>, i: int, entry: (String, V))
    requires
        distinct(entries),
        0 <= i < entries.len(),
        entries[i].0@ == entry.0@,
    ensures
        distinct(entries.update(i, entry)),
        as_map(entries.update(i, entry)) == as_map(entries).insert(entry.0@, entry.1),
    decreases entries.len(),
{
    let updated = entries.update(i, entry);
    let front = entries.drop_last();
    assert(forall|a: int| 0 <= a < front.len() ==> #[trigger] front[a] == entries[a]);
    if i == entries.len() - 1 {
        assert(updated.drop_last() =~= front);
    } else {
        lemma_replace(front, i, entry);
        assert(updated.drop_last() =~= front.update(i, entry));
        assert(entries[i].0@ != entries[entries.len() - 1].0@);
    }
    assert(as_map(updated) =~= as_map(entries).insert(entry.0@, entry.1));
}

} // verus!
