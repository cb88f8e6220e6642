//! A table of values under unique names, in the order in which the names
//! were first entered.

use vstd::prelude::*;
use crate::text::str_eq;

verus! {

/// One row of a [`NameTable`].
#[derive(Debug)]
pub struct Entry<T> {
    pub name: String,
    pub value: T,
}

/// Values under unique names. A name keeps the place at which it was first
/// entered, whatever happens to its value afterwards.
#[derive(Debug)]
pub struct NameTable<T> {
    entries: Vec<Entry<T>>,
}

/// The names of the rows, in order.
pub open spec fn entry_names<T>(entries: Seq<Entry<T>>) -> Seq<Seq<char>> {
    Seq::new(entries.len(), |i: int| entries[i].name@)
}

/// The values of the rows, in order.
pub open spec fn entry_values<T>(entries: Seq<Entry<T>>) -> Seq<T> {
    Seq::new(entries.len(), |i: int| entries[i].value)
}

/// No name occurs twice.
pub open spec fn distinct(names: Seq<Seq<char>>) -> bool {
    forall|i: int, j: int| 0 <= i < j < names.len() ==> names[i] != names[j]
}

/// The position of `name` among `names`, if it is one of them.
pub open spec fn position(names: Seq<Seq<char>>, name: Seq<char>) -> Option<int> {
    if exists|i: int| 0 <= i < names.len() && names[i] == name {
        Some(choose|i: int| 0 <= i < names.len() && names[i] == name)
    } else {
        None
    }
}

/// The map from each name to the value at its place.
pub open spec fn table_map<T>(names: Seq<Seq<char>>, values: Seq<T>) -> Map<Seq<char>, T> {
    Map::new(|k: Seq<char>| names.contains(k), |k: Seq<char>| values[position(names, k).unwrap()])
}

/// Among distinct names, each is found at its own place.
pub proof fn lemma_position(names: Seq<Seq<char>>, i: int)
    requires
        distinct(names),
        0 <= i < names.len(),
    ensures
        position(names, names[i]) == Some(i),
        names.contains(names[i]),
{
}

/// A new name at the end is one more entry of the map.
pub proof fn lemma_map_push<T>(names: Seq<Seq<char>>, values: Seq<T>, name: Seq<char>, value: T)
    requires
        distinct(names),
        !names.contains(name),
        names.len() == values.len(),
    ensures
        distinct(names.push(name)),
        table_map(names.push(name), values.push(value)) == table_map(names, values).insert(
            name,
            value,
        ),
{
    let names2 = names.push(name);
    let values2 = values.push(value);
    assert forall|k: Seq<char>| names2.contains(k) <==> (names.contains(k) || k == name) by {
        if names.contains(k) {
            let i = choose|i: int| 0 <= i < names.len() && names[i] == k;
            assert(names2[i] == k);
        }
        if k == name {
            assert(names2[names.len() as int] == k);
        }
    }
    assert forall|k: Seq<char>| names2.contains(k) implies #[trigger] table_map(names2, values2)[k]
        == table_map(names, values).insert(name, value)[k] by {
        let i = choose|i: int| 0 <= i < names2.len() && names2[i] == k;
        lemma_position(names2, i);
        if i < names.len() {
            lemma_position(names, i);
        }
    }
}

/// A new value at the place of a name is a new value under that name.
pub proof fn lemma_map_update<T>(names: Seq<Seq<char>>, values: Seq<T>, i: int, value: T)
    requires
        distinct(names),
        names.len() == values.len(),
        0 <= i < names.len(),
    ensures
        table_map(names, values.update(i, value)) == table_map(names, values).insert(
            names[i],
            value,
        ),
{
    lemma_position(names, i);
    assert forall|k: Seq<char>| names.contains(k) implies #[trigger] table_map(
        names,
        values.update(i, value),
    )[k] == table_map(names, values).insert(names[i], value)[k] by {
        let j = choose|j: int| 0 <= j < names.len() && names[j] == k;
        lemma_position(names, j);
    }
}

impl<T> NameTable<T> {
    /// No name is held twice.
    #[verifier::type_invariant]
    spec fn unique(self) -> bool {
        distinct(entry_names(self.entries@))
    }

    /// The names, in the order in which they were first entered.
    pub closed spec fn names(&self) -> Seq<Seq<char>> {
        entry_names(self.entries@)
    }

    /// The values, each at the place of its name.
    pub closed spec fn values(&self) -> Seq<T> {
        entry_values(self.entries@)
    }

    /// Whether `name` is in the table.
    pub open spec fn has(&self, name: Seq<char>) -> bool {
        self.names().contains(name)
    }

    /// The value under `name`; meaningful where `has(name)`.
    pub open spec fn value_of(&self, name: Seq<char>) -> T {
        self.values()[position(self.names(), name).unwrap()]
    }

    /// The table as a map from names to values.
    pub open spec fn as_map(&self) -> Map<Seq<char>, T> {
        table_map(self.names(), self.values())
    }

    /// An empty table.
    pub fn new() -> (t: Self)
        ensures
            t.names() == Seq::<Seq<char>>::empty(),
            t.values() == Seq::<T>::empty(),
            t.as_map() == Map::<Seq<char>, T>::empty(),
    {
        let t = NameTable { entries: Vec::new() };
        t
    }

    /// The number of names. Each name has its value, and no name occurs
    /// twice.
    pub fn len(&self) -> (n: usize)
        ensures
            n == self.names().len(),
            n == self.values().len(),
            distinct(self.names()),
    {
        proof {
            use_type_invariant(self);
        }
        self.entries.len()
    }

    /// The place of `name`, if it is in the table.
    pub fn find(&self, name: &str) -> (r: Option<usize>)
        ensures
            match r {
                Some(i) => {
                    &&& i < self.names().len()
                    &&& self.names()[i as int] == name@
                    &&& position(self.names(), name@) == Some(i as int)
                },
                None => !self.has(name@) && position(self.names(), name@) is None,
            },
    {
        proof {
            use_type_invariant(self);
        }
        let mut i: usize = 0;
        while i < self.entries.len()
            invariant
                i <= self.entries.len(),
                distinct(entry_names(self.entries@)),
                forall|j: int| 0 <= j < i ==> entry_names(self.entries@)[j] != name@,
            decreases self.entries.len() - i,
        {
            if str_eq(self.entries[i].name.as_str(), name) {
                proof {
                    lemma_position(entry_names(self.entries@), i as int);
                }
                return Some(i);
            }
            i += 1;
        }
        None
    }

    /// The value under `name`, if the table holds that name.
    pub fn get(&self, name: &str) -> (r: Option<&T>)
        ensures
            match r {
                Some(v) => self.has(name@) && *v == self.value_of(name@),
                None => !self.has(name@),
            },
    {
        match self.find(name) {
            Some(i) => Some(&self.entries[i].value),
            None => None,
        }
    }

    /// The value at place `i`.
    pub fn value_at(&self, i: usize) -> (r: &T)
        requires
            i < self.names().len(),
        ensures
            *r == self.values()[i as int],
    {
        &self.entries[i].value
    }

    /// The name at place `i`.
    pub fn name_at(&self, i: usize) -> (r: &str)
        requires
            i < self.names().len(),
        ensures
            r@ == self.names()[i as int],
    {
        self.entries[i].name.as_str()
    }

    /// Enters `value` under `name` unless the name is taken; then the table
    /// stays as it is and the value comes back.
    pub fn insert_new(&mut self, name: String, value: T) -> (r: Result<(), T>)
        ensures
            match r {
                Ok(()) => {
                    &&& !old(self).has(name@)
                    &&& final(self).names() == old(self).names().push(name@)
                    &&& final(self).values() == old(self).values().push(value)
                    &&& final(self).as_map() == old(self).as_map().insert(name@, value)
                },
                Err(back) => {
                    &&& old(self).has(name@)
                    &&& back == value
                    &&& final(self).names() == old(self).names()
                    &&& final(self).values() == old(self).values()
                },
            },
    {
        proof {
            use_type_invariant(&*self);
        }
        match self.find(name.as_str()) {
            Some(_) => Err(value),
            None => {
                let ghost before = self.entries@;
                let mut entries: Vec<Entry<T>> = Vec::new();
                std::mem::swap(&mut entries, &mut self.entries);
                entries.push(Entry { name, value });
                proof {
                    assert(entry_names(entries@) =~= entry_names(before).push(name@));
                    assert(entry_values(entries@) =~= entry_values(before).push(value));
                    lemma_map_push(entry_names(before), entry_values(before), name@, value);
                }
                self.entries = entries;
                Ok(())
            },
        }
    }

    /// Enters `value` under `name`. A name that is already there keeps its
    /// place and gets the new value; the old value comes back.
    pub fn put(&mut self, name: String, value: T) -> (r: Option<T>)
        ensures
            final(self).as_map() == old(self).as_map().insert(name@, value),
            match r {
                None => {
                    &&& !old(self).has(name@)
                    &&& final(self).names() == old(self).names().push(name@)
                    &&& final(self).values() == old(self).values().push(value)
                },
                Some(previous) => {
                    &&& old(self).has(name@)
                    &&& previous == old(self).value_of(name@)
                    &&& final(self).names() == old(self).names()
                    &&& final(self).values() == old(self).values().update(
                        position(old(self).names(), name@).unwrap(),
                        value,
                    )
                },
            },
    {
        proof {
            use_type_invariant(&*self);
        }
        match self.find(name.as_str()) {
            Some(i) => {
                let ghost before = self.entries@;
                let mut entries: Vec<Entry<T>> = Vec::new();
                std::mem::swap(&mut entries, &mut self.entries);
                let mut entry = Entry { name, value };
                std::mem::swap(&mut entry, &mut entries[i]);
                proof {
                    assert(entry_names(entries@) =~= entry_names(before));
                    assert(entry_values(entries@) =~= entry_values(before).update(
                        i as int,
                        value,
                    ));
                    lemma_map_update(entry_names(before), entry_values(before), i as int, value);
                }
                self.entries = entries;
                Some(entry.value)
            },
            None => match self.insert_new(name, value) {
                Ok(()) => None,
                Err(_) => None,
            },
        }
    }
}

} // verus!
