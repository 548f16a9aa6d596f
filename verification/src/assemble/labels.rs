//! The table of labels and their values.

use vstd::prelude::*;

verus! {

/// A table from label names to 32-bit values. Every name occurs once.
#[derive(Debug, Clone, PartialEq, Eq)]
pub struct LabelTable {
    names: Vec<String>,
    values: Vec<u32>,
}

/// The map that lists of names and values stand for; of two entries with
/// the same name the later one counts.
pub closed spec fn table_map(names: Seq<String>, values: Seq<u32>) -> Map<Seq<char>, u32>
    decreases names.len(),
{
    if names.len() == 0 || values.len() != names.len() {
        Map::empty()
    } else {
        table_map(names.drop_last(), values.drop_last()).insert(names.last()@, values.last())
    }
}

/// Whether no two of the names are the same text.
pub closed spec fn distinct_names(names: Seq<String>) -> bool {
    forall|i: int, j: int| 0 <= i < j < names.len() ==> names[i]@ != names[j]@
}

/// The text of the name at `index`.
pub closed spec fn name_at(names: Seq<String>, index: int) -> Seq<char> {
    names[index]@
}

/// Whether one of the names is the text `name`.
pub closed spec fn has_name(names: Seq<String>, name: Seq<char>) -> bool {
    exists|i: int| 0 <= i < names.len() && #[trigger] name_at(names, i) == name
}

proof fn lemma_table_map_domain(names: Seq<String>, values: Seq<u32>, name: Seq<char>)
    requires
        names.len() == values.len(),
    ensures
        table_map(names, values).contains_key(name) <==> has_name(names, name),
    decreases names.len(),
{
    if names.len() > 0 {
        let front = names.drop_last();
        lemma_table_map_domain(front, values.drop_last(), name);
        if table_map(names, values).contains_key(name) {
            if name == names.last()@ {
                assert(name_at(names, names.len() - 1) == name);
            } else {
                let i = choose|i: int| 0 <= i < front.len() && #[trigger] name_at(front, i) == name;
                assert(name_at(names, i) == name);
            }
        }
        if has_name(names, name) {
            let i = choose|i: int| 0 <= i < names.len() && #[trigger] name_at(names, i) == name;
            if i < names.len() - 1 {
                assert(name_at(front, i) == name);
            }
        }
    }
}

proof fn lemma_table_map_index(names: Seq<String>, values: Seq<u32>, i: int)
    requires
        names.len() == values.len(),
        distinct_names(names),
        0 <= i < names.len(),
    ensures
        table_map(names, values).contains_key(names[i]@),
        table_map(names, values)[names[i]@] == values[i],
    decreases names.len(),
{
    if i < names.len() - 1 {
        assert(distinct_names(names.drop_last())) by {
            assert forall|a: int, b: int| 0 <= a < b < names.drop_last().len() implies names.drop_last()[a]@
                != names.drop_last()[b]@ by {
                assert(names[a]@ != names[b]@);
            }
        }
        lemma_table_map_index(names.drop_last(), values.drop_last(), i);
        assert(names[i]@ != names[names.len() - 1]@);
    }
}

proof fn lemma_table_map_update(names: Seq<String>, values: Seq<u32>, i: int, value: u32)
    requires
        names.len() == values.len(),
        distinct_names(names),
        0 <= i < names.len(),
    ensures
        table_map(names, values.update(i, value)) == table_map(names, values).insert(
            names[i]@,
            value,
        ),
    decreases names.len(),
{
    let updated = values.update(i, value);
    if i < names.len() - 1 {
        assert(distinct_names(names.drop_last())) by {
            assert forall|a: int, b: int| 0 <= a < b < names.drop_last().len() implies names.drop_last()[a]@
                != names.drop_last()[b]@ by {
                assert(names[a]@ != names[b]@);
            }
        }
        lemma_table_map_update(names.drop_last(), values.drop_last(), i, value);
        assert(updated.drop_last() =~= values.drop_last().update(i, value));
        assert(names[i]@ != names[names.len() - 1]@);
        assert(table_map(names, updated) =~= table_map(names, values).insert(names[i]@, value));
    } else {
        assert(updated.drop_last() =~= values.drop_last());
        assert(table_map(names, updated) =~= table_map(names, values).insert(names[i]@, value));
    }
}

impl View for LabelTable {
    type V = Map<Seq<char>, u32>;

    closed spec fn view(&self) -> Map<Seq<char>, u32> {
        table_map(self.names@, self.values@)
    }
}

impl LabelTable {
    /// Whether the table is well formed: one value for each name, and no
    /// name twice.
    pub closed spec fn wf(&self) -> bool {
        self.names@.len() == self.values@.len() && distinct_names(self.names@)
    }

    /// The number of entries in a well-formed table.
    pub closed spec fn spec_len(&self) -> nat {
        self.names@.len()
    }

    /// The name of the entry at `index`.
    pub closed spec fn spec_name_at(&self, index: int) -> Seq<char> {
        self.names@[index]@
    }

    /// An empty table.
    pub fn new() -> (r: LabelTable)
        ensures
            r.wf(),
            r@ == Map::<Seq<char>, u32>::empty(),
            r.spec_len() == 0,
    {
        LabelTable { names: Vec::new(), values: Vec::new() }
    }

    /// The place of a name in the table, if it is there.
    fn find(&self, name: &String) -> (r: Option<usize>)
        requires
            self.wf(),
        ensures
            match r {
                Some(i) => i < self.names@.len() && self.names@[i as int]@ == name@,
                None => forall|i: int| 0 <= i < self.names@.len() ==> self.names@[i]@ != name@,
            },
    {
        let mut i: usize = 0;
        while i < self.names.len()
            invariant
                i <= self.names@.len(),
                forall|k: int| 0 <= k < i ==> self.names@[k]@ != name@,
            decreases self.names@.len() - i,
        {
            if self.names[i] == *name {
                return Some(i);
            }
            i += 1;
        }
        None
    }

    /// The value of a name, if the table holds it.
    pub fn get(&self, name: &String) -> (r: Option<u32>)
        requires
            self.wf(),
        ensures
            r == (if self@.contains_key(name@) {
                Some(self@[name@])
            } else {
                None
            }),
    {
        proof {
            lemma_table_map_domain(self.names@, self.values@, name@);
        }
        match self.find(name) {
            Some(i) => {
                proof {
                    lemma_table_map_index(self.names@, self.values@, i as int);
                }
                Some(self.values[i])
            },
            None => {
                assert(!has_name(self.names@, name@)) by {
                    assert forall|i: int| 0 <= i < self.names@.len() implies #[trigger] name_at(
                        self.names@,
                        i,
                    ) != name@ by {
                        assert(self.names@[i]@ != name@);
                    }
                }
                None
            },
        }
    }

    /// Whether the table holds a name.
    pub fn contains(&self, name: &String) -> (r: bool)
        requires
            self.wf(),
        ensures
            r == self@.contains_key(name@),
    {
        self.get(name).is_some()
    }

    /// Gives a name a value, whether the table held the name or not.
    pub fn set(&mut self, name: &String, value: u32)
        requires
            old(self).wf(),
        ensures
            final(self).wf(),
            final(self)@ == old(self)@.insert(name@, value),
    {
        match self.find(name) {
            Some(i) => {
                proof {
                    lemma_table_map_update(self.names@, self.values@, i as int, value);
                }
                self.values[i] = value;
            },
            None => {
                let ghost names = self.names@;
                let ghost values = self.values@;
                self.names.push(name.clone());
                self.values.push(value);
                assert(self.names@.drop_last() =~= names);
                assert(self.values@.drop_last() =~= values);
            },
        }
    }

    /// The number of entries.
    pub fn len(&self) -> (r: usize)
        ensures
            r == self.spec_len(),
    {
        self.names.len()
    }

    /// The name and the value of the entry at `index`, in the order in
    /// which the names came into the table.
    pub fn entry(&self, index: usize) -> (r: (&String, u32))
        requires
            self.wf(),
            index < self.spec_len(),
        ensures
            r.0@ == self.spec_name_at(index as int),
            self@.contains_key(r.0@),
            self@[r.0@] == r.1,
    {
        proof {
            lemma_table_map_index(self.names@, self.values@, index as int);
        }
        (&self.names[index], self.values[index])
    }
}

} // verus!
