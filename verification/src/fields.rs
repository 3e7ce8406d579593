//! Named text fields, as a user interface hands them in.

use vstd::prelude::*;

verus! {

/// The mapping that a list of named values stands for: where a name occurs
/// more than once, the last occurrence counts.
pub open spec fn fold_fields(s: Seq<(String, String)>) -> Map<Seq<char>, Seq<char>>
    decreases s.len(),
{
    if s.len() == 0 {
        Map::empty()
    } else {
        fold_fields(s.drop_last()).insert(s.last().0@, s.last().1@)
    }
}

/// A name that no entry carries is not in the mapping.
pub proof fn lemma_fold_absent(s: Seq<(String, String)>, key: Seq<char>)
    requires
        forall|j: int| 0 <= j < s.len() ==> s[j].0@ != key,
    ensures
        !fold_fields(s).contains_key(key),
    decreases s.len(),
{
    if s.len() > 0 {
        lemma_fold_absent(s.drop_last(), key);
    }
}

/// The last entry that carries a name gives the name's value.
pub proof fn lemma_fold_last_wins(s: Seq<(String, String)>, i: int, key: Seq<char>)
    requires
        0 <= i < s.len(),
        s[i].0@ == key,
        forall|j: int| i < j < s.len() ==> s[j].0@ != key,
    ensures
        fold_fields(s).contains_key(key),
        fold_fields(s)[key] == s[i].1@,
    decreases s.len(),
{
    if i < s.len() - 1 {
        lemma_fold_last_wins(s.drop_last(), i, key);
    }
}

/// Overwriting the last entry that carries a name is an insertion into the
/// mapping.
pub proof fn lemma_fold_update(s: Seq<(String, String)>, i: int, entry: (String, String))
    requires
        0 <= i < s.len(),
        s[i].0@ == entry.0@,
        forall|j: int| i < j < s.len() ==> s[j].0@ != entry.0@,
    ensures
        fold_fields(s.update(i, entry)) == fold_fields(s).insert(entry.0@, entry.1@),
    decreases s.len(),
{
    let t = s.update(i, entry);
    if i == s.len() - 1 {
        assert(t.drop_last() == s.drop_last());
        assert(fold_fields(t) == fold_fields(s).insert(entry.0@, entry.1@));
    } else {
        lemma_fold_update(s.drop_last(), i, entry);
        assert(t.drop_last() == s.drop_last().update(i, entry));
        assert(t.last() == s.last());
        assert(fold_fields(t) == fold_fields(s).insert(entry.0@, entry.1@));
    }
}

/// A mapping from field names to raw text values. A name maps to at most
/// one value; inserting under a name that is present replaces its value.
#[derive(Clone, Debug)]
pub struct FieldMap {
    entries: Vec<(String, String)>,
}

impl View for FieldMap {
    type V = Map<Seq<char>, Seq<char>>;

    closed spec fn view(&self) -> Map<Seq<char>, Seq<char>> {
        fold_fields(self.entries@)
    }
}

impl FieldMap {
    /// The mapping without any field.
    pub fn new() -> (res: Self)
        ensures
            res@ == Map::<Seq<char>, Seq<char>>::empty(),
    {
        FieldMap { entries: Vec::new() }
    }

    /// The position of the last entry named `key`, if there is one.
    fn position(&self, key: &String) -> (res: Option<usize>)
        ensures
            match res {
                Some(i) => {
                    &&& i < self.entries@.len()
                    &&& self.entries@[i as int].0@ == key@
                    &&& forall|j: int| i < j < self.entries@.len() ==> self.entries@[j].0@ != key@
                },
                None => forall|j: int| 0 <= j < self.entries@.len() ==> self.entries@[j].0@ != key@,
            },
    {
        let mut i: usize = self.entries.len();
        while i > 0
            invariant
                i <= self.entries@.len(),
                forall|j: int| i <= j < self.entries@.len() ==> self.entries@[j].0@ != key@,
            decreases i,
        {
            i = i - 1;
            if self.entries[i].0 == *key {
                return Some(i);
            }
        }
        None
    }

    /// Sets the field `key` to `value`, whether or not it was present.
    pub fn insert(&mut self, key: &str, value: &str)
        ensures
            final(self)@ == old(self)@.insert(key@, value@),
    {
        let entry = (key.to_owned(), value.to_owned());
        match self.position(&entry.0) {
            Some(i) => {
                proof {
                    lemma_fold_update(self.entries@, i as int, entry);
                }
                self.entries.set(i, entry);
            },
            None => {
                proof {
                    assert(self.entries@.push(entry).drop_last() == self.entries@);
                }
                self.entries.push(entry);
            },
        }
    }

    /// The value of the field `key`, if the mapping has it.
    pub fn get(&self, key: &str) -> (res: Option<&String>)
        ensures
            res is Some <==> self@.contains_key(key@),
            res matches Some(value) ==> value@ == self@[key@],
    {
        let name = key.to_owned();
        match self.position(&name) {
            Some(i) => {
                proof {
                    lemma_fold_last_wins(self.entries@, i as int, key@);
                }
                Some(&self.entries[i].1)
            },
            None => {
                proof {
                    lemma_fold_absent(self.entries@, key@);
                }
                None
            },
        }
    }

    /// Whether the mapping has the field `key`.
    pub fn contains_key(&self, key: &str) -> (res: bool)
        ensures
            res == self@.contains_key(key@),
    {
        self.get(key).is_some()
    }
}

} // verus!
