//! A table from module specifiers to module sources.
//!
//! Entries are kept in insertion order; a later entry for a specifier
//! shadows every earlier one, so the table behaves as a map in which an
//! insert replaces the previous source of the same specifier.
use vstd::prelude::*;

verus! {

/// The map that a sequence of (specifier, source) entries denotes:
/// the last entry for a specifier wins.
pub open spec fn table_of(entries: Seq<(String, String)>) -> Map<Seq<char>, Seq<char>>
    decreases entries.len(),
{
    if entries.len() == 0 {
        Map::empty()
    } else {
        table_of(entries.drop_last()).insert(entries.last().0@, entries.last().1@)
    }
}

/// Entries past index `i` that do not mention `key` leave its lookup unchanged.
proof fn lemma_later_entries_irrelevant(entries: Seq<(String, String)>, i: int, key: Seq<char>)
    requires
        0 <= i <= entries.len(),
        forall|j: int| i <= j < entries.len() ==> (#[trigger] entries[j]).0@ != key,
    ensures
        table_of(entries).contains_key(key) == table_of(entries.take(i)).contains_key(key),
        table_of(entries).contains_key(key) ==> table_of(entries)[key] == table_of(
            entries.take(i),
        )[key],
    decreases entries.len(),
{
    if entries.len() == i {
        assert(entries.take(i) =~= entries);
    } else {
        let rest = entries.drop_last();
        assert(entries[entries.len() - 1].0@ != key);
        assert forall|j: int| i <= j < rest.len() implies (#[trigger] rest[j]).0@ != key by {
            assert(rest[j] == entries[j]);
        }
        lemma_later_entries_irrelevant(rest, i, key);
        assert(rest.take(i) =~= entries.take(i));
    }
}

/// A table of module sources keyed by module specifier.
pub struct ModuleMap {
    entries: Vec<(String, String)>,
}

impl View for ModuleMap {
    type V = Map<Seq<char>, Seq<char>>;

    closed spec fn view(&self) -> Map<Seq<char>, Seq<char>> {
        table_of(self.entries@)
    }
}

impl ModuleMap {
    /// An empty table.
    pub fn new() -> (res: ModuleMap)
        ensures
            res@ == Map::<Seq<char>, Seq<char>>::empty(),
    {
        ModuleMap { entries: Vec::new() }
    }

    /// Registers `source` under `specifier`, replacing any earlier source.
    pub fn insert(&mut self, specifier: String, source: String)
        ensures
            final(self)@ == old(self)@.insert(specifier@, source@),
    {
        let ghost before = self.entries@;
        self.entries.push((specifier, source));
        assert(self.entries@.drop_last() =~= before);
    }

    /// Finds the index of the entry that decides `key`, if any.
    fn position(&self, key: &str) -> (res: Option<usize>)
        ensures
            match res {
                Some(i) => {
                    &&& i < self.entries@.len()
                    &&& self@.contains_key(key@)
                    &&& self@[key@] == self.entries@[i as int].1@
                },
                None => !self@.contains_key(key@),
            },
    {
        let wanted: String = key.to_owned();
        let mut i: usize = self.entries.len();
        while i > 0
            invariant
                i <= self.entries@.len(),
                wanted@ == key@,
                forall|j: int| i <= j < self.entries@.len() ==> (#[trigger] self.entries@[j]).0@ != key@,
            decreases i,
        {
            i = i - 1;
            if self.entries[i].0 == wanted {
                proof {
                    let s = self.entries@;
                    lemma_later_entries_irrelevant(s, i + 1, key@);
                    assert(s.take(i + 1).drop_last() =~= s.take(i as int));
                }
                return Some(i);
            }
        }
        proof {
            lemma_later_entries_irrelevant(self.entries@, 0, key@);
            assert(self.entries@.take(0) =~= Seq::<(String, String)>::empty());
        }
        None
    }

    /// Whether a source is registered under `key`.
    pub fn contains_key(&self, key: &str) -> (res: bool)
        ensures
            res == self@.contains_key(key@),
    {
        self.position(key).is_some()
    }

    /// The source registered under `key`, if any.
    pub fn get(&self, key: &str) -> (res: Option<&String>)
        ensures
            match res {
                Some(source) => self@.contains_key(key@) && source@ == self@[key@],
                None => !self@.contains_key(key@),
            },
    {
        match self.position(key) {
            Some(i) => Some(&self.entries[i].1),
            None => None,
        }
    }

    /// An independent table with the same contents.
    pub fn duplicate(&self) -> (res: ModuleMap)
        ensures
            res@ == self@,
    {
        let mut entries: Vec<(String, String)> = Vec::new();
        let n = self.entries.len();
        for i in 0..n
            invariant
                n == self.entries@.len(),
                entries@ == self.entries@.take(i as int),
        {
            let specifier = self.entries[i].0.clone();
            let source = self.entries[i].1.clone();
            entries.push((specifier, source));
            assert(entries@ =~= self.entries@.take(i + 1));
        }
        assert(self.entries@.take(n as int) =~= self.entries@);
        ModuleMap { entries }
    }
}

} // verus!
