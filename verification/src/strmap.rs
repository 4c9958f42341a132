//! A small string-keyed map used for environment variables and bind mounts.

use vstd::prelude::*;

verus! {

/// The map described by an entry list: a later entry shadows an earlier one
/// with the same key.
pub open spec fn entry_list_map(entries: Seq<(String, String)>) -> Map<Seq<char>, Seq<char>>
    decreases entries.len(),
{
    if entries.len() == 0 {
        Map::empty()
    } else {
        entry_list_map(entries.drop_last()).insert(entries.last().0@, entries.last().1@)
    }
}

/// A mapping from string keys to string values.
///
/// Entries are kept in insertion order; inserting a key again shadows the
/// earlier entry. The view is the key-value map that the entries describe.
pub struct StringMap {
    entries: Vec<(String, String)>,
}

impl View for StringMap {
    type V = Map<Seq<char>, Seq<char>>;

    closed spec fn view(&self) -> Map<Seq<char>, Seq<char>> {
        entry_list_map(self.entries@)
    }
}

impl StringMap {
    /// The underlying entry list, in insertion order.
    pub closed spec fn spec_entries(&self) -> Seq<(String, String)> {
        self.entries@
    }

    /// Creates an empty map.
    pub fn new() -> (m: StringMap)
        ensures
            m@ == Map::<Seq<char>, Seq<char>>::empty(),
            m.spec_entries() == Seq::<(String, String)>::empty(),
    {
        StringMap { entries: Vec::new() }
    }

    /// Adds one key-value entry, shadowing any earlier entry with the same
    /// key.
    pub fn insert(&mut self, key: String, value: String)
        ensures
            final(self)@ == old(self)@.insert(key@, value@),
            final(self).spec_entries() == old(self).spec_entries().push((key, value)),
    {
        self.entries.push((key, value));
        proof {
            assert(self.entries@.drop_last() =~= old(self).entries@);
            assert(self@ =~= old(self)@.insert(key@, value@));
        }
    }

    /// Looks up the value most recently inserted for `key`.
    pub fn get(&self, key: &str) -> (r: Option<&String>)
        ensures
            match r {
                Some(v) => self@.contains_key(key@) && v@ == self@[key@],
                None => !self@.contains_key(key@),
            },
    {
        let owned = key.to_owned();
        let n = self.entries.len();
        let mut i: usize = n;
        while i > 0
            invariant
                i <= n,
                n == self.entries@.len(),
                owned@ == key@,
                forall|j: int| i <= j < n ==> self.entries@[j].0@ != key@,
            decreases i,
        {
            i = i - 1;
            if self.entries[i].0 == owned {
                proof {
                    lemma_entry_list_found(self.entries@, key@, i as int);
                }
                return Some(&self.entries[i].1);
            }
        }
        proof {
            lemma_entry_list_absent(self.entries@, key@);
        }
        None
    }

    /// The entries in insertion order.
    pub fn entries(&self) -> (r: &Vec<(String, String)>)
        ensures
            r@ == self.spec_entries(),
    {
        &self.entries
    }
}

impl Clone for StringMap {
    /// The copy has the same entries, and therefore the same view.
    fn clone(&self) -> (r: Self)
        ensures
            r@ == self@,
            r.spec_entries() == self.spec_entries(),
    {
        let mut entries: Vec<(String, String)> = Vec::new();
        let mut i: usize = 0;
        while i < self.entries.len()
            invariant
                i <= self.entries@.len(),
                entries@.len() == i,
                forall|j: int| 0 <= j < i ==> entries@[j] == self.entries@[j],
            decreases self.entries@.len() - i,
        {
            let k = self.entries[i].0.clone();
            let v = self.entries[i].1.clone();
            entries.push((k, v));
            i = i + 1;
        }
        proof {
            assert(entries@ =~= self.entries@);
        }
        StringMap { entries }
    }
}

/// If index `i` holds `key` and no later entry does, the lookup of `key` in
/// the described map gives the value at `i`.
proof fn lemma_entry_list_found(entries: Seq<(String, String)>, key: Seq<char>, i: int)
    requires
        0 <= i < entries.len(),
        entries[i].0@ == key,
        forall|j: int| i < j < entries.len() ==> entries[j].0@ != key,
    ensures
        entry_list_map(entries).contains_key(key),
        entry_list_map(entries)[key] == entries[i].1@,
    decreases entries.len(),
{
    if i < entries.len() - 1 {
        lemma_entry_list_found(entries.drop_last(), key, i);
    }
}

/// A key held by no entry is absent from the described map.
proof fn lemma_entry_list_absent(entries: Seq<(String, String)>, key: Seq<char>)
    requires
        forall|j: int| 0 <= j < entries.len() ==> entries[j].0@ != key,
    ensures
        !entry_list_map(entries).contains_key(key),
    decreases entries.len(),
{
    if entries.len() > 0 {
        lemma_entry_list_absent(entries.drop_last(), key);
    }
}

} // verus!
