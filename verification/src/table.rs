//! A small text-keyed map kept as a list of entries, where a later entry for a
//! key replaces an earlier one.

use vstd::prelude::*;

verus! {

/// One key with what it maps to.
#[derive(Debug, Clone, PartialEq, Eq)]
pub struct Entry<T> {
    pub key: String,
    pub value: T,
}

/// The map that a list of entries stands for: entries are applied in order, so
/// the last entry of a key decides.
pub open spec fn entries_map<T: View>(entries: Seq<Entry<T>>) -> Map<Seq<char>, T::V>
    decreases entries.len(),
{
    if entries.len() == 0 {
        Map::empty()
    } else {
        entries_map(entries.drop_last()).insert(entries.last().key@, entries.last().value@)
    }
}

/// If `at` is the last position that holds `key`, the map gives that entry's value.
pub proof fn lemma_last_entry_decides<T: View>(entries: Seq<Entry<T>>, key: Seq<char>, at: int)
    requires
        0 <= at < entries.len(),
        entries[at].key@ == key,
        forall|j: int| at < j < entries.len() ==> entries[j].key@ != key,
    ensures
        entries_map(entries).contains_key(key),
        entries_map(entries)[key] == entries[at].value@,
    decreases entries.len(),
{
    if at < entries.len() - 1 {
        let front = entries.drop_last();
        assert(entries.last().key@ != key);
        assert forall|j: int| at < j < front.len() implies front[j].key@ != key by {
            assert(front[j] == entries[j]);
        }
        lemma_last_entry_decides(front, key, at);
    }
}

/// If no position holds `key`, the map has no such key.
pub proof fn lemma_no_entry_no_key<T: View>(entries: Seq<Entry<T>>, key: Seq<char>)
    requires
        forall|j: int| 0 <= j < entries.len() ==> entries[j].key@ != key,
    ensures
        !entries_map(entries).contains_key(key),
    decreases entries.len(),
{
    if entries.len() > 0 {
        let front = entries.drop_last();
        assert(entries.last().key@ != key);
        assert forall|j: int| 0 <= j < front.len() implies front[j].key@ != key by {
            assert(front[j] == entries[j]);
        }
        lemma_no_entry_no_key(front, key);
    }
}

/// The entry that decides `key`, searching from the newest entry back.
pub fn find<'a, T: View>(entries: &'a Vec<Entry<T>>, key: &str) -> (found: Option<&'a T>)
    ensures
        match found {
            Some(value) => entries_map(entries@).contains_key(key@) && entries_map(
                entries@,
            )[key@] == value@,
            None => !entries_map(entries@).contains_key(key@),
        },
{
    let wanted = key.to_owned();
    let mut i: usize = entries.len();
    while i > 0
        invariant
            i <= entries.len(),
            wanted@ == key@,
            forall|j: int| i <= j < entries.len() ==> entries[j].key@ != key@,
        decreases i,
    {
        i = i - 1;
        if entries[i].key == wanted {
            proof {
                lemma_last_entry_decides(entries@, key@, i as int);
            }
            return Some(&entries[i].value);
        }
    }
    proof {
        lemma_no_entry_no_key(entries@, key@);
    }
    None
}

} // verus!
