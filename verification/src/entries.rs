//! A small association-list core: a vector of string-keyed entries viewed as
//! a map in which a later binding for a key overrides an earlier one. Both
//! the parameter bag and the cookie manager are built on it.

use vstd::prelude::*;

verus! {

/// The map abstraction of an entry list: later entries win.
pub open spec fn entry_map<V>(s: Seq<(String, V)>) -> Map<Seq<char>, V>
    decreases s.len(),
{
    if s.len() == 0 {
        Map::empty()
    } else {
        entry_map(s.drop_last()).insert(s.last().0@, s.last().1)
    }
}

/// Entries at positions `i` and beyond bind none of them key `k`, so the map
/// of the whole list agrees at `k` with the map of the prefix before `i`.
pub proof fn lemma_entry_map_skip<V>(s: Seq<(String, V)>, i: int, k: Seq<char>)
    requires
        0 <= i <= s.len(),
        forall|j: int| i <= j < s.len() ==> (#[trigger] s[j]).0@ != k,
    ensures
        entry_map(s).contains_key(k) == entry_map(s.subrange(0, i)).contains_key(k),
        entry_map(s).contains_key(k) ==> entry_map(s)[k] == entry_map(s.subrange(0, i))[k],
    decreases s.len() - i,
{
    if i == s.len() {
        assert(s.subrange(0, i) =~= s);
    } else {
        let shorter = s.drop_last();
        assert(entry_map(s) == entry_map(shorter).insert(s.last().0@, s.last().1));
        assert(s.last().0@ != k);
        lemma_entry_map_skip(shorter, i, k);
        assert(shorter.subrange(0, i) =~= s.subrange(0, i));
    }
}

/// Looks up the latest binding of `key`, scanning from the most recent entry.
pub fn entry_get<'a, V>(entries: &'a Vec<(String, V)>, key: &str) -> (r: Option<&'a V>)
    ensures
        match r {
            Some(v) => entry_map(entries@).contains_key(key@) && *v == entry_map(entries@)[key@],
            None => !entry_map(entries@).contains_key(key@),
        },
{
    let mut i: usize = entries.len();
    while i > 0
        invariant
            i <= entries@.len(),
            forall|j: int| i <= j < entries@.len() ==> (#[trigger] entries@[j]).0@ != key@,
        decreases i,
    {
        let e = &entries[i - 1];
        if crate::text::str_eq(e.0.as_str(), key) {
            proof {
                lemma_entry_map_skip(entries@, i as int, key@);
                let prefix = entries@.subrange(0, i as int);
                assert(prefix.len() == i);
                assert(prefix.drop_last() =~= entries@.subrange(0, i - 1));
                assert(prefix.last() == entries@[i - 1]);
                assert(entry_map(prefix) == entry_map(prefix.drop_last()).insert(
                    entries@[i - 1].0@,
                    entries@[i - 1].1,
                ));
            }
            return Some(&e.1);
        }
        i = i - 1;
    }
    proof {
        lemma_entry_map_skip(entries@, 0, key@);
        assert(entries@.subrange(0, 0) =~= Seq::<(String, V)>::empty());
    }
    None
}

/// Appending an entry updates the map view like an insertion.
pub proof fn lemma_entry_map_push<V>(s: Seq<(String, V)>, e: (String, V))
    ensures
        entry_map(s.push(e)) == entry_map(s).insert(e.0@, e.1),
{
    assert(s.push(e).drop_last() =~= s);
    assert(s.push(e).last() == e);
}

} // verus!
