//! Key/value lists (container labels, environment maps) and lookups in them.
use vstd::prelude::*;
use crate::text::str_eq;

verus! {

/// The value of the first entry of `entries` with key `key`.
pub open spec fn lookup(entries: Seq<(String, String)>, key: Seq<char>) -> Option<Seq<char>>
    decreases entries.len(),
{
    if entries.len() == 0 {
        None
    } else if entries[0].0@ == key {
        Some(entries[0].1@)
    } else {
        lookup(entries.drop_first(), key)
    }
}

/// The entries of `entries` seen as a map: a later entry for a key replaces an
/// earlier one.
pub open spec fn as_map(entries: Seq<(String, String)>) -> Map<Seq<char>, Seq<char>>
    decreases entries.len(),
{
    if entries.len() == 0 {
        Map::empty()
    } else {
        as_map(entries.drop_last()).insert(entries.last().0@, entries.last().1@)
    }
}

/// No key occurs twice in `entries`.
pub open spec fn distinct_keys(entries: Seq<(String, String)>) -> bool {
    forall|i: int, j: int|
        0 <= i < entries.len() && 0 <= j < entries.len() && i != j ==> (#[trigger] entries[i]).0@
            != (#[trigger] entries[j]).0@
}

/// The value of the first entry with key `key`, cloned.
pub fn find_value(entries: &Vec<(String, String)>, key: &str) -> (r: Option<String>)
    ensures
        match r {
            Some(v) => lookup(entries@, key@) == Some(v@),
            None => lookup(entries@, key@) is None,
        },
{
    let mut i: usize = 0;
    proof {
        assert(entries@.subrange(0, entries@.len() as int) =~= entries@);
    }
    while i < entries.len()
        invariant
            i <= entries.len(),
            lookup(entries@, key@) == lookup(entries@.subrange(i as int, entries@.len() as int), key@),
        decreases entries.len() - i,
    {
        let ghost rest = entries@.subrange(i as int, entries@.len() as int);
        proof {
            assert(rest[0] == entries@[i as int]);
            assert(rest.drop_first() =~= entries@.subrange(i + 1, entries@.len() as int));
        }
        if str_eq(entries[i].0.as_str(), key) {
            return Some(entries[i].1.clone());
        }
        i = i + 1;
    }
    proof {
        assert(entries@.subrange(i as int, entries@.len() as int).len() == 0);
    }
    None
}

/// Index of the entry with key `key` in `entries`, if any.
pub fn position_of_key(entries: &Vec<(String, String)>, key: &str) -> (r: Option<usize>)
    ensures
        r matches Some(i) ==> i < entries@.len() && entries@[i as int].0@ == key@,
        r is None ==> forall|j: int| 0 <= j < entries@.len() ==> (#[trigger] entries@[j]).0@ != key@,
{
    let mut i: usize = 0;
    while i < entries.len()
        invariant
            i <= entries.len(),
            forall|j: int| 0 <= j < i ==> (#[trigger] entries@[j]).0@ != key@,
        decreases entries.len() - i,
    {
        if str_eq(entries[i].0.as_str(), key) {
            return Some(i);
        }
        i = i + 1;
    }
    None
}

proof fn lemma_map_of_distinct_update(entries: Seq<(String, String)>, i: int, v: (String, String))
    requires
        0 <= i < entries.len(),
        distinct_keys(entries),
        v.0@ == entries[i].0@,
    ensures
        as_map(entries.update(i, v)) == as_map(entries).insert(v.0@, v.1@),
        distinct_keys(entries.update(i, v)),
    decreases entries.len(),
{
    let up = entries.update(i, v);
    assert forall|a: int, b: int|
        0 <= a < up.len() && 0 <= b < up.len() && a != b implies (#[trigger] up[a]).0@
        != (#[trigger] up[b]).0@ by {
        assert(entries[a].0@ != entries[b].0@);
    }
    if i == entries.len() - 1 {
        assert(up.drop_last() =~= entries.drop_last());
        assert(as_map(up) == as_map(entries.drop_last()).insert(v.0@, v.1@));
        assert(as_map(up) =~= as_map(entries).insert(v.0@, v.1@));
    } else {
        let init = entries.drop_last();
        assert forall|a: int, b: int|
            0 <= a < init.len() && 0 <= b < init.len() && a != b implies (#[trigger] init[a]).0@
            != (#[trigger] init[b]).0@ by {
            assert(entries[a].0@ != entries[b].0@);
        }
        lemma_map_of_distinct_update(init, i, v);
        assert(up.drop_last() =~= init.update(i, v));
        assert(up.last() == entries.last());
        assert(entries.last().0@ != v.0@) by {
            assert(entries[entries.len() - 1].0@ != entries[i].0@);
        }
        assert(as_map(up) =~= as_map(entries).insert(v.0@, v.1@));
    }
}

/// Sets `key` to `value`: replaces the entry with that key, or appends one.
pub fn set_entry(entries: &mut Vec<(String, String)>, key: String, value: String)
    requires
        distinct_keys(old(entries)@),
    ensures
        distinct_keys(final(entries)@),
        as_map(final(entries)@) == as_map(old(entries)@).insert(key@, value@),
{
    match position_of_key(entries, key.as_str()) {
        Some(i) => {
            proof {
                lemma_map_of_distinct_update(entries@, i as int, (key, value));
            }
            entries.set(i, (key, value));
        },
        None => {
            let ghost before = entries@;
            entries.push((key, value));
            proof {
                assert(entries@.drop_last() =~= before);
                assert forall|a: int, b: int|
                    0 <= a < entries@.len() && 0 <= b < entries@.len() && a != b implies (
                    #[trigger] entries@[a]).0@ != (#[trigger] entries@[b]).0@ by {
                    if a < before.len() && b < before.len() {
                        assert(before[a].0@ != before[b].0@);
                    } else if a < before.len() {
                        assert(before[a].0@ != key@);
                    } else if b < before.len() {
                        assert(before[b].0@ != key@);
                    }
                }
            }
        },
    }
}

/// The map of a list of entries is finite.
pub proof fn lemma_as_map_finite(entries: Seq<(String, String)>)
    ensures
        as_map(entries).dom().finite(),
    decreases entries.len(),
{
    if entries.len() > 0 {
        lemma_as_map_finite(entries.drop_last());
    }
}

} // verus!
