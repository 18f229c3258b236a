//! Values kept by a string id: a list of `(id, value)` pairs in which no id
//! occurs twice, read as a map from ids to values.
//!
//! This stands where a `HashMap<String, V>` would: vstd models a hash map only
//! for keys that obey its key model, which it gives for primitive keys and not
//! for `String`, and claiming it for `String` would take an assumption.
use vstd::prelude::*;

verus! {

/// Some pair of `entries` has the id `key`.
pub open spec fn has_key<V>(entries: Seq<(String, V)>, key: Seq<char>) -> bool {
    exists|i: int| 0 <= i < entries.len() && (#[trigger] entries[i]).0@ == key
}

/// No id occurs twice in `entries`.
pub open spec fn unique_keys<V>(entries: Seq<(String, V)>) -> bool {
    forall|i: int, j: int|
        0 <= i < entries.len() && 0 <= j < entries.len() && i != j ==> (#[trigger] entries[i]).0@
            != (#[trigger] entries[j]).0@
}

/// The map from each id of `entries` to the value paired with it.
pub open spec fn keyed_map<V>(entries: Seq<(String, V)>) -> Map<Seq<char>, V> {
    Map::new(
        |k: Seq<char>| has_key(entries, k),
        |k: Seq<char>| entries[choose|i: int| 0 <= i < entries.len() && (#[trigger] entries[i]).0@ == k].1,
    )
}

/// In a list without repeated ids, the map pairs the id at `i` with the value at `i`.
pub proof fn lemma_keyed_map_at<V>(entries: Seq<(String, V)>, i: int)
    requires
        unique_keys(entries),
        0 <= i < entries.len(),
    ensures
        keyed_map(entries).contains_key(entries[i].0@),
        keyed_map(entries)[entries[i].0@] == entries[i].1,
{
    let k = entries[i].0@;
    assert(has_key(entries, k));
    let j = choose|j: int| 0 <= j < entries.len() && (#[trigger] entries[j]).0@ == k;
    assert(j == i);
}

/// The index of the pair with id `key`, if there is one.
pub fn find_key<V>(entries: &Vec<(String, V)>, key: &str) -> (idx: Option<usize>)
    ensures
        match idx {
            Some(i) => i < entries@.len() && entries@[i as int].0@ == key@,
            None => !has_key(entries@, key@),
        },
{
    let wanted = key.to_owned();
    let n = entries.len();
    for i in 0..n
        invariant
            n == entries@.len(),
            wanted@ == key@,
            forall|j: int| 0 <= j < i ==> (#[trigger] entries@[j]).0@ != key@,
    {
        if entries[i].0 == wanted {
            return Some(i);
        }
    }
    None
}

/// The value paired with `key`, if any.
pub fn get_keyed<'a, V>(entries: &'a Vec<(String, V)>, key: &str) -> (value: Option<&'a V>)
    requires
        unique_keys(entries@),
    ensures
        match value {
            Some(v) => keyed_map(entries@).contains_key(key@) && *v == keyed_map(entries@)[key@],
            None => !keyed_map(entries@).contains_key(key@),
        },
{
    match find_key(entries, key) {
        Some(i) => {
            proof { lemma_keyed_map_at(entries@, i as int); }
            Some(&entries[i].1)
        },
        None => None,
    }
}

/// A mutable reference to the value paired with `key`, if any: what is written
/// through it becomes the value of `key`, and nothing else changes.
pub fn get_keyed_mut<'a, V>(entries: &'a mut Vec<(String, V)>, key: &str) -> (value: Option<&'a mut V>)
    requires
        unique_keys(old(entries)@),
    ensures
        value is Some <==> keyed_map(old(entries)@).contains_key(key@),
        value is Some ==> {
            &&& *value.unwrap() == keyed_map(old(entries)@)[key@]
            &&& unique_keys(final(entries)@)
            &&& keyed_map(final(entries)@) == keyed_map(old(entries)@).insert(key@, *final(value.unwrap()))
        },
        value is None ==> final(entries)@ == old(entries)@,
{
    match find_key(entries, key) {
        Some(i) => {
            proof { lemma_keyed_map_at(entries@, i as int); }
            let ghost before = entries@;
            let pair = &mut entries[i];
            let v = &mut pair.1;
            proof {
                let after = before.update(i as int, (before[i as int].0, *final(v)));
                assert(unique_keys(after));
                lemma_update_value(before, i as int, *final(v));
            }
            Some(v)
        },
        None => None,
    }
}

/// Replacing the value at `i` keeps the ids, and the map pairs that id with the new value.
proof fn lemma_update_value<V>(entries: Seq<(String, V)>, i: int, value: V)
    requires
        unique_keys(entries),
        0 <= i < entries.len(),
    ensures
        unique_keys(entries.update(i, (entries[i].0, value))),
        keyed_map(entries.update(i, (entries[i].0, value))) == keyed_map(entries).insert(entries[i].0@, value),
{
    let key = entries[i].0;
    let after = entries.update(i, (key, value));
    assert forall|a: int, b: int|
        0 <= a < after.len() && 0 <= b < after.len() && a != b implies (#[trigger] after[a]).0@
            != (#[trigger] after[b]).0@ by {
        assert(after[a].0 == entries[a].0);
        assert(after[b].0 == entries[b].0);
    }
    let m1 = keyed_map(after);
    let m2 = keyed_map(entries).insert(key@, value);
    assert forall|k: Seq<char>| m1.contains_key(k) <==> m2.contains_key(k) by {
        if has_key(after, k) {
            let j = choose|j: int| 0 <= j < after.len() && (#[trigger] after[j]).0@ == k;
            assert(entries[j].0@ == k);
        }
        if has_key(entries, k) {
            let j = choose|j: int| 0 <= j < entries.len() && (#[trigger] entries[j]).0@ == k;
            assert(after[j].0@ == k);
        }
        if k == key@ {
            assert(after[i].0@ == k);
        }
    }
    assert forall|k: Seq<char>| m1.contains_key(k) implies m1[k] == m2[k] by {
        let j = choose|j: int| 0 <= j < after.len() && (#[trigger] after[j]).0@ == k;
        if k == key@ {
            assert(j == i);
        } else {
            assert(j != i);
            assert(entries[j].0@ == k);
            lemma_keyed_map_at(entries, j);
        }
    }
    assert(m1 =~= m2);
}

/// Pairs `value` with `key`: replaces the value of an id that is there already,
/// adds the pair at the end otherwise.
pub fn insert_keyed<V>(entries: &mut Vec<(String, V)>, key: String, value: V)
    requires
        unique_keys(old(entries)@),
    ensures
        unique_keys(final(entries)@),
        keyed_map(final(entries)@) == keyed_map(old(entries)@).insert(key@, value),
{
    match find_key(entries, key.as_str()) {
        Some(i) => {
            let ghost before = entries@;
            proof { lemma_update_value(before, i as int, value); }
            entries.set(i, (key, value));
            proof {
                assert forall|a: int| 0 <= a < entries@.len() implies (#[trigger] entries@[a]).0@
                    == before.update(i as int, (before[i as int].0, value))[a].0@ by {}
                lemma_same_keys(entries@, before.update(i as int, (before[i as int].0, value)));
            }
        },
        None => {
            let ghost before = entries@;
            entries.push((key, value));
            proof { lemma_push_new_key(before, entries@.last().0, value); }
        },
    }
}

/// Two lists with the same ids at the same places and the same values are read as the same map.
proof fn lemma_same_keys<V>(a: Seq<(String, V)>, b: Seq<(String, V)>)
    requires
        a.len() == b.len(),
        forall|i: int| 0 <= i < a.len() ==> (#[trigger] a[i]).0@ == b[i].0@ && a[i].1 == b[i].1,
        unique_keys(b),
    ensures
        unique_keys(a),
        keyed_map(a) == keyed_map(b),
{
    assert forall|i: int, j: int|
        0 <= i < a.len() && 0 <= j < a.len() && i != j implies (#[trigger] a[i]).0@
            != (#[trigger] a[j]).0@ by {
        assert(a[i].0@ == b[i].0@);
        assert(a[j].0@ == b[j].0@);
    }
    assert forall|k: Seq<char>| #[trigger] has_key(a, k) <==> has_key(b, k) by {
        if has_key(a, k) {
            let j = choose|j: int| 0 <= j < a.len() && (#[trigger] a[j]).0@ == k;
            assert(b[j].0@ == k);
        }
        if has_key(b, k) {
            let j = choose|j: int| 0 <= j < b.len() && (#[trigger] b[j]).0@ == k;
            assert(a[j].0@ == k);
        }
    }
    assert forall|k: Seq<char>| keyed_map(a).contains_key(k) implies keyed_map(a)[k] == keyed_map(b)[k] by {
        let j = choose|j: int| 0 <= j < a.len() && (#[trigger] a[j]).0@ == k;
        lemma_keyed_map_at(a, j);
        lemma_keyed_map_at(b, j);
    }
    assert(keyed_map(a) =~= keyed_map(b));
}

/// Adding a pair whose id is new keeps the ids unique and adds that id to the map.
proof fn lemma_push_new_key<V>(before: Seq<(String, V)>, key: String, value: V)
    requires
        unique_keys(before),
        !has_key(before, key@),
    ensures
        unique_keys(before.push((key, value))),
        keyed_map(before.push((key, value))) == keyed_map(before).insert(key@, value),
{
    let after = before.push((key, value));
    assert forall|a: int, b: int|
        0 <= a < after.len() && 0 <= b < after.len() && a != b implies (#[trigger] after[a]).0@
            != (#[trigger] after[b]).0@ by {
        if a < before.len() {
            assert(after[a] == before[a]);
        }
        if b < before.len() {
            assert(after[b] == before[b]);
        }
    }
    let m1 = keyed_map(after);
    let m2 = keyed_map(before).insert(key@, value);
    assert forall|k: Seq<char>| m1.contains_key(k) <==> m2.contains_key(k) by {
        if has_key(after, k) && k != key@ {
            let j = choose|j: int| 0 <= j < after.len() && (#[trigger] after[j]).0@ == k;
            assert(j < before.len());
            assert(before[j].0@ == k);
        }
        if has_key(before, k) {
            let j = choose|j: int| 0 <= j < before.len() && (#[trigger] before[j]).0@ == k;
            assert(after[j].0@ == k);
        }
        if k == key@ {
            assert(after[before.len() as int].0@ == k);
        }
    }
    assert forall|k: Seq<char>| m1.contains_key(k) implies m1[k] == m2[k] by {
        let j = choose|j: int| 0 <= j < after.len() && (#[trigger] after[j]).0@ == k;
        lemma_keyed_map_at(after, j);
        if k == key@ {
            lemma_keyed_map_at(after, before.len() as int);
        } else {
            assert(j < before.len());
            assert(after[j] == before[j]);
            lemma_keyed_map_at(before, j);
        }
    }
    assert(m1 =~= m2);
}

} // verus!
