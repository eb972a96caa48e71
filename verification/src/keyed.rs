//! Lists of named values in which no name occurs twice.
use crate::text;
use vstd::prelude::*;

verus! {

/// The names of a list, in its order.
pub open spec fn names_of<V>(entries: Seq<(String, V)>) -> Seq<Seq<char>> {
    entries.map_values(|e: (String, V)| e.0@)
}

/// The list with the name at its end, unless it is listed already.
pub open spec fn listed(names: Seq<Seq<char>>, name: Seq<char>) -> Seq<Seq<char>> {
    if names.contains(name) {
        names
    } else {
        names.push(name)
    }
}

/// The values by their names.
pub open spec fn map_of<V>(entries: Seq<(String, V)>) -> Map<Seq<char>, V> {
    Map::new(
        |name: Seq<char>| names_of(entries).contains(name),
        |name: Seq<char>| entries[names_of(entries).index_of(name)].1,
    )
}

/// Where a name stands in a list.
pub(crate) fn position<V>(entries: &Vec<(String, V)>, name: &str) -> (res: Option<usize>)
    requires
        names_of(entries@).no_duplicates(),
    ensures
        match res {
            Some(i) => {
                &&& i < entries@.len()
                &&& names_of(entries@)[i as int] == name@
                &&& map_of(entries@).contains_key(name@)
                &&& map_of(entries@)[name@] == entries@[i as int].1
            },
            None => !map_of(entries@).contains_key(name@),
        },
{
    let mut i: usize = 0;
    while i < entries.len()
        invariant
            i <= entries@.len(),
            names_of(entries@).no_duplicates(),
            forall|k: int| 0 <= k < i ==> names_of(entries@)[k] != name@,
        decreases entries@.len() - i,
    {
        if text::same(entries[i].0.as_str(), name) {
            proof {
                let names = names_of(entries@);
                assert(names[i as int] == name@);
                assert(names.contains(name@));
                assert(names.index_of(name@) == i);
            }
            return Some(i);
        }
        i = i + 1;
    }
    None
}

/// Names a value, in place of one that had the name before.
pub(crate) fn put<V>(entries: &mut Vec<(String, V)>, name: String, value: V)
    requires
        names_of(old(entries)@).no_duplicates(),
    ensures
        names_of(final(entries)@).no_duplicates(),
        names_of(final(entries)@) == listed(names_of(old(entries)@), name@),
        map_of(final(entries)@) == map_of(old(entries)@).insert(name@, value),
{
    let ghost before = entries@;
    let ghost id = name@;
    let ghost names = names_of(before);
    match position(&*entries, name.as_str()) {
        Some(i) => {
            entries.set(i, (name, value));
            proof {
                assert(names_of(entries@) =~= names);
                assert forall|s: Seq<char>| names.contains(s) implies map_of(entries@)[s] == map_of(
                    before,
                ).insert(id, value)[s] by {
                    let k = names.index_of(s);
                    assert(names[k] == s);
                    assert(names[i as int] == id);
                    assert((s == id) == (k == i));
                }
                assert(map_of(entries@) =~= map_of(before).insert(id, value));
            }
        },
        None => {
            entries.push((name, value));
            proof {
                let now = names_of(entries@);
                assert(now =~= names.push(id));
                assert forall|i: int, j: int|
                    0 <= i < now.len() && 0 <= j < now.len() && i != j implies now[i] != now[j] by {
                    if i < names.len() {
                        assert(names.contains(names[i]));
                    }
                    if j < names.len() {
                        assert(names.contains(names[j]));
                    }
                }
                assert forall|s: Seq<char>| now.contains(s) implies now.index_of(s) == (if s == id {
                    names.len() as int
                } else {
                    names.index_of(s)
                }) && (s != id ==> names.contains(s)) by {
                    let k = now.index_of(s);
                    assert(now[k] == s);
                    if s == id {
                        assert(now[names.len() as int] == s);
                    } else {
                        assert(names[k] == s);
                    }
                }
                assert forall|s: Seq<char>| names.contains(s) || s == id implies now.contains(s) by {
                    let k = if s == id {
                        names.len() as int
                    } else {
                        names.index_of(s)
                    };
                    assert(now[k] == s);
                }
                assert(map_of(entries@) =~= map_of(before).insert(id, value));
            }
        },
    }
}

} // verus!
