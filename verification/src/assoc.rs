//! Lists of named values, in insertion order.
//!
//! Extractor maps and response-header lists are both lists of
//! `(name, value)` pairs. A list whose names are pairwise different stands
//! for a finite map; writing a name that is already there replaces its value
//! in place.

use vstd::prelude::*;

verus! {

/// The first position of `name` in `es`, if it occurs.
pub open spec fn index_of<V>(es: Seq<(Seq<char>, V)>, name: Seq<char>) -> Option<int>
    decreases es.len(),
{
    if es.len() == 0 {
        None
    } else {
        match index_of(es.drop_last(), name) {
            Some(i) => Some(i),
            None => if es.last().0 == name {
                Some(es.len() - 1)
            } else {
                None
            },
        }
    }
}

/// The value under the first occurrence of `name`.
pub open spec fn lookup<V>(es: Seq<(Seq<char>, V)>, name: Seq<char>) -> Option<V> {
    match index_of(es, name) {
        Some(i) => Some(es[i].1),
        None => None,
    }
}

/// The value under the last occurrence of `name`.
pub open spec fn last_value<V>(es: Seq<(Seq<char>, V)>, name: Seq<char>) -> Option<V>
    decreases es.len(),
{
    if es.len() == 0 {
        None
    } else if es.last().0 == name {
        Some(es.last().1)
    } else {
        last_value(es.drop_last(), name)
    }
}

/// No name occurs twice.
pub open spec fn distinct_names<V>(es: Seq<(Seq<char>, V)>) -> bool {
    forall|i: int, j: int| 0 <= i < j < es.len() ==> es[i].0 != es[j].0
}

/// `es` after writing `value` under `name`: in place where the name is
/// there, at the end where it is new.
pub open spec fn upsert<V>(es: Seq<(Seq<char>, V)>, name: Seq<char>, value: V) -> Seq<
    (Seq<char>, V),
> {
    match index_of(es, name) {
        Some(i) => es.update(i, (name, value)),
        None => es.push((name, value)),
    }
}

/// `acc` after writing every pair of `es`, first to last.
pub open spec fn upsert_all<V>(acc: Seq<(Seq<char>, V)>, es: Seq<(Seq<char>, V)>) -> Seq<
    (Seq<char>, V),
>
    decreases es.len(),
{
    if es.len() == 0 {
        acc
    } else {
        upsert(upsert_all(acc, es.drop_last()), es.last().0, es.last().1)
    }
}

/// The finite map that a list stands for.
pub open spec fn as_map<V>(es: Seq<(Seq<char>, V)>) -> Map<Seq<char>, V> {
    Map::new(|n: Seq<char>| lookup(es, n) is Some, |n: Seq<char>| lookup(es, n)->0)
}

/// What `index_of` finds is the first position of the name.
pub proof fn lemma_index_of<V>(es: Seq<(Seq<char>, V)>, name: Seq<char>)
    ensures
        match index_of(es, name) {
            Some(i) => 0 <= i < es.len() && es[i].0 == name && forall|j: int|
                0 <= j < i ==> es[j].0 != name,
            None => forall|j: int| 0 <= j < es.len() ==> es[j].0 != name,
        },
    decreases es.len(),
{
    if es.len() > 0 {
        let front = es.drop_last();
        lemma_index_of(front, name);
        assert(forall|j: int| 0 <= j < front.len() ==> front[j] == es[j]);
    }
}

/// A position that holds `name`, with no earlier one that does, is what
/// `index_of` finds.
pub proof fn lemma_index_of_is<V>(es: Seq<(Seq<char>, V)>, name: Seq<char>, i: int)
    requires
        0 <= i < es.len(),
        es[i].0 == name,
        forall|j: int| 0 <= j < i ==> es[j].0 != name,
    ensures
        index_of(es, name) == Some(i),
{
    lemma_index_of(es, name);
}

/// Where no position holds `name`, `index_of` finds none.
pub proof fn lemma_index_of_none<V>(es: Seq<(Seq<char>, V)>, name: Seq<char>)
    requires
        forall|j: int| 0 <= j < es.len() ==> es[j].0 != name,
    ensures
        index_of(es, name) is None,
{
    lemma_index_of(es, name);
}

/// Writing a name changes what is found under that name and nothing else.
pub proof fn lemma_lookup_upsert<V>(
    es: Seq<(Seq<char>, V)>,
    name: Seq<char>,
    value: V,
    other: Seq<char>,
)
    ensures
        lookup(upsert(es, name, value), other) == if other == name {
            Some(value)
        } else {
            lookup(es, other)
        },
{
    let after = upsert(es, name, value);
    lemma_index_of(es, name);
    lemma_index_of(es, other);
    match index_of(es, name) {
        Some(i) => {
            if other == name {
                lemma_index_of_is(after, other, i);
            } else {
                match index_of(es, other) {
                    Some(k) => {
                        lemma_index_of_is(after, other, k);
                    },
                    None => {
                        lemma_index_of_none(after, other);
                    },
                }
            }
        },
        None => {
            if other == name {
                lemma_index_of_is(after, other, es.len() as int);
            } else {
                match index_of(es, other) {
                    Some(k) => {
                        lemma_index_of_is(after, other, k);
                    },
                    None => {
                        lemma_index_of_none(after, other);
                    },
                }
            }
        },
    }
}

/// Writing a name keeps the names pairwise different.
pub proof fn lemma_upsert_distinct<V>(es: Seq<(Seq<char>, V)>, name: Seq<char>, value: V)
    requires
        distinct_names(es),
    ensures
        distinct_names(upsert(es, name, value)),
{
    lemma_index_of(es, name);
}

/// Writing a list of pairs into a list of distinct names gives distinct
/// names.
pub proof fn lemma_upsert_all_distinct<V>(acc: Seq<(Seq<char>, V)>, es: Seq<(Seq<char>, V)>)
    requires
        distinct_names(acc),
    ensures
        distinct_names(upsert_all(acc, es)),
    decreases es.len(),
{
    if es.len() > 0 {
        lemma_upsert_all_distinct(acc, es.drop_last());
        lemma_upsert_distinct(upsert_all(acc, es.drop_last()), es.last().0, es.last().1);
    }
}

/// After writing a list of pairs, a name holds the value of its last write,
/// or what it held before where the list does not name it.
pub proof fn lemma_lookup_upsert_all<V>(
    acc: Seq<(Seq<char>, V)>,
    es: Seq<(Seq<char>, V)>,
    name: Seq<char>,
)
    ensures
        lookup(upsert_all(acc, es), name) == match last_value(es, name) {
            Some(v) => Some(v),
            None => lookup(acc, name),
        },
    decreases es.len(),
{
    if es.len() > 0 {
        lemma_lookup_upsert_all(acc, es.drop_last(), name);
        lemma_lookup_upsert(upsert_all(acc, es.drop_last()), es.last().0, es.last().1, name);
    }
}

/// In a list of distinct names, the last value under a name is the value
/// of the one pair that has the name.
pub proof fn lemma_last_value_distinct<V>(es: Seq<(Seq<char>, V)>, name: Seq<char>)
    requires
        distinct_names(es),
    ensures
        match last_value(es, name) {
            Some(v) => es.contains((name, v)),
            None => forall|j: int| 0 <= j < es.len() ==> es[j].0 != name,
        },
        forall|v: V| es.contains((name, v)) ==> last_value(es, name) == Some(v),
    decreases es.len(),
{
    if es.len() > 0 {
        let front = es.drop_last();
        let last = es.len() - 1;
        assert(forall|j: int| 0 <= j < front.len() ==> front[j] == es[j]);
        assert(distinct_names(front));
        lemma_last_value_distinct(front, name);
        if es.last().0 == name {
            assert(es[last] == (name, es.last().1));
            assert forall|v: V| es.contains((name, v)) implies last_value(es, name) == Some(
                v,
            ) by {
                let k = choose|k: int| 0 <= k < es.len() && es[k] == (name, v);
                if k < last {
                    assert(es[k].0 == es[last].0);
                }
            }
        } else {
            match last_value(front, name) {
                Some(v) => {
                    assert(front.contains((name, v)));
                    let k = choose|k: int| 0 <= k < front.len() && front[k] == (name, v);
                    assert(es[k] == (name, v));
                },
                None => {
                    assert forall|j: int| 0 <= j < es.len() implies es[j].0 != name by {
                        if j < last {
                            assert(front[j] == es[j]);
                        }
                    }
                },
            }
            assert forall|v: V| es.contains((name, v)) implies last_value(es, name) == Some(
                v,
            ) by {
                let k = choose|k: int| 0 <= k < es.len() && es[k] == (name, v);
                assert(k < last);
                assert(front[k] == (name, v));
                assert(front.contains((name, v)));
            }
        }
    }
}

/// The position of `name` among the entries of `v`.
pub fn find_name<V: DeepView>(v: &Vec<(String, V)>, name: &String) -> (r: Option<usize>)
    ensures
        match r {
            Some(i) => index_of(v.deep_view(), name@) == Some(i as int) && i < v.len(),
            None => index_of(v.deep_view(), name@) is None,
        },
{
    let mut i: usize = 0;
    while i < v.len()
        invariant
            i <= v.len(),
            forall|j: int| 0 <= j < i ==> v.deep_view()[j].0 != name@,
        decreases v.len() - i,
    {
        if v[i].0 == *name {
            proof {
                lemma_index_of_is(v.deep_view(), name@, i as int);
            }
            return Some(i);
        }
        i += 1;
    }
    proof {
        lemma_index_of_none(v.deep_view(), name@);
    }
    None
}

} // verus!
