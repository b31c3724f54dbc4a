//! Response-header lists and how a route's headers override its
//! controller's.

use crate::assoc::find_name;
use crate::assoc::upsert;
use crate::assoc::upsert_all;
use vstd::prelude::*;

verus! {

/// The headers a response carries where the controller declares `base` and
/// the route declares `overrides`: every pair is written in turn, first
/// the controller's and then the route's, so that the last write of a name
/// decides its value and the first write its place.
pub open spec fn merged_headers(
    base: Seq<(Seq<char>, Seq<char>)>,
    overrides: Seq<(Seq<char>, Seq<char>)>,
) -> Seq<(Seq<char>, Seq<char>)> {
    upsert_all(upsert_all(Seq::empty(), base), overrides)
}

/// The content type of a response: the route's where it declares one, else
/// the controller's.
pub open spec fn merged_content_type(
    base: Option<Seq<char>>,
    overriding: Option<Seq<char>>,
) -> Option<Seq<char>> {
    match overriding {
        Some(t) => Some(t),
        None => base,
    }
}

/// Writes every pair of `pairs` into `acc`, first to last.
pub fn write_headers(acc: &mut Vec<(String, String)>, pairs: &Vec<(String, String)>)
    ensures
        final(acc).deep_view() == upsert_all(old(acc).deep_view(), pairs.deep_view()),
{
    let ghost start = acc.deep_view();
    let ghost ps = pairs.deep_view();
    let mut i: usize = 0;
    while i < pairs.len()
        invariant
            i <= pairs.len(),
            ps == pairs.deep_view(),
            acc.deep_view() == upsert_all(start, ps.take(i as int)),
        decreases pairs.len() - i,
    {
        assert(ps.take(i + 1).drop_last() =~= ps.take(i as int));
        let name = pairs[i].0.clone();
        let value = pairs[i].1.clone();
        let ghost before = acc.deep_view();
        match find_name(acc, &name) {
            Some(k) => {
                acc.set(k, (name, value));
                assert(acc.deep_view() =~= before.update(k as int, (name@, value@)));
            },
            None => {
                acc.push((name, value));
                assert(acc.deep_view() =~= before.push((name@, value@)));
            },
        }
        assert(acc.deep_view() == upsert(before, ps[i as int].0, ps[i as int].1));
        i += 1;
    }
    assert(ps.take(i as int) =~= ps);
}

/// The headers of a response: the controller's, overridden by the route's.
pub fn merge_headers(base: &Vec<(String, String)>, overrides: &Vec<(String, String)>) -> (merged:
    Vec<(String, String)>)
    ensures
        merged.deep_view() == merged_headers(base.deep_view(), overrides.deep_view()),
{
    let mut merged: Vec<(String, String)> = Vec::new();
    assert(merged.deep_view() =~= Seq::<(Seq<char>, Seq<char>)>::empty());
    write_headers(&mut merged, base);
    write_headers(&mut merged, overrides);
    merged
}

/// The content type of a response: the route's where it has one, else the
/// controller's.
pub fn merge_content_type(base: &Option<String>, overriding: &Option<String>) -> (merged: Option<
    String,
>)
    ensures
        merged.deep_view() == merged_content_type(base.deep_view(), overriding.deep_view()),
{
    match overriding {
        Some(t) => Some(t.clone()),
        None => match base {
            Some(b) => Some(b.clone()),
            None => None,
        },
    }
}

} // verus!
