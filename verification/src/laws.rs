//! What holds of the compiler for every input.

use crate::assoc::as_map;
use crate::assoc::distinct_names;
use crate::assoc::index_of;
use crate::assoc::last_value;
use crate::assoc::lemma_index_of;
use crate::assoc::lemma_last_value_distinct;
use crate::assoc::lemma_lookup_upsert;
use crate::assoc::lemma_lookup_upsert_all;
use crate::assoc::lemma_upsert_all_distinct;
use crate::assoc::lookup;
use crate::assoc::upsert;
use crate::assoc::upsert_all;
use crate::controller::compiled;
use crate::diagnostics::diagnostic;
use crate::diagnostics::has_error;
use crate::diagnostics::DiagnosticCode;
use crate::diagnostics::DiagnosticView;
use crate::diagnostics::Severity;
use crate::generator::middleware::layered;
use crate::generator::middleware::layers_outside_in;
use crate::generator::router::RouterView;
use crate::generator::wrappers::binding_rank;
use crate::generator::wrappers::own_bindings;
use crate::generator::wrappers::path_binding;
use crate::generator::wrappers::planned_arguments;
use crate::generator::wrappers::planned_bindings;
use crate::generator::wrappers::shared_binding;
use crate::generator::wrappers::state_binding;
use crate::generator::wrappers::BindingView;
use crate::headers::merged_content_type;
use crate::headers::merged_headers;
use crate::parser::extractor_types::body_entries;
use crate::parser::extractor_types::entry_list;
use crate::parser::extractor_types::extractor_diagnostics;
use crate::parser::extractor_types::Capabilities;
use crate::parser::extractor_types::ExtractorType;
use crate::parser::extractor_types::HttpMethod;
use crate::text::ArgumentForm;
use crate::parser::config::config_scan;
use crate::parser::params::declared_names;
use crate::parser::params::orphan_warnings;
use crate::parser::params::param_diagnostics;
use crate::parser::params::param_warnings;
use crate::parser::params::resolved_params;
use crate::parser::params::ParamDeclView;
use crate::parser::params::ParamInfoView;
use crate::parser::route::path_diagnostics;
use crate::parser::route::path_placeholders;
use crate::parser::route::route_path;
use crate::parser::route::placeholder_errors;
use crate::parser::route::unused_path_warnings;
use crate::registry::HandlerDeclView;
use vstd::prelude::*;

verus! {

/// Every placeholder of `path` has a `Path` entry of its name in `es`.
pub open spec fn placeholders_covered(path: Seq<char>, es: Seq<(Seq<char>, ExtractorType)>)
    -> bool {
    forall|n: Seq<char>| #[trigger]
        path_placeholders(path).contains(n) ==> lookup(es, n) == Some(ExtractorType::Path)
}

/// Every `Path` entry of `es` has the name of a placeholder of `path`.
pub open spec fn path_entries_used(path: Seq<char>, es: Seq<(Seq<char>, ExtractorType)>) -> bool {
    forall|i: int|
        0 <= i < es.len() && (#[trigger] es[i]).1 is Path ==> path_placeholders(path).contains(
            es[i].0,
        )
}

/// Some diagnostic of `ds` is fatal and has the subject `subject`.
pub open spec fn names_in_error(ds: Seq<DiagnosticView>, subject: Seq<char>) -> bool {
    exists|k: int|
        0 <= k < ds.len() && (#[trigger] ds[k]).code.spec_severity() == Severity::Error
            && ds[k].subject == subject
}

/// The diagnostics about placeholders are all fatal; there is one that
/// names each placeholder without a `Path` entry, and none where every
/// placeholder has one.
pub proof fn lemma_placeholder_errors(
    names: Seq<Seq<char>>,
    path: Seq<char>,
    es: Seq<(Seq<char>, ExtractorType)>,
)
    ensures
        forall|k: int|
            0 <= k < placeholder_errors(names, path, es).len() ==> (#[trigger] placeholder_errors(
                names,
                path,
                es,
            )[k]).code.spec_severity() == Severity::Error,
        forall|n: Seq<char>| #[trigger]
            names.contains(n) && lookup(es, n) != Some(ExtractorType::Path) ==> names_in_error(
                placeholder_errors(names, path, es),
                n,
            ),
        (forall|n: Seq<char>| #[trigger]
            names.contains(n) ==> lookup(es, n) == Some(ExtractorType::Path))
            ==> placeholder_errors(names, path, es).len() == 0,
    decreases names.len(),
{
    if names.len() > 0 {
        let front = names.drop_last();
        let last = names.last();
        lemma_placeholder_errors(front, path, es);
        let before = placeholder_errors(front, path, es);
        let all = placeholder_errors(names, path, es);
        assert(names[names.len() - 1] == last);
        assert forall|n: Seq<char>| #[trigger]
            names.contains(n) && lookup(es, n) != Some(ExtractorType::Path) implies names_in_error(
            all,
            n,
        ) by {
            let i = choose|i: int| 0 <= i < names.len() && names[i] == n;
            if i < front.len() {
                assert(front[i] == n);
                assert(front.contains(n));
                let k = choose|k: int|
                    0 <= k < before.len() && (#[trigger] before[k]).code.spec_severity()
                        == Severity::Error && before[k].subject == n;
                assert(all[k] == before[k]);
            } else {
                assert(n == last);
                assert(all.len() == before.len() + 1);
                assert(all[before.len() as int].subject == n);
            }
        }
        if forall|n: Seq<char>| #[trigger]
            names.contains(n) ==> lookup(es, n) == Some(ExtractorType::Path) {
            assert(names.contains(last));
            assert forall|n: Seq<char>| #[trigger] front.contains(n) implies lookup(es, n) == Some(
                ExtractorType::Path,
            ) by {
                let i = choose|i: int| 0 <= i < front.len() && front[i] == n;
                assert(names[i] == n);
                assert(names.contains(n));
            }
        }
    }
}

/// The diagnostics about unused `Path` entries are all advisory, and
/// there is none exactly where every `Path` entry names one of `names`.
pub proof fn lemma_unused_path_warnings(
    es: Seq<(Seq<char>, ExtractorType)>,
    names: Seq<Seq<char>>,
    path: Seq<char>,
)
    ensures
        forall|k: int|
            0 <= k < unused_path_warnings(es, names, path).len() ==> (
            #[trigger] unused_path_warnings(es, names, path)[k]).code.spec_severity()
                == Severity::Warning,
        unused_path_warnings(es, names, path).len() == 0 <==> forall|i: int|
            0 <= i < es.len() && (#[trigger] es[i]).1 is Path ==> names.contains(es[i].0),
    decreases es.len(),
{
    if es.len() > 0 {
        let front = es.drop_last();
        lemma_unused_path_warnings(front, names, path);
        assert(forall|i: int| 0 <= i < front.len() ==> front[i] == es[i]);
        assert(es[es.len() - 1] == es.last());
    }
}

/// The validator accepts a route path exactly when every placeholder of
/// the path has a `Path` entry of its name, and each placeholder that has
/// none is named by a fatal diagnostic. It reports nothing at all exactly
/// when, beyond that, every `Path` entry names a placeholder.
pub proof fn law_path_validation(path: Seq<char>, es: Seq<(Seq<char>, ExtractorType)>)
    ensures
        !has_error(path_diagnostics(path, es)) <==> placeholders_covered(path, es),
        forall|n: Seq<char>| #[trigger]
            path_placeholders(path).contains(n) && lookup(es, n) != Some(ExtractorType::Path)
                ==> names_in_error(path_diagnostics(path, es), n),
        path_diagnostics(path, es).len() == 0 <==> placeholders_covered(path, es)
            && path_entries_used(path, es),
{
    let names = path_placeholders(path);
    let errors = placeholder_errors(names, path, es);
    let warnings = unused_path_warnings(es, names, path);
    let all = path_diagnostics(path, es);
    lemma_placeholder_errors(names, path, es);
    lemma_unused_path_warnings(es, names, path);
    assert forall|n: Seq<char>| #[trigger]
        names.contains(n) && lookup(es, n) != Some(ExtractorType::Path) implies names_in_error(
        all,
        n,
    ) by {
        let k = choose|k: int|
            0 <= k < errors.len() && (#[trigger] errors[k]).code.spec_severity() == Severity::Error
                && errors[k].subject == n;
        assert(all[k] == errors[k]);
    }
    if has_error(all) {
        let k = choose|k: int|
            0 <= k < all.len() && all[k].code.spec_severity() == Severity::Error;
        if k >= errors.len() {
            assert(all[k] == warnings[k - errors.len()]);
        }
        assert(errors.len() > 0);
    }
    if !placeholders_covered(path, es) {
        let n = choose|n: Seq<char>| #[trigger]
            names.contains(n) && lookup(es, n) != Some(ExtractorType::Path);
        assert(names_in_error(all, n));
    }
}

/// A route whose placeholders all have their `Path` entry is accepted
/// exactly when it has no other `Path` entries -- left aside the routes
/// that have more `Path` entries than placeholders, which are accepted
/// with a warning.
pub proof fn law_exact_path_entries_are_accepted(
    path: Seq<char>,
    es: Seq<(Seq<char>, ExtractorType)>,
)
    requires
        placeholders_covered(path, es) ==> path_entries_used(path, es),
    ensures
        !has_error(path_diagnostics(path, es)) <==> placeholders_covered(path, es)
            && path_entries_used(path, es),
{
    law_path_validation(path, es);
}

/// An entry of body-consuming kind is among the body entries.
pub proof fn lemma_body_entries_one(es: Seq<(Seq<char>, ExtractorType)>, i: int)
    requires
        0 <= i < es.len(),
        es[i].1.spec_is_body(),
    ensures
        body_entries(es).len() >= 1,
    decreases es.len(),
{
    if i < es.len() - 1 {
        assert(es.drop_last()[i] == es[i]);
        lemma_body_entries_one(es.drop_last(), i);
    }
}

/// Two entries of body-consuming kind are both among the body entries.
pub proof fn lemma_body_entries_two(es: Seq<(Seq<char>, ExtractorType)>, i: int, j: int)
    requires
        0 <= i < j < es.len(),
        es[i].1.spec_is_body(),
        es[j].1.spec_is_body(),
    ensures
        body_entries(es).len() >= 2,
    decreases es.len(),
{
    let front = es.drop_last();
    assert(front[i] == es[i]);
    if j < es.len() - 1 {
        assert(front[j] == es[j]);
        lemma_body_entries_two(front, i, j);
    } else {
        lemma_body_entries_one(front, i);
    }
}

/// An extractor map that gives two different names a body-consuming kind
/// is rejected with the one fatal diagnostic of multiple body extractors,
/// in whatever order its entries stand.
pub proof fn law_two_body_extractors_are_fatal(
    es: Seq<(Seq<char>, ExtractorType)>,
    method: HttpMethod,
    caps: Capabilities,
    a: Seq<char>,
    b: Seq<char>,
)
    requires
        a != b,
        lookup(es, a) is Some && lookup(es, a)->0.spec_is_body(),
        lookup(es, b) is Some && lookup(es, b)->0.spec_is_body(),
    ensures
        extractor_diagnostics(es, method, caps) == seq![
            diagnostic(
                DiagnosticCode::MultipleBodyExtractors,
                entry_list(body_entries(es)),
                Seq::<char>::empty(),
            ),
        ],
        has_error(extractor_diagnostics(es, method, caps)),
{
    lemma_index_of(es, a);
    lemma_index_of(es, b);
    let i = index_of(es, a)->0;
    let j = index_of(es, b)->0;
    if i < j {
        lemma_body_entries_two(es, i, j);
    } else {
        lemma_body_entries_two(es, j, i);
    }
    let ds = extractor_diagnostics(es, method, caps);
    assert(ds[0].code.spec_severity() == Severity::Error);
}

/// Binding two different names to body-consuming kinds, in either order
/// and whatever the map held before, gives a map that is rejected with
/// the fatal diagnostic of multiple body extractors.
pub proof fn law_inserting_two_body_extractors_is_fatal(
    es: Seq<(Seq<char>, ExtractorType)>,
    a: Seq<char>,
    kind_a: ExtractorType,
    b: Seq<char>,
    kind_b: ExtractorType,
    method: HttpMethod,
    caps: Capabilities,
)
    requires
        a != b,
        kind_a.spec_is_body(),
        kind_b.spec_is_body(),
    ensures
        has_error(extractor_diagnostics(upsert(upsert(es, a, kind_a), b, kind_b), method, caps)),
        has_error(extractor_diagnostics(upsert(upsert(es, b, kind_b), a, kind_a), method, caps)),
        extractor_diagnostics(upsert(upsert(es, a, kind_a), b, kind_b), method, caps)[0].code
            == DiagnosticCode::MultipleBodyExtractors,
        extractor_diagnostics(upsert(upsert(es, b, kind_b), a, kind_a), method, caps)[0].code
            == DiagnosticCode::MultipleBodyExtractors,
{
    let ab = upsert(upsert(es, a, kind_a), b, kind_b);
    let ba = upsert(upsert(es, b, kind_b), a, kind_a);
    lemma_lookup_upsert(es, a, kind_a, a);
    lemma_lookup_upsert(upsert(es, a, kind_a), b, kind_b, a);
    lemma_lookup_upsert(upsert(es, a, kind_a), b, kind_b, b);
    lemma_lookup_upsert(es, b, kind_b, b);
    lemma_lookup_upsert(upsert(es, b, kind_b), a, kind_a, a);
    lemma_lookup_upsert(upsert(es, b, kind_b), a, kind_a, b);
    law_two_body_extractors_are_fatal(ab, method, caps, a, b);
    law_two_body_extractors_are_fatal(ba, method, caps, a, b);
}

/// The kinds that the parameters resolve to, and with them the bindings
/// and the call arguments of the adapter, depend on what the extractor
/// map gives each name, not on the order of its entries.
pub proof fn law_binding_order_ignores_entry_order(
    ps: Seq<ParamDeclView>,
    es1: Seq<(Seq<char>, ExtractorType)>,
    es2: Seq<(Seq<char>, ExtractorType)>,
)
    requires
        forall|n: Seq<char>| lookup(es1, n) == lookup(es2, n),
    ensures
        resolved_params(ps, es1) == resolved_params(ps, es2),
        planned_bindings(resolved_params(ps, es1)) == planned_bindings(resolved_params(ps, es2)),
        planned_arguments(resolved_params(ps, es1)) == planned_arguments(
            resolved_params(ps, es2),
        ),
{
    assert(resolved_params(ps, es1) =~= resolved_params(ps, es2));
}

/// The place of a binding in the binding order.
pub open spec fn rank_of_binding(b: BindingView) -> nat {
    match b {
        BindingView::Path { params } => 0,
        BindingView::State { ty } => 1,
        BindingView::Headers => 2,
        BindingView::Cookies => 3,
        BindingView::Session => 4,
        BindingView::Param { kind, name, ty } => binding_rank(kind),
    }
}

/// The bindings of `bs` stand in the binding order, with ranks from `lo`
/// to `hi`.
pub open spec fn ordered_within(bs: Seq<BindingView>, lo: nat, hi: nat) -> bool {
    &&& forall|i: int| 0 <= i < bs.len() ==> lo <= rank_of_binding(#[trigger] bs[i]) <= hi
    &&& forall|i: int, j: int|
        0 <= i < j < bs.len() ==> rank_of_binding(#[trigger] bs[i]) <= rank_of_binding(
            #[trigger] bs[j],
        )
}

/// Bindings in order, followed by bindings in order of no lower rank, are
/// in order.
pub proof fn lemma_ordered_concat(
    a: Seq<BindingView>,
    b: Seq<BindingView>,
    lo: nat,
    mid: nat,
    hi: nat,
)
    requires
        ordered_within(a, lo, mid),
        ordered_within(b, mid, hi),
        lo <= mid <= hi,
    ensures
        ordered_within(a + b, lo, hi),
{
    let c = a + b;
    assert forall|i: int| 0 <= i < c.len() implies lo <= rank_of_binding(#[trigger] c[i])
        <= hi by {
        if i < a.len() {
            assert(c[i] == a[i]);
        } else {
            assert(c[i] == b[i - a.len()]);
        }
    }
    assert forall|i: int, j: int| 0 <= i < j < c.len() implies rank_of_binding(#[trigger] c[i])
        <= rank_of_binding(#[trigger] c[j]) by {
        if i < a.len() {
            assert(c[i] == a[i]);
        } else {
            assert(c[i] == b[i - a.len()]);
        }
        if j < a.len() {
            assert(c[j] == a[j]);
        } else {
            assert(c[j] == b[j - a.len()]);
        }
    }
}

/// The bindings of the parameters of one rank all have that rank.
pub proof fn lemma_own_bindings_rank(ps: Seq<ParamInfoView>, rank: nat)
    ensures
        ordered_within(own_bindings(ps, rank), rank, rank),
    decreases ps.len(),
{
    if ps.len() > 0 {
        lemma_own_bindings_rank(ps.drop_last(), rank);
    }
}

/// The bindings of an adapter stand in the order of precedence: the path,
/// the state, headers, cookies, session, the query, the body, and what is
/// passed through. Where a binding stands depends on its kind alone.
pub proof fn law_bindings_follow_precedence(ps: Seq<ParamInfoView>)
    ensures
        forall|i: int, j: int|
            0 <= i < j < planned_bindings(ps).len() ==> rank_of_binding(
                #[trigger] planned_bindings(ps)[i],
            ) <= rank_of_binding(#[trigger] planned_bindings(ps)[j]),
{
    let p = path_binding(ps);
    let s = state_binding(ps);
    let h = shared_binding(ps, ExtractorType::HeaderParam, BindingView::Headers);
    let c = shared_binding(ps, ExtractorType::CookieParam, BindingView::Cookies);
    let n = shared_binding(ps, ExtractorType::SessionParam, BindingView::Session);
    lemma_own_bindings_rank(ps, 5);
    lemma_own_bindings_rank(ps, 6);
    lemma_own_bindings_rank(ps, 7);
    assert(ordered_within(p, 0, 0));
    assert(ordered_within(s, 1, 1)) by {
        assert(ordered_within(p, 0, 1));
    }
    assert(ordered_within(s, 0, 1));
    lemma_ordered_concat(p, s, 0, 0, 1);
    assert(ordered_within(h, 1, 2));
    lemma_ordered_concat(p + s, h, 0, 1, 2);
    assert(ordered_within(c, 2, 3));
    lemma_ordered_concat(p + s + h, c, 0, 2, 3);
    assert(ordered_within(n, 3, 4));
    lemma_ordered_concat(p + s + h + c, n, 0, 3, 4);
    assert(ordered_within(own_bindings(ps, 5), 4, 5));
    lemma_ordered_concat(p + s + h + c + n, own_bindings(ps, 5), 0, 4, 5);
    assert(ordered_within(own_bindings(ps, 6), 5, 6));
    lemma_ordered_concat(p + s + h + c + n + own_bindings(ps, 5), own_bindings(ps, 6), 0, 5, 6);
    assert(ordered_within(own_bindings(ps, 7), 6, 7));
    lemma_ordered_concat(
        p + s + h + c + n + own_bindings(ps, 5) + own_bindings(ps, 6),
        own_bindings(ps, 7),
        0,
        6,
        7,
    );
}

/// In the merged headers each name occurs once and has the value of its
/// last write: the route's last value for it where the route names it,
/// else the controller's last value.
pub proof fn law_header_merge_last_write_wins(
    base: Seq<(Seq<char>, Seq<char>)>,
    overrides: Seq<(Seq<char>, Seq<char>)>,
    name: Seq<char>,
)
    ensures
        distinct_names(merged_headers(base, overrides)),
        lookup(merged_headers(base, overrides), name) == match last_value(overrides, name) {
            Some(v) => Some(v),
            None => last_value(base, name),
        },
{
    let empty = Seq::<(Seq<char>, Seq<char>)>::empty();
    let first = upsert_all(empty, base);
    lemma_upsert_all_distinct(empty, base);
    lemma_upsert_all_distinct(first, overrides);
    lemma_lookup_upsert_all(empty, base, name);
    lemma_lookup_upsert_all(first, overrides, name);
    lemma_index_of(empty, name);
}

/// Header lists of distinct names stand for the same map whatever the
/// order of their pairs.
pub proof fn lemma_last_value_ignores_order(
    a: Seq<(Seq<char>, Seq<char>)>,
    b: Seq<(Seq<char>, Seq<char>)>,
    name: Seq<char>,
)
    requires
        distinct_names(a),
        distinct_names(b),
        forall|e: (Seq<char>, Seq<char>)| a.contains(e) <==> b.contains(e),
    ensures
        last_value(a, name) == last_value(b, name),
{
    lemma_last_value_distinct(a, name);
    lemma_last_value_distinct(b, name);
    match last_value(a, name) {
        Some(v) => {
            assert(b.contains((name, v)));
        },
        None => {
            match last_value(b, name) {
                Some(w) => {
                    assert(a.contains((name, w)));
                    let k = choose|k: int| 0 <= k < a.len() && a[k] == (name, w);
                    assert(a[k].0 == name);
                },
                None => {},
            }
        },
    }
}

/// Where the controller's header names are distinct and the route's are,
/// the merged headers do not depend on the order in which either list
/// declares them.
pub proof fn law_header_merge_ignores_order(
    base1: Seq<(Seq<char>, Seq<char>)>,
    base2: Seq<(Seq<char>, Seq<char>)>,
    overrides1: Seq<(Seq<char>, Seq<char>)>,
    overrides2: Seq<(Seq<char>, Seq<char>)>,
)
    requires
        distinct_names(base1),
        distinct_names(base2),
        forall|e: (Seq<char>, Seq<char>)| base1.contains(e) <==> base2.contains(e),
        distinct_names(overrides1),
        distinct_names(overrides2),
        forall|e: (Seq<char>, Seq<char>)| overrides1.contains(e) <==> overrides2.contains(e),
    ensures
        as_map(merged_headers(base1, overrides1)) == as_map(merged_headers(base2, overrides2)),
{
    let m1 = merged_headers(base1, overrides1);
    let m2 = merged_headers(base2, overrides2);
    assert forall|n: Seq<char>| lookup(m1, n) == lookup(m2, n) by {
        law_header_merge_last_write_wins(base1, overrides1, n);
        law_header_merge_last_write_wins(base2, overrides2, n);
        lemma_last_value_ignores_order(base1, base2, n);
        lemma_last_value_ignores_order(overrides1, overrides2, n);
    }
    assert(as_map(m1) =~= as_map(m2));
}

/// A route's content type replaces its controller's.
pub proof fn law_route_content_type_wins(base: Option<Seq<char>>, route: Seq<char>)
    ensures
        merged_content_type(base, Some(route)) == Some(route),
{
}

/// The layers of a router that was wrapped in middleware are, from the
/// outermost inwards, the middleware in the order of declaration: the
/// first declared sees a request first.
pub proof fn law_first_middleware_is_outermost(base: RouterView, middlewares: Seq<Seq<char>>)
    requires
        !(base is Layer),
    ensures
        layers_outside_in(layered(base, middlewares)) == middlewares,
    decreases middlewares.len(),
{
    if middlewares.len() > 0 {
        law_first_middleware_is_outermost(base, middlewares.drop_first());
        assert(seq![middlewares[0]] + middlewares.drop_first() =~= middlewares);
    } else {
        assert(layers_outside_in(base) =~= middlewares);
    }
}

/// Among the parameters behind two or more bindings of one rank there are
/// two of that rank; behind one binding there is one.
pub proof fn lemma_own_bindings_sources(ps: Seq<ParamInfoView>, rank: nat)
    ensures
        own_bindings(ps, rank).len() >= 1 ==> exists|i: int|
            0 <= i < ps.len() && binding_rank((#[trigger] ps[i]).extractor_type) == rank,
        own_bindings(ps, rank).len() >= 2 ==> exists|i: int, j: int|
            0 <= i < j < ps.len() && binding_rank((#[trigger] ps[i]).extractor_type) == rank
                && binding_rank((#[trigger] ps[j]).extractor_type) == rank,
    decreases ps.len(),
{
    if ps.len() > 0 {
        let front = ps.drop_last();
        let last = ps.len() - 1;
        lemma_own_bindings_sources(front, rank);
        assert(forall|i: int| 0 <= i < front.len() ==> front[i] == ps[i]);
        if own_bindings(front, rank).len() >= 1 {
            let i = choose|i: int|
                0 <= i < front.len() && binding_rank((#[trigger] front[i]).extractor_type)
                    == rank;
            assert(binding_rank(ps[i].extractor_type) == rank);
            if binding_rank(ps[last].extractor_type) == rank {
                assert(0 <= i < last < ps.len());
            }
        }
        if own_bindings(front, rank).len() >= 2 {
            let (i, j) = choose|i: int, j: int|
                0 <= i < j < front.len() && binding_rank((#[trigger] front[i]).extractor_type)
                    == rank && binding_rank((#[trigger] front[j]).extractor_type) == rank;
            assert(binding_rank(ps[i].extractor_type) == rank);
            assert(binding_rank(ps[j].extractor_type) == rank);
        }
        if binding_rank(ps[last].extractor_type) == rank && own_bindings(ps, rank).len() >= 1 {
            assert(binding_rank(ps[last].extractor_type) == rank);
        }
    }
}

/// Where the extractors of a route pass validation and no two declared
/// parameters share a name, the adapter binds at most one body-consuming
/// parameter.
pub proof fn law_validated_route_binds_one_body(
    ps: Seq<ParamDeclView>,
    es: Seq<(Seq<char>, ExtractorType)>,
    method: HttpMethod,
    caps: Capabilities,
)
    requires
        !has_error(extractor_diagnostics(es, method, caps)),
        forall|i: int, j: int|
            0 <= i < j < ps.len() && ps[i].is_ident && ps[j].is_ident ==> ps[i].pattern
                != ps[j].pattern,
    ensures
        own_bindings(resolved_params(ps, es), 6).len() <= 1,
{
    let rs = resolved_params(ps, es);
    if own_bindings(rs, 6).len() >= 2 {
        lemma_own_bindings_sources(rs, 6);
        let (i, j) = choose|i: int, j: int|
            0 <= i < j < rs.len() && binding_rank((#[trigger] rs[i]).extractor_type) == 6
                && binding_rank((#[trigger] rs[j]).extractor_type) == 6;
        assert(rs[i].extractor_type.spec_is_body());
        assert(rs[j].extractor_type.spec_is_body());
        assert(ps[i].is_ident && ps[j].is_ident);
        law_two_body_extractors_are_fatal(es, method, caps, ps[i].pattern, ps[j].pattern);
    }
}

/// The warnings about parameters are advisory.
pub proof fn lemma_param_warnings_advisory(
    ps: Seq<ParamDeclView>,
    es: Seq<(Seq<char>, ExtractorType)>,
)
    ensures
        forall|k: int|
            0 <= k < param_warnings(ps, es).len() ==> (#[trigger] param_warnings(
                ps,
                es,
            )[k]).code.spec_severity() == Severity::Warning,
    decreases ps.len(),
{
    if ps.len() > 0 {
        lemma_param_warnings_advisory(ps.drop_last(), es);
    }
}

/// The warnings about extractor entries without a parameter are advisory,
/// and each such entry is named by one.
pub proof fn lemma_orphan_warnings_advisory(
    es: Seq<(Seq<char>, ExtractorType)>,
    names: Seq<Seq<char>>,
)
    ensures
        forall|k: int|
            0 <= k < orphan_warnings(es, names).len() ==> (#[trigger] orphan_warnings(
                es,
                names,
            )[k]).code == DiagnosticCode::ExtractorWithoutParameter,
        (forall|i: int| 0 <= i < es.len() ==> !names.contains((#[trigger] es[i]).0))
            ==> orphan_warnings(es, names).len() == es.len(),
        (forall|i: int| 0 <= i < es.len() ==> names.contains((#[trigger] es[i]).0))
            ==> orphan_warnings(es, names).len() == 0,
    decreases es.len(),
{
    if es.len() > 0 {
        let front = es.drop_last();
        lemma_orphan_warnings_advisory(front, names);
        assert(forall|i: int| 0 <= i < front.len() ==> front[i] == es[i]);
        assert(es[es.len() - 1] == es.last());
    }
}

/// Resolving the parameters of a handler never stops synthesis: whatever
/// the parameters and the extractor entries, every diagnostic about them
/// is advisory.
pub proof fn law_parameter_analysis_is_advisory(
    ps: Seq<ParamDeclView>,
    es: Seq<(Seq<char>, ExtractorType)>,
)
    ensures
        !has_error(param_diagnostics(ps, es)),
{
    let first = param_warnings(ps, es);
    let second = orphan_warnings(es, declared_names(ps));
    let all = param_diagnostics(ps, es);
    lemma_param_warnings_advisory(ps, es);
    lemma_orphan_warnings_advisory(es, declared_names(ps));
    if has_error(all) {
        let k = choose|k: int|
            0 <= k < all.len() && all[k].code.spec_severity() == Severity::Error;
        if k < first.len() {
            assert(all[k] == first[k]);
        } else {
            assert(all[k] == second[k - first.len()]);
        }
    }
}

/// Extractor entries on a handler without parameters give one advisory
/// diagnostic each and nothing else.
pub proof fn law_entries_without_parameters_warn_once_each(es: Seq<(Seq<char>, ExtractorType)>)
    ensures
        param_diagnostics(Seq::<ParamDeclView>::empty(), es).len() == es.len(),
        !has_error(param_diagnostics(Seq::<ParamDeclView>::empty(), es)),
{
    let none = Seq::<ParamDeclView>::empty();
    lemma_orphan_warnings_advisory(es, declared_names(none));
    law_parameter_analysis_is_advisory(none, es);
    assert(param_diagnostics(none, es) =~= orphan_warnings(
        es,
        declared_names(none),
    ));
}

/// The path of a route starts with a slash, whatever its annotation
/// declares.
pub proof fn law_route_path_starts_with_slash(args: Seq<ArgumentForm>)
    ensures
        route_path(args).len() > 0,
        route_path(args)[0] == '/',
{
}

/// The prefix of a controller, where it has one, starts with a slash.
pub proof fn law_route_prefix_starts_with_slash(args: Seq<ArgumentForm>)
    ensures
        config_scan(args).route_prefix matches Some(prefix) ==> prefix.len() > 0 && prefix[0]
            == '/',
    decreases args.len(),
{
    if args.len() > 0 {
        law_route_prefix_starts_with_slash(args.drop_last());
    }
}

/// Two passes over the same controller source, with the same
/// capabilities, give the same result and the same diagnostics in the same
/// order.
pub proof fn law_compilation_is_repeatable(
    attr1: Seq<char>,
    handlers1: Seq<HandlerDeclView>,
    caps1: Capabilities,
    attr2: Seq<char>,
    handlers2: Seq<HandlerDeclView>,
    caps2: Capabilities,
)
    requires
        attr1 == attr2,
        handlers1 == handlers2,
        caps1 == caps2,
    ensures
        compiled(attr1, handlers1, caps1) == compiled(attr2, handlers2, caps2),
{
}

} // verus!
