//! The argument list of an annotation, and the arguments that controller
//! and route annotations share: `header(...)` and `content_type(...)`.

use crate::diagnostics::diagnostic;
use crate::diagnostics::DiagnosticCode;
use crate::diagnostics::DiagnosticView;
use crate::diagnostics::Diagnostics;
use crate::text::classify;
use crate::text::classify_argument;
use crate::text::is_keyword;
use crate::text::literal_value;
use crate::text::slice_views;
use crate::text::split_at_top_level;
use crate::text::split_top_level;
use crate::text::string_of;
use crate::text::trim;
use crate::text::trimmed;
use crate::text::value_of;
use crate::text::Argument;
use crate::text::ArgumentForm;
use vstd::prelude::*;

verus! {

/// The shapes of the arguments `raws`.
pub open spec fn classified(raws: Seq<Seq<char>>) -> Seq<ArgumentForm> {
    Seq::new(raws.len(), |i: int| classify(raws[i]))
}

/// The arguments of the list `body`: its pieces between top-level commas,
/// each by its shape.
pub open spec fn arguments_of(body: Seq<char>) -> Seq<ArgumentForm> {
    classified(split_top_level(body, ','))
}

/// The content of the first argument that is a quoted literal.
pub open spec fn first_literal(args: Seq<ArgumentForm>) -> Option<Seq<char>>
    decreases args.len(),
{
    if args.len() == 0 {
        None
    } else {
        match first_literal(args.drop_last()) {
            Some(found) => Some(found),
            None => match args.last() {
                ArgumentForm::Literal(content) => Some(content),
                _ => None,
            },
        }
    }
}

/// The argument list of the first argument of the shape `name(...)`.
pub open spec fn first_call(args: Seq<ArgumentForm>, name: Seq<char>) -> Option<Seq<char>>
    decreases args.len(),
{
    if args.len() == 0 {
        None
    } else {
        match first_call(args.drop_last(), name) {
            Some(found) => Some(found),
            None => match args.last() {
                ArgumentForm::Call { name: n, body } => if n == name {
                    Some(body)
                } else {
                    None
                },
                _ => None,
            },
        }
    }
}

/// Some argument is `name(` without its closing parenthesis.
pub open spec fn has_unclosed(args: Seq<ArgumentForm>, name: Seq<char>) -> bool {
    exists|i: int| 0 <= i < args.len() && args[i] == (ArgumentForm::Unclosed { name })
}

/// The name and value that the argument list `body` of a `header(...)`
/// gives: `name = value` where it holds one top-level `=`, else
/// `name, value` where it holds one top-level comma.
pub open spec fn header_pair(body: Seq<char>) -> Option<(Seq<char>, Seq<char>)> {
    let by_equals = split_top_level(body, '=');
    let by_comma = split_top_level(body, ',');
    if by_equals.len() == 2 {
        Some((literal_value(trim(by_equals[0])), literal_value(trim(by_equals[1]))))
    } else if by_comma.len() == 2 {
        Some((literal_value(trim(by_comma[0])), literal_value(trim(by_comma[1]))))
    } else {
        None
    }
}

/// The headers found so far and the diagnostics about them, after the
/// argument `arg`.
pub open spec fn header_step(
    state: (Seq<(Seq<char>, Seq<char>)>, Seq<DiagnosticView>),
    arg: ArgumentForm,
) -> (Seq<(Seq<char>, Seq<char>)>, Seq<DiagnosticView>) {
    match arg {
        ArgumentForm::Call { name, body } => if name == "header"@ {
            match header_pair(body) {
                Some((n, v)) => (
                    state.0.push((n, v)),
                    if n.len() == 0 || v.len() == 0 {
                        state.1.push(
                            diagnostic(
                                DiagnosticCode::EmptyHeader,
                                Seq::<char>::empty(),
                                Seq::<char>::empty(),
                            ),
                        )
                    } else {
                        state.1
                    },
                ),
                None => (
                    state.0,
                    state.1.push(
                        diagnostic(
                            DiagnosticCode::InvalidHeaderFormat,
                            Seq::<char>::empty(),
                            Seq::<char>::empty(),
                        ),
                    ),
                ),
            }
        } else {
            state
        },
        ArgumentForm::Unclosed { name } => if name == "header"@ {
            (
                state.0,
                state.1.push(
                    diagnostic(
                        DiagnosticCode::UnclosedHeader,
                        Seq::<char>::empty(),
                        Seq::<char>::empty(),
                    ),
                ),
            )
        } else {
            state
        },
        _ => state,
    }
}

/// The response headers that the arguments declare, in order, and the
/// diagnostics about them. A header with an empty name or value is kept
/// and warned about.
pub open spec fn header_results(args: Seq<ArgumentForm>) -> (
    Seq<(Seq<char>, Seq<char>)>,
    Seq<DiagnosticView>,
)
    decreases args.len(),
{
    if args.len() == 0 {
        (Seq::empty(), Seq::empty())
    } else {
        header_step(header_results(args.drop_last()), args.last())
    }
}

/// The content type that the arguments declare, and the diagnostics about
/// it. The first `content_type(...)` decides.
pub open spec fn content_type_results(args: Seq<ArgumentForm>) -> (
    Option<Seq<char>>,
    Seq<DiagnosticView>,
) {
    match first_call(args, "content_type"@) {
        Some(body) => {
            let value = literal_value(trim(body));
            (
                Some(value),
                if value.len() == 0 {
                    seq![
                        diagnostic(
                            DiagnosticCode::EmptyContentType,
                            Seq::<char>::empty(),
                            Seq::<char>::empty(),
                        ),
                    ]
                } else {
                    Seq::empty()
                },
            )
        },
        None => (
            None,
            if has_unclosed(args, "content_type"@) {
                seq![
                    diagnostic(
                        DiagnosticCode::UnclosedContentType,
                        Seq::<char>::empty(),
                        Seq::<char>::empty(),
                    ),
                ]
            } else {
                Seq::empty()
            },
        ),
    }
}

/// The arguments of the list `body`.
pub fn parse_arguments<'a>(body: &'a [char]) -> (args: Vec<Argument<'a>>)
    ensures
        args.deep_view() == arguments_of(body@),
{
    let raws = split_at_top_level(body, ',');
    let ghost rv = slice_views(raws@);
    let mut args: Vec<Argument<'a>> = Vec::new();
    let mut i: usize = 0;
    while i < raws.len()
        invariant
            i <= raws.len(),
            rv == slice_views(raws@),
            args.len() == i,
            forall|j: int| 0 <= j < i ==> args.deep_view()[j] == classify(rv[j]),
        decreases raws.len() - i,
    {
        let ghost before = args.deep_view();
        let a = classify_argument(raws[i]);
        args.push(a);
        assert(args.deep_view() =~= before.push(a.deep_view()));
        i += 1;
    }
    assert(args.deep_view() =~= classified(rv));
    args
}

/// The content of the first argument that is a quoted literal.
pub fn find_first_literal<'a>(args: &Vec<Argument<'a>>) -> (r: Option<&'a [char]>)
    ensures
        match r {
            Some(content) => first_literal(args.deep_view()) == Some(content@),
            None => first_literal(args.deep_view()) is None,
        },
{
    let ghost av = args.deep_view();
    let mut i: usize = 0;
    while i < args.len()
        invariant
            i <= args.len(),
            av == args.deep_view(),
            first_literal(av.take(i as int)) is None,
        decreases args.len() - i,
    {
        assert(av.take(i + 1).drop_last() =~= av.take(i as int));
        match args[i] {
            Argument::Literal(content) => {
                proof {
                    lemma_first_literal_prefix(av, i + 1);
                }
                return Some(content);
            },
            _ => {},
        }
        i += 1;
    }
    assert(av.take(i as int) =~= av);
    None
}

/// The argument list of the first argument of the shape `name(...)`.
pub fn find_first_call<'a>(args: &Vec<Argument<'a>>, name: &str) -> (r: Option<&'a [char]>)
    ensures
        match r {
            Some(body) => first_call(args.deep_view(), name@) == Some(body@),
            None => first_call(args.deep_view(), name@) is None,
        },
{
    let ghost av = args.deep_view();
    let mut i: usize = 0;
    while i < args.len()
        invariant
            i <= args.len(),
            av == args.deep_view(),
            first_call(av.take(i as int), name@) is None,
        decreases args.len() - i,
    {
        assert(av.take(i + 1).drop_last() =~= av.take(i as int));
        match args[i] {
            Argument::Call { name: n, body } => {
                if is_keyword(n, name) {
                    proof {
                        lemma_first_call_prefix(av, name@, i + 1);
                    }
                    return Some(body);
                }
            },
            _ => {},
        }
        i += 1;
    }
    assert(av.take(i as int) =~= av);
    None
}

/// Whether some argument is `name(` without its closing parenthesis.
pub fn find_unclosed<'a>(args: &Vec<Argument<'a>>, name: &str) -> (b: bool)
    ensures
        b == has_unclosed(args.deep_view(), name@),
{
    let ghost av = args.deep_view();
    let mut i: usize = 0;
    while i < args.len()
        invariant
            i <= args.len(),
            av == args.deep_view(),
            forall|j: int| 0 <= j < i ==> av[j] != (ArgumentForm::Unclosed { name: name@ }),
        decreases args.len() - i,
    {
        match args[i] {
            Argument::Unclosed { name: n } => {
                if is_keyword(n, name) {
                    assert(av[i as int] == (ArgumentForm::Unclosed { name: name@ }));
                    return true;
                }
            },
            _ => {},
        }
        i += 1;
    }
    false
}

/// What is found first in a prefix of the arguments is found first in all
/// of them.
pub proof fn lemma_first_literal_prefix(args: Seq<ArgumentForm>, k: int)
    requires
        0 <= k <= args.len(),
        first_literal(args.take(k)) is Some,
    ensures
        first_literal(args) == first_literal(args.take(k)),
    decreases args.len() - k,
{
    if k < args.len() {
        assert(args.take(k + 1).drop_last() =~= args.take(k));
        lemma_first_literal_prefix(args, k + 1);
    } else {
        assert(args.take(k) =~= args);
    }
}

/// What is found first in a prefix of the arguments is found first in all
/// of them.
pub proof fn lemma_first_call_prefix(args: Seq<ArgumentForm>, name: Seq<char>, k: int)
    requires
        0 <= k <= args.len(),
        first_call(args.take(k), name) is Some,
    ensures
        first_call(args, name) == first_call(args.take(k), name),
    decreases args.len() - k,
{
    if k < args.len() {
        assert(args.take(k + 1).drop_last() =~= args.take(k));
        lemma_first_call_prefix(args, name, k + 1);
    } else {
        assert(args.take(k) =~= args);
    }
}

/// The name and value that the argument list `body` of a `header(...)`
/// gives.
pub fn parse_header_pair(body: &[char]) -> (r: Option<(String, String)>)
    ensures
        r.deep_view() == header_pair(body@),
{
    let by_equals = split_at_top_level(body, '=');
    let ghost ev = slice_views(by_equals@);
    if by_equals.len() == 2 {
        let name = string_of(value_of(trimmed(by_equals[0])));
        let value = string_of(value_of(trimmed(by_equals[1])));
        assert(ev[0] == by_equals@[0]@ && ev[1] == by_equals@[1]@);
        return Some((name, value));
    }
    let by_comma = split_at_top_level(body, ',');
    let ghost cv = slice_views(by_comma@);
    if by_comma.len() == 2 {
        let name = string_of(value_of(trimmed(by_comma[0])));
        let value = string_of(value_of(trimmed(by_comma[1])));
        assert(cv[0] == by_comma@[0]@ && cv[1] == by_comma@[1]@);
        return Some((name, value));
    }
    None
}

/// Collects the response headers that the arguments declare, and reports
/// what is wrong with them.
pub fn collect_headers<'a>(args: &Vec<Argument<'a>>, diagnostics: &mut Diagnostics) -> (headers:
    Vec<(String, String)>)
    ensures
        headers.deep_view() == header_results(args.deep_view()).0,
        final(diagnostics)@ == old(diagnostics)@ + header_results(args.deep_view()).1,
{
    let ghost av = args.deep_view();
    let ghost start = diagnostics@;
    let mut headers: Vec<(String, String)> = Vec::new();
    assert(headers.deep_view() =~= header_results(av.take(0)).0);
    assert(diagnostics@ =~= start + header_results(av.take(0)).1);
    let mut i: usize = 0;
    while i < args.len()
        invariant
            i <= args.len(),
            av == args.deep_view(),
            headers.deep_view() == header_results(av.take(i as int)).0,
            diagnostics@ == start + header_results(av.take(i as int)).1,
        decreases args.len() - i,
    {
        assert(av.take(i + 1).drop_last() =~= av.take(i as int));
        let ghost hs = headers.deep_view();
        let ghost ds = header_results(av.take(i as int)).1;
        match args[i] {
            Argument::Call { name, body } => {
                if is_keyword(name, "header") {
                    match parse_header_pair(body) {
                        Some((n, v)) => {
                            if n.as_str().unicode_len() == 0 || v.as_str().unicode_len() == 0 {
                                diagnostics.report(
                                    DiagnosticCode::EmptyHeader,
                                    String::new(),
                                    String::new(),
                                );
                            }
                            headers.push((n, v));
                            assert(headers.deep_view() =~= hs.push((n@, v@)));
                        },
                        None => {
                            diagnostics.report(
                                DiagnosticCode::InvalidHeaderFormat,
                                String::new(),
                                String::new(),
                            );
                        },
                    }
                }
            },
            Argument::Unclosed { name } => {
                if is_keyword(name, "header") {
                    diagnostics.report(
                        DiagnosticCode::UnclosedHeader,
                        String::new(),
                        String::new(),
                    );
                }
            },
            _ => {},
        }
        assert(diagnostics@ =~= start + header_results(av.take(i + 1)).1);
        i += 1;
    }
    assert(av.take(i as int) =~= av);
    headers
}

/// Reads the content type that the arguments declare, and reports what is
/// wrong with it.
pub fn read_content_type<'a>(args: &Vec<Argument<'a>>, diagnostics: &mut Diagnostics) -> (r:
    Option<String>)
    ensures
        r.deep_view() == content_type_results(args.deep_view()).0,
        final(diagnostics)@ == old(diagnostics)@ + content_type_results(args.deep_view()).1,
{
    match find_first_call(args, "content_type") {
        Some(body) => {
            let value = string_of(value_of(trimmed(body)));
            if value.as_str().unicode_len() == 0 {
                diagnostics.report(DiagnosticCode::EmptyContentType, String::new(), String::new());
                assert(diagnostics@ =~= old(diagnostics)@ + content_type_results(
                    args.deep_view(),
                ).1);
            } else {
                assert(diagnostics@ =~= old(diagnostics)@ + content_type_results(
                    args.deep_view(),
                ).1);
            }
            Some(value)
        },
        None => {
            if find_unclosed(args, "content_type") {
                diagnostics.report(
                    DiagnosticCode::UnclosedContentType,
                    String::new(),
                    String::new(),
                );
            }
            assert(diagnostics@ =~= old(diagnostics)@ + content_type_results(args.deep_view()).1);
            None
        },
    }
}

} // verus!
