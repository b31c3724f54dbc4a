//! Route descriptors, and how they are read from route annotations.

use crate::assoc::lookup;
use crate::assoc::upsert;
use crate::diagnostics::diagnostic;
use crate::diagnostics::DiagnosticCode;
use crate::diagnostics::DiagnosticView;
use crate::diagnostics::Diagnostics;
use crate::parser::arguments::arguments_of;
use crate::parser::arguments::collect_headers;
use crate::parser::arguments::content_type_results;
use crate::parser::arguments::find_first_call;
use crate::parser::arguments::find_first_literal;
use crate::parser::arguments::first_call;
use crate::parser::arguments::first_literal;
use crate::parser::arguments::header_results;
use crate::parser::arguments::parse_arguments;
use crate::parser::arguments::read_content_type;
use crate::parser::extractor_types::extractor_diagnostics;
use crate::parser::extractor_types::kind_named;
use crate::parser::extractor_types::method_named;
use crate::parser::extractor_types::validate_extractors;
use crate::parser::extractor_types::Capabilities;
use crate::parser::extractor_types::ExtractorMap;
use crate::parser::extractor_types::ExtractorType;
use crate::parser::extractor_types::HttpMethod;
use crate::text::chars_of;
use crate::text::classify;
use crate::text::classify_argument;
use crate::text::slash_prefixed;
use crate::text::slice_views;
use crate::text::split;
use crate::text::split_at;
use crate::text::split_at_top_level;
use crate::text::split_top_level;
use crate::text::string_of;
use crate::text::trim;
use crate::text::trimmed;
use crate::text::with_leading_slash;
use crate::text::Argument;
use crate::text::ArgumentForm;
use vstd::prelude::*;
use vstd::slice::slice_subrange;

verus! {

/// What one route annotation declares.
#[derive(Clone, Debug, PartialEq, Eq)]
pub struct RouteInfo {
    pub method: HttpMethod,
    /// The route path. It starts with `/`.
    pub path: String,
    /// The extractor kind of each named parameter.
    pub extractors: ExtractorMap,
    /// The response headers of the route, as `(name, value)`, in the order
    /// of the annotation.
    pub response_headers: Vec<(String, String)>,
    /// The content type of the route's responses.
    pub content_type: Option<String>,
}

/// A route descriptor as a mathematical value.
pub struct RouteInfoView {
    pub method: HttpMethod,
    pub path: Seq<char>,
    pub extractors: Seq<(Seq<char>, ExtractorType)>,
    pub response_headers: Seq<(Seq<char>, Seq<char>)>,
    pub content_type: Option<Seq<char>>,
}

impl DeepView for RouteInfo {
    type V = RouteInfoView;

    open spec fn deep_view(&self) -> RouteInfoView {
        RouteInfoView {
            method: self.method,
            path: self.path@,
            extractors: self.extractors@,
            response_headers: self.response_headers.deep_view(),
            content_type: self.content_type.deep_view(),
        }
    }
}

impl View for RouteInfo {
    type V = RouteInfoView;

    open spec fn view(&self) -> RouteInfoView {
        self.deep_view()
    }
}

/// The name of the placeholder that the path segment `segment` is, if it
/// is one: `{name}`.
pub open spec fn placeholder_name(segment: Seq<char>) -> Option<Seq<char>> {
    if segment.len() >= 2 && segment[0] == '{' && segment.last() == '}' {
        Some(segment.subrange(1, segment.len() - 1))
    } else {
        None
    }
}

/// The placeholder names among `segments`, each once, in the order of
/// their first occurrence.
pub open spec fn placeholders_of(segments: Seq<Seq<char>>) -> Seq<Seq<char>>
    decreases segments.len(),
{
    if segments.len() == 0 {
        Seq::empty()
    } else {
        let rest = placeholders_of(segments.drop_last());
        match placeholder_name(segments.last()) {
            Some(name) => if rest.contains(name) {
                rest
            } else {
                rest.push(name)
            },
            None => rest,
        }
    }
}

/// The placeholder names of the route path `path`: its segments between
/// slashes that have the form `{name}`.
pub open spec fn path_placeholders(path: Seq<char>) -> Seq<Seq<char>> {
    placeholders_of(split(path, '/'))
}

/// One fatal diagnostic for each placeholder of `names` that the entries
/// `es` do not give the kind `Path`, in the order of `names`.
pub open spec fn placeholder_errors(
    names: Seq<Seq<char>>,
    path: Seq<char>,
    es: Seq<(Seq<char>, ExtractorType)>,
) -> Seq<DiagnosticView>
    decreases names.len(),
{
    if names.len() == 0 {
        Seq::empty()
    } else {
        let rest = placeholder_errors(names.drop_last(), path, es);
        match lookup(es, names.last()) {
            Some(kind) => if kind is Path {
                rest
            } else {
                rest.push(diagnostic(DiagnosticCode::PathParameterWrongKind, names.last(), path))
            },
            None => rest.push(
                diagnostic(DiagnosticCode::PathParameterWithoutExtractor, names.last(), path),
            ),
        }
    }
}

/// One warning for each `Path` entry of `es` whose name is none of
/// `names`, in the order of the entries.
pub open spec fn unused_path_warnings(
    es: Seq<(Seq<char>, ExtractorType)>,
    names: Seq<Seq<char>>,
    path: Seq<char>,
) -> Seq<DiagnosticView>
    decreases es.len(),
{
    if es.len() == 0 {
        Seq::empty()
    } else {
        let rest = unused_path_warnings(es.drop_last(), names, path);
        if es.last().1 is Path && !names.contains(es.last().0) {
            rest.push(diagnostic(DiagnosticCode::UnusedPathExtractor, es.last().0, path))
        } else {
            rest
        }
    }
}

/// What validation reports of the route path `path` with the extractor
/// entries `es`: first the placeholders that lack a `Path` entry, then the
/// `Path` entries that lack a placeholder.
pub open spec fn path_diagnostics(path: Seq<char>, es: Seq<(Seq<char>, ExtractorType)>) -> Seq<
    DiagnosticView,
> {
    let names = path_placeholders(path);
    placeholder_errors(names, path, es) + unused_path_warnings(es, names, path)
}

/// The extractor entries and the diagnostics so far, after the entry
/// `pair` of an `extract(...)` list.
pub open spec fn extract_step(
    state: (Seq<(Seq<char>, ExtractorType)>, Seq<DiagnosticView>),
    pair: Seq<char>,
) -> (Seq<(Seq<char>, ExtractorType)>, Seq<DiagnosticView>) {
    let entry = trim(pair);
    let parts = split(entry, '=');
    if parts.len() == 2 {
        let name = trim(parts[0]);
        let written = trim(parts[1]);
        match kind_named(written) {
            Some(kind) => (upsert(state.0, name, kind), state.1),
            None => (
                upsert(state.0, name, ExtractorType::Plain),
                state.1.push(
                    diagnostic(DiagnosticCode::UnknownExtractor, written, Seq::<char>::empty()),
                ),
            ),
        }
    } else if parts.len() == 1 && entry.len() > 0 {
        (
            state.0,
            state.1.push(
                diagnostic(DiagnosticCode::InvalidExtractorSyntax, entry, Seq::<char>::empty()),
            ),
        )
    } else {
        state
    }
}

/// The extractor entries that the entries `pairs` declare, and the
/// diagnostics about them.
pub open spec fn extract_steps(pairs: Seq<Seq<char>>) -> (
    Seq<(Seq<char>, ExtractorType)>,
    Seq<DiagnosticView>,
)
    decreases pairs.len(),
{
    if pairs.len() == 0 {
        (Seq::empty(), Seq::empty())
    } else {
        extract_step(extract_steps(pairs.drop_last()), pairs.last())
    }
}

/// The extractor entries that the argument list `body` of an
/// `extract(...)` declares, and the diagnostics about them. An entry has
/// the form `name = Kind`; an unknown kind is fatal and leaves the name
/// unmanaged.
pub open spec fn extract_list(body: Seq<char>) -> (
    Seq<(Seq<char>, ExtractorType)>,
    Seq<DiagnosticView>,
) {
    extract_steps(split_top_level(body, ','))
}

/// The keyword that the annotation `text` starts with, and its arguments;
/// none where the text does not start with a single keyword.
pub open spec fn annotation_head(text: Seq<char>) -> Option<(Seq<char>, Seq<ArgumentForm>)> {
    match classify(text) {
        ArgumentForm::Word(word) => Some((word, Seq::empty())),
        ArgumentForm::Call { name, body } => Some((name, arguments_of(body))),
        ArgumentForm::Unclosed { name } => Some((name, Seq::empty())),
        ArgumentForm::Assign { name, value } => Some((name, Seq::empty())),
        _ => None,
    }
}

/// The path that the arguments of a route annotation declare: the first
/// literal, with a leading slash; `/` where there is none or it is empty.
pub open spec fn route_path(args: Seq<ArgumentForm>) -> Seq<char> {
    match first_literal(args) {
        Some(p) => if p.len() > 0 {
            with_leading_slash(p)
        } else {
            seq!['/']
        },
        None => seq!['/'],
    }
}

/// The extractor entries that the arguments of a route annotation
/// declare, by their first `extract(...)`.
pub open spec fn route_extractors(args: Seq<ArgumentForm>) -> (
    Seq<(Seq<char>, ExtractorType)>,
    Seq<DiagnosticView>,
) {
    match first_call(args, "extract"@) {
        Some(body) => extract_list(body),
        None => (Seq::empty(), Seq::empty()),
    }
}

/// The route that an annotation of method `method` with the arguments
/// `args` describes.
pub open spec fn described_route(method: HttpMethod, args: Seq<ArgumentForm>) -> RouteInfoView {
    RouteInfoView {
        method,
        path: route_path(args),
        extractors: route_extractors(args).0,
        response_headers: header_results(args).0,
        content_type: content_type_results(args).0,
    }
}

/// What is reported of an annotation of method `method` with the
/// arguments `args`: what parsing finds, then what validation of the
/// extractors finds, then what validation of the path finds.
pub open spec fn route_diagnostics(method: HttpMethod, args: Seq<ArgumentForm>, caps: Capabilities)
    -> Seq<DiagnosticView> {
    route_extractors(args).1 + header_results(args).1 + content_type_results(args).1
        + extractor_diagnostics(route_extractors(args).0, method, caps) + path_diagnostics(
        route_path(args),
        route_extractors(args).0,
    )
}

/// The route that the annotations `attrs` of one handler declare, and
/// what is reported of them.
///
/// The first annotation whose keyword is an HTTP method decides. An
/// annotation before it whose single keyword is no method is a fatal
/// diagnostic; one that does not start with a single keyword is passed
/// over.
pub open spec fn route_from_annotations(attrs: Seq<Seq<char>>, caps: Capabilities) -> (
    Option<RouteInfoView>,
    Seq<DiagnosticView>,
)
    decreases attrs.len(),
{
    if attrs.len() == 0 {
        (None, Seq::empty())
    } else {
        match annotation_head(attrs[0]) {
            Some((word, args)) => match method_named(word) {
                Some(method) => (
                    Some(described_route(method, args)),
                    route_diagnostics(method, args, caps),
                ),
                None => {
                    let later = route_from_annotations(attrs.drop_first(), caps);
                    (
                        later.0,
                        seq![
                            diagnostic(
                                DiagnosticCode::UnknownHttpMethod,
                                word,
                                Seq::<char>::empty(),
                            ),
                        ] + later.1,
                    )
                },
            },
            None => route_from_annotations(attrs.drop_first(), caps),
        }
    }
}

/// Whether `names` holds the text of `name`.
pub fn holds_name(names: &Vec<String>, name: &String) -> (b: bool)
    ensures
        b == names.deep_view().contains(name@),
{
    let mut i: usize = 0;
    while i < names.len()
        invariant
            i <= names.len(),
            forall|j: int| 0 <= j < i ==> names.deep_view()[j] != name@,
        decreases names.len() - i,
    {
        if names[i] == *name {
            assert(names.deep_view()[i as int] == name@);
            return true;
        }
        i += 1;
    }
    false
}

/// The placeholder names of the route path `path`.
pub fn path_parameters(path: &str) -> (names: Vec<String>)
    ensures
        names.deep_view() == path_placeholders(path@),
{
    let cs = chars_of(path);
    let segments = split_at(cs.as_slice(), '/');
    let ghost sv = slice_views(segments@);
    let mut names: Vec<String> = Vec::new();
    assert(names.deep_view() =~= placeholders_of(sv.take(0)));
    let mut i: usize = 0;
    while i < segments.len()
        invariant
            i <= segments.len(),
            sv == slice_views(segments@),
            names.deep_view() == placeholders_of(sv.take(i as int)),
        decreases segments.len() - i,
    {
        assert(sv.take(i + 1).drop_last() =~= sv.take(i as int));
        let segment = segments[i];
        assert(segment@ == sv[i as int]);
        let n = segment.len();
        if n >= 2 && segment[0] == '{' && segment[n - 1] == '}' {
            let name = string_of(slice_subrange(segment, 1, n - 1));
            if !holds_name(&names, &name) {
                let ghost before = names.deep_view();
                names.push(name);
                assert(names.deep_view() =~= before.push(name@));
            }
        }
        i += 1;
    }
    assert(sv.take(i as int) =~= sv);
    names
}

/// Checks the placeholders of the route path `path` against the extractor
/// map: every placeholder needs a `Path` entry of its name, and a `Path`
/// entry should name a placeholder.
pub fn validate_path_parameters(
    path: &str,
    extractors: &ExtractorMap,
    diagnostics: &mut Diagnostics,
)
    ensures
        final(diagnostics)@ == old(diagnostics)@ + path_diagnostics(path@, extractors@),
{
    let ghost start = diagnostics@;
    let ghost es = extractors@;
    let names = path_parameters(path);
    let ghost nv = names.deep_view();
    assert(diagnostics@ =~= start + placeholder_errors(nv.take(0), path@, es));
    let mut i: usize = 0;
    while i < names.len()
        invariant
            i <= names.len(),
            nv == names.deep_view(),
            es == extractors@,
            diagnostics@ == start + placeholder_errors(nv.take(i as int), path@, es),
        decreases names.len() - i,
    {
        assert(nv.take(i + 1).drop_last() =~= nv.take(i as int));
        match extractors.get(&names[i]) {
            Some(kind) => {
                if kind != ExtractorType::Path {
                    diagnostics.report(
                        DiagnosticCode::PathParameterWrongKind,
                        names[i].clone(),
                        path.to_owned(),
                    );
                }
            },
            None => {
                diagnostics.report(
                    DiagnosticCode::PathParameterWithoutExtractor,
                    names[i].clone(),
                    path.to_owned(),
                );
            },
        }
        assert(diagnostics@ =~= start + placeholder_errors(nv.take(i + 1), path@, es));
        i += 1;
    }
    assert(nv.take(i as int) =~= nv);
    let ghost middle = diagnostics@;
    assert(diagnostics@ =~= middle + unused_path_warnings(es.take(0), nv, path@));
    let mut k: usize = 0;
    while k < extractors.entries.len()
        invariant
            k <= extractors.entries.len(),
            nv == names.deep_view(),
            es == extractors@,
            diagnostics@ == middle + unused_path_warnings(es.take(k as int), nv, path@),
        decreases extractors.entries.len() - k,
    {
        assert(es.take(k + 1).drop_last() =~= es.take(k as int));
        if extractors.entries[k].1 == ExtractorType::Path && !holds_name(
            &names,
            &extractors.entries[k].0,
        ) {
            diagnostics.report(
                DiagnosticCode::UnusedPathExtractor,
                extractors.entries[k].0.clone(),
                path.to_owned(),
            );
        }
        assert(diagnostics@ =~= middle + unused_path_warnings(es.take(k + 1), nv, path@));
        k += 1;
    }
    assert(es.take(k as int) =~= es);
    assert(diagnostics@ =~= start + path_diagnostics(path@, extractors@));
}

/// Reads the entries of an `extract(...)` list into an extractor map, and
/// reports what is wrong with them.
pub fn parse_extract_list(body: &[char], diagnostics: &mut Diagnostics) -> (map: ExtractorMap)
    ensures
        map@ == extract_list(body@).0,
        final(diagnostics)@ == old(diagnostics)@ + extract_list(body@).1,
        map.wf(),
{
    let ghost start = diagnostics@;
    let pairs = split_at_top_level(body, ',');
    let ghost pv = slice_views(pairs@);
    let mut map = ExtractorMap::new();
    assert(diagnostics@ =~= start + extract_steps(pv.take(0)).1);
    let mut i: usize = 0;
    while i < pairs.len()
        invariant
            i <= pairs.len(),
            pv == slice_views(pairs@),
            map@ == extract_steps(pv.take(i as int)).0,
            diagnostics@ == start + extract_steps(pv.take(i as int)).1,
            map.wf(),
        decreases pairs.len() - i,
    {
        assert(pv.take(i + 1).drop_last() =~= pv.take(i as int));
        assert(pairs@[i as int]@ == pv[i as int]);
        let entry = trimmed(pairs[i]);
        let parts = split_at(entry, '=');
        let ghost parts_view = slice_views(parts@);
        if parts.len() == 2 {
            assert(parts_view[0] == parts@[0]@ && parts_view[1] == parts@[1]@);
            let name = string_of(trimmed(parts[0]));
            let written = trimmed(parts[1]);
            match ExtractorType::from_name(written) {
                Some(kind) => {
                    map.insert(name, kind);
                },
                None => {
                    diagnostics.report(
                        DiagnosticCode::UnknownExtractor,
                        string_of(written),
                        String::new(),
                    );
                    map.insert(name, ExtractorType::Plain);
                },
            }
        } else if parts.len() == 1 && entry.len() > 0 {
            diagnostics.report(
                DiagnosticCode::InvalidExtractorSyntax,
                string_of(entry),
                String::new(),
            );
        }
        assert(diagnostics@ =~= start + extract_steps(pv.take(i + 1)).1);
        i += 1;
    }
    assert(pv.take(i as int) =~= pv);
    map
}

/// Builds the route descriptor of an annotation of method `method` with
/// the arguments `args`, validates it, and reports what is found.
pub fn describe_route<'a>(
    method: HttpMethod,
    args: &Vec<Argument<'a>>,
    capabilities: &Capabilities,
    diagnostics: &mut Diagnostics,
) -> (route: RouteInfo)
    ensures
        route.deep_view() == described_route(method, args.deep_view()),
        final(diagnostics)@ == old(diagnostics)@ + route_diagnostics(
            method,
            args.deep_view(),
            *capabilities,
        ),
        route.extractors.wf(),
{
    let ghost start = diagnostics@;
    let ghost av = args.deep_view();
    let mut path = String::new();
    path.push('/');
    assert(path@ =~= seq!['/']);
    match find_first_literal(args) {
        Some(p) => {
            if p.len() > 0 {
                path = slash_prefixed(p);
            }
        },
        None => {},
    }
    let extractors = match find_first_call(args, "extract") {
        Some(body) => parse_extract_list(body, diagnostics),
        None => {
            assert(diagnostics@ =~= start + route_extractors(av).1);
            ExtractorMap::new()
        },
    };
    let response_headers = collect_headers(args, diagnostics);
    let content_type = read_content_type(args, diagnostics);
    validate_extractors(&extractors, method, capabilities, diagnostics);
    validate_path_parameters(path.as_str(), &extractors, diagnostics);
    assert(diagnostics@ =~= start + route_diagnostics(method, av, *capabilities));
    RouteInfo { method, path, extractors, response_headers, content_type }
}

/// Reads the route of one handler from the text of its annotations, and
/// reports what is found.
pub fn extract_route_from_attrs(
    attrs: &Vec<String>,
    capabilities: &Capabilities,
    diagnostics: &mut Diagnostics,
) -> (route: Option<RouteInfo>)
    ensures
        route.deep_view() == route_from_annotations(attrs.deep_view(), *capabilities).0,
        final(diagnostics)@ == old(diagnostics)@ + route_from_annotations(
            attrs.deep_view(),
            *capabilities,
        ).1,
        route matches Some(r) ==> r.extractors.wf(),
{
    let ghost start = diagnostics@;
    let ghost av = attrs.deep_view();
    let ghost whole = route_from_annotations(av, *capabilities);
    assert(av.skip(0) =~= av);
    let mut i: usize = 0;
    while i < attrs.len()
        invariant
            i <= attrs.len(),
            av == attrs.deep_view(),
            start == old(diagnostics)@,
            whole == route_from_annotations(av, *capabilities),
            whole.0 == route_from_annotations(av.skip(i as int), *capabilities).0,
            start + whole.1 == diagnostics@ + route_from_annotations(
                av.skip(i as int),
                *capabilities,
            ).1,
        decreases attrs.len() - i,
    {
        let ghost rest = av.skip(i as int);
        assert(rest[0] == av[i as int]);
        assert(rest.drop_first() =~= av.skip(i + 1));
        let ghost reported = diagnostics@;
        let cs = chars_of(attrs[i].as_str());
        let head = classify_argument(cs.as_slice());
        let keyword: Option<&[char]> = match head {
            Argument::Word(word) => Some(word),
            Argument::Call { name, body } => Some(name),
            Argument::Unclosed { name } => Some(name),
            Argument::Assign { name, value } => Some(name),
            _ => None,
        };
        match keyword {
            Some(word) => {
                match HttpMethod::from_keyword(word) {
                    Some(method) => {
                        let args = match head {
                            Argument::Call { name, body } => parse_arguments(body),
                            _ => {
                                let none: Vec<Argument> = Vec::new();
                                assert(none.deep_view() =~= Seq::<ArgumentForm>::empty());
                                none
                            },
                        };
                        let route = describe_route(method, &args, capabilities, diagnostics);
                        assert(diagnostics@ =~= start + whole.1) by {
                            assert(reported + route_diagnostics(
                                method,
                                args.deep_view(),
                                *capabilities,
                            ) == start + whole.1);
                        }
                        return Some(route);
                    },
                    None => {
                        diagnostics.report(
                            DiagnosticCode::UnknownHttpMethod,
                            string_of(word),
                            String::new(),
                        );
                        let ghost d = diagnostic(
                            DiagnosticCode::UnknownHttpMethod,
                            word@,
                            Seq::<char>::empty(),
                        );
                        let ghost later = route_from_annotations(av.skip(i + 1), *capabilities);
                        assert(reported + (seq![d] + later.1) =~= reported.push(d) + later.1);
                    },
                }
            },
            None => {},
        }
        i += 1;
    }
    None
}

} // verus!
