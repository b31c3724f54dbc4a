//! Controller configuration, and how it is read from the controller
//! annotation.

use crate::diagnostics::diagnostic;
use crate::diagnostics::DiagnosticCode;
use crate::diagnostics::DiagnosticView;
use crate::diagnostics::Diagnostics;
use crate::parser::arguments::arguments_of;
use crate::parser::arguments::collect_headers;
use crate::parser::arguments::content_type_results;
use crate::parser::arguments::header_results;
use crate::parser::arguments::parse_arguments;
use crate::parser::arguments::read_content_type;
use crate::text::chars_of;
use crate::text::is_keyword;
use crate::text::literal_value;
use crate::text::slash_prefixed;
use crate::text::string_of;
use crate::text::value_of;
use crate::text::with_leading_slash;
use crate::text::Argument;
use crate::text::ArgumentForm;
use vstd::prelude::*;

verus! {

/// What a controller annotation declares for all routes of the controller.
#[derive(Clone, Debug, PartialEq, Eq)]
pub struct ControllerConfig {
    /// The prefix under which the controller's routes are nested. It
    /// starts with `/`.
    pub route_prefix: Option<String>,
    /// The middleware references, in the order of their declaration.
    pub middlewares: Vec<String>,
    /// The response headers of every route, as `(name, value)`, in the
    /// order of the annotation.
    pub response_headers: Vec<(String, String)>,
    /// The content type of every route's responses.
    pub content_type: Option<String>,
}

/// A controller configuration as a mathematical value.
pub struct ControllerConfigView {
    pub route_prefix: Option<Seq<char>>,
    pub middlewares: Seq<Seq<char>>,
    pub response_headers: Seq<(Seq<char>, Seq<char>)>,
    pub content_type: Option<Seq<char>>,
}

impl DeepView for ControllerConfig {
    type V = ControllerConfigView;

    open spec fn deep_view(&self) -> ControllerConfigView {
        ControllerConfigView {
            route_prefix: self.route_prefix.deep_view(),
            middlewares: self.middlewares.deep_view(),
            response_headers: self.response_headers.deep_view(),
            content_type: self.content_type.deep_view(),
        }
    }
}

impl View for ControllerConfig {
    type V = ControllerConfigView;

    open spec fn view(&self) -> ControllerConfigView {
        self.deep_view()
    }
}

/// Whether `text` is a path of the Rust language, as `syn` parses one:
/// what `syn::parse_str::<syn::Path>` accepts.
pub uninterp spec fn is_rust_path(text: Seq<char>) -> bool;

/// Asks `syn::parse_str::<syn::Path>` whether all of `text` parses as one
/// path. The answer depends on the text alone; it is not proved here.
#[verifier::external_body]
fn parses_as_path(text: &str) -> (ok: bool)
    ensures
        ok == is_rust_path(text@),
{
    syn::parse_str::<syn::Path>(text).is_ok()
}

/// The middleware references and the diagnostics so far, after the
/// reference `value`, of which `is_path` says whether it is a path.
pub open spec fn middleware_step(
    state: (Seq<Seq<char>>, Seq<DiagnosticView>),
    value: Seq<char>,
    is_path: bool,
) -> (Seq<Seq<char>>, Seq<DiagnosticView>) {
    if value.len() == 0 {
        (
            state.0,
            state.1.push(
                diagnostic(
                    DiagnosticCode::EmptyMiddleware,
                    Seq::<char>::empty(),
                    Seq::<char>::empty(),
                ),
            ),
        )
    } else if is_path {
        (state.0.push(value), state.1)
    } else {
        (
            state.0,
            state.1.push(
                diagnostic(DiagnosticCode::InvalidMiddleware, value, Seq::<char>::empty()),
            ),
        )
    }
}

/// What a scan of the arguments of a controller annotation has found of
/// the prefix and the middleware.
pub struct ConfigScan {
    pub route_prefix: Option<Seq<char>>,
    pub middlewares: Seq<Seq<char>>,
    pub diagnostics: Seq<DiagnosticView>,
}

/// One diagnostic of code `code` more.
pub open spec fn scan_report(scan: ConfigScan, code: DiagnosticCode) -> ConfigScan {
    ConfigScan {
        diagnostics: scan.diagnostics.push(
            diagnostic(code, Seq::<char>::empty(), Seq::<char>::empty()),
        ),
        ..scan
    }
}

/// The scan after the argument `arg`.
///
/// `path = "..."` sets the prefix, with a leading slash; the last one
/// decides, and an empty one is warned about. `middleware = reference`
/// adds a reference, which has to be a path. `path` and `middleware` in any
/// other shape are fatal.
pub open spec fn config_step(scan: ConfigScan, arg: ArgumentForm) -> ConfigScan {
    match arg {
        ArgumentForm::Assign { name, value } => if name == "path"@ {
            let prefix = literal_value(value);
            ConfigScan {
                route_prefix: Some(with_leading_slash(prefix)),
                diagnostics: if prefix.len() == 0 {
                    scan.diagnostics.push(
                        diagnostic(
                            DiagnosticCode::EmptyPath,
                            Seq::<char>::empty(),
                            Seq::<char>::empty(),
                        ),
                    )
                } else {
                    scan.diagnostics
                },
                ..scan
            }
        } else if name == "middleware"@ {
            let after = middleware_step(
                (scan.middlewares, scan.diagnostics),
                value,
                is_rust_path(value),
            );
            ConfigScan { middlewares: after.0, diagnostics: after.1, ..scan }
        } else {
            scan
        },
        ArgumentForm::Word(name) => misplaced_keyword(scan, name),
        ArgumentForm::Call { name, body } => misplaced_keyword(scan, name),
        ArgumentForm::Unclosed { name } => misplaced_keyword(scan, name),
        _ => scan,
    }
}

/// The scan after an argument that starts with the keyword `name` and is
/// no assignment.
pub open spec fn misplaced_keyword(scan: ConfigScan, name: Seq<char>) -> ConfigScan {
    if name == "path"@ {
        scan_report(scan, DiagnosticCode::InvalidPathFormat)
    } else if name == "middleware"@ {
        scan_report(scan, DiagnosticCode::InvalidMiddlewareFormat)
    } else {
        scan
    }
}

/// The scan after all of `args`.
pub open spec fn config_scan(args: Seq<ArgumentForm>) -> ConfigScan
    decreases args.len(),
{
    if args.len() == 0 {
        ConfigScan { route_prefix: None, middlewares: Seq::empty(), diagnostics: Seq::empty() }
    } else {
        config_step(config_scan(args.drop_last()), args.last())
    }
}

/// The configuration that the controller annotation `text` declares, and
/// what is reported of it: first about prefix and middleware, then about
/// headers, then about the content type.
pub open spec fn parsed_config(text: Seq<char>) -> (ControllerConfigView, Seq<DiagnosticView>) {
    let args = arguments_of(text);
    let scan = config_scan(args);
    (
        ControllerConfigView {
            route_prefix: scan.route_prefix,
            middlewares: scan.middlewares,
            response_headers: header_results(args).0,
            content_type: content_type_results(args).0,
        },
        scan.diagnostics + header_results(args).1 + content_type_results(args).1,
    )
}

/// Takes the middleware reference `value` into `middlewares` where
/// `is_path` says that it is a path, and reports it where it is empty or
/// no path.
pub fn accept_middleware(
    value: String,
    is_path: bool,
    middlewares: &mut Vec<String>,
    diagnostics: &mut Diagnostics,
)
    ensures
        (final(middlewares).deep_view(), final(diagnostics)@) == middleware_step(
            (old(middlewares).deep_view(), old(diagnostics)@),
            value@,
            is_path,
        ),
{
    if value.as_str().unicode_len() == 0 {
        diagnostics.report(DiagnosticCode::EmptyMiddleware, String::new(), String::new());
    } else if is_path {
        middlewares.push(value);
        assert(middlewares.deep_view() =~= old(middlewares).deep_view().push(value@));
    } else {
        diagnostics.report(DiagnosticCode::InvalidMiddleware, value, String::new());
    }
}

/// Reports an argument that starts with the keyword `name` and is no
/// assignment.
fn reject_keyword(name: &[char], diagnostics: &mut Diagnostics)
    ensures
        final(diagnostics)@ == if name@ == "path"@ {
            old(diagnostics)@.push(
                diagnostic(
                    DiagnosticCode::InvalidPathFormat,
                    Seq::<char>::empty(),
                    Seq::<char>::empty(),
                ),
            )
        } else if name@ == "middleware"@ {
            old(diagnostics)@.push(
                diagnostic(
                    DiagnosticCode::InvalidMiddlewareFormat,
                    Seq::<char>::empty(),
                    Seq::<char>::empty(),
                ),
            )
        } else {
            old(diagnostics)@
        },
{
    if is_keyword(name, "path") {
        diagnostics.report(DiagnosticCode::InvalidPathFormat, String::new(), String::new());
    } else if is_keyword(name, "middleware") {
        diagnostics.report(DiagnosticCode::InvalidMiddlewareFormat, String::new(), String::new());
    }
}

/// Reads the controller annotation `attr` into a configuration, and
/// reports what is wrong with it.
pub fn parse_controller_attributes(attr: &str, diagnostics: &mut Diagnostics) -> (config:
    ControllerConfig)
    ensures
        config.deep_view() == parsed_config(attr@).0,
        final(diagnostics)@ == old(diagnostics)@ + parsed_config(attr@).1,
{
    let ghost start = diagnostics@;
    let cs = chars_of(attr);
    let args = parse_arguments(cs.as_slice());
    let ghost av = args.deep_view();
    let mut route_prefix: Option<String> = None;
    let mut middlewares: Vec<String> = Vec::new();
    assert(middlewares.deep_view() =~= config_scan(av.take(0)).middlewares);
    assert(diagnostics@ =~= start + config_scan(av.take(0)).diagnostics);
    let mut i: usize = 0;
    while i < args.len()
        invariant
            i <= args.len(),
            av == args.deep_view(),
            route_prefix.deep_view() == config_scan(av.take(i as int)).route_prefix,
            middlewares.deep_view() == config_scan(av.take(i as int)).middlewares,
            diagnostics@ == start + config_scan(av.take(i as int)).diagnostics,
        decreases args.len() - i,
    {
        assert(av.take(i + 1).drop_last() =~= av.take(i as int));
        let ghost before = config_scan(av.take(i as int));
        match args[i] {
            Argument::Assign { name, value } => {
                if is_keyword(name, "path") {
                    let prefix = value_of(value);
                    if prefix.len() == 0 {
                        diagnostics.report(
                            DiagnosticCode::EmptyPath,
                            String::new(),
                            String::new(),
                        );
                    }
                    route_prefix = Some(slash_prefixed(prefix));
                } else if is_keyword(name, "middleware") {
                    let reference = string_of(value);
                    let is_path = parses_as_path(reference.as_str());
                    let ghost reported = diagnostics@;
                    let mut found = Diagnostics::new();
                    accept_middleware(reference, is_path, &mut middlewares, &mut found);
                    diagnostics.absorb(found);
                    assert(diagnostics@ =~= start + middleware_step(
                        (before.middlewares, before.diagnostics),
                        value@,
                        is_rust_path(value@),
                    ).1) by {
                        let step = middleware_step(
                            (before.middlewares, Seq::<DiagnosticView>::empty()),
                            value@,
                            is_rust_path(value@),
                        );
                        assert(found@ == step.1);
                        assert(reported == start + before.diagnostics);
                    }
                }
            },
            Argument::Word(name) => {
                reject_keyword(name, diagnostics);
            },
            Argument::Call { name, body } => {
                reject_keyword(name, diagnostics);
            },
            Argument::Unclosed { name } => {
                reject_keyword(name, diagnostics);
            },
            _ => {},
        }
        assert(diagnostics@ =~= start + config_scan(av.take(i + 1)).diagnostics);
        i += 1;
    }
    assert(av.take(i as int) =~= av);
    let response_headers = collect_headers(&args, diagnostics);
    let content_type = read_content_type(&args, diagnostics);
    assert(diagnostics@ =~= start + parsed_config(attr@).1);
    ControllerConfig { route_prefix, middlewares, response_headers, content_type }
}

} // verus!
