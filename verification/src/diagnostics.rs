//! Build-time diagnostics.
//!
//! Every parsing and validation step reports into a `Diagnostics` value that
//! it hands back with its result. A fatal diagnostic stops synthesis of the
//! unit it is about; an advisory one does not.

use vstd::prelude::*;
use vstd::string::StringExecFns;

verus! {

/// How serious a diagnostic is.
#[derive(Clone, Copy, Debug, PartialEq, Eq, Structural)]
pub enum Severity {
    /// Fatal: synthesis of the affected unit stops.
    Error,
    /// Advisory: synthesis goes on.
    Warning,
}

/// What a diagnostic is about.
#[derive(Clone, Copy, Debug, PartialEq, Eq, Structural)]
pub enum DiagnosticCode {
    /// An extractor kind that is not one of the known names. Subject: the
    /// name as written.
    UnknownExtractor,
    /// An entry of an `extract(...)` list that is not `name = Kind`.
    /// Subject: the entry.
    InvalidExtractorSyntax,
    /// More than one body-consuming extractor on a route. Subject: all the
    /// offending entries.
    MultipleBodyExtractors,
    /// A path placeholder whose extractor entry is not `Path`. Subject: the
    /// parameter; context: the path.
    PathParameterWrongKind,
    /// A path placeholder with no extractor entry. Subject: the parameter;
    /// context: the path.
    PathParameterWithoutExtractor,
    /// A middleware reference that is not a path. Subject: the reference.
    InvalidMiddleware,
    /// `middleware =` with nothing behind it.
    EmptyMiddleware,
    /// A `middleware` argument that is not `middleware = reference`.
    InvalidMiddlewareFormat,
    /// A `path` argument that is not `path = "..."`.
    InvalidPathFormat,
    /// An annotation keyword that is no HTTP method. Subject: the keyword.
    UnknownHttpMethod,
    /// A header whose name or value is empty.
    EmptyHeader,
    /// A `header(...)` argument list that is neither `"name", "value"` nor
    /// `name = "value"`.
    InvalidHeaderFormat,
    /// `header(` that is never closed.
    UnclosedHeader,
    /// `content_type("")`.
    EmptyContentType,
    /// `content_type(` that is never closed.
    UnclosedContentType,
    /// `path = ""`.
    EmptyPath,
    /// A declared parameter with no extractor entry. Subject: the parameter.
    ParameterWithoutExtractor,
    /// An extractor entry that names no declared parameter. Subject: the
    /// entry's name; context: its kind.
    ExtractorWithoutParameter,
    /// Two declared parameters of one name. Subject: the name.
    DuplicateParameter,
    /// A parameter whose pattern is not a plain identifier. Subject: the
    /// pattern.
    ComplexPattern,
    /// A context extractor whose host capability is not enabled. Subject:
    /// the parameter; context: the capability.
    CapabilityDisabled,
    /// A body-consuming extractor on a method that carries no body.
    /// Subject: the parameter; context: the method.
    BodyOnBodilessMethod,
    /// A `Path` extractor whose name is no placeholder of the path.
    /// Subject: the parameter; context: the path.
    UnusedPathExtractor,
    /// A controller without a single route.
    NoRoutes,
}

impl DiagnosticCode {
    pub open spec fn spec_severity(self) -> Severity {
        match self {
            DiagnosticCode::UnknownExtractor
            | DiagnosticCode::InvalidExtractorSyntax
            | DiagnosticCode::MultipleBodyExtractors
            | DiagnosticCode::PathParameterWrongKind
            | DiagnosticCode::PathParameterWithoutExtractor
            | DiagnosticCode::InvalidMiddleware
            | DiagnosticCode::EmptyMiddleware
            | DiagnosticCode::InvalidMiddlewareFormat
            | DiagnosticCode::InvalidPathFormat
            | DiagnosticCode::UnknownHttpMethod => Severity::Error,
            _ => Severity::Warning,
        }
    }

    /// Whether the diagnostic is fatal or advisory.
    pub fn severity(&self) -> (s: Severity)
        ensures
            s == self.spec_severity(),
    {
        match self {
            DiagnosticCode::UnknownExtractor
            | DiagnosticCode::InvalidExtractorSyntax
            | DiagnosticCode::MultipleBodyExtractors
            | DiagnosticCode::PathParameterWrongKind
            | DiagnosticCode::PathParameterWithoutExtractor
            | DiagnosticCode::InvalidMiddleware
            | DiagnosticCode::EmptyMiddleware
            | DiagnosticCode::InvalidMiddlewareFormat
            | DiagnosticCode::InvalidPathFormat
            | DiagnosticCode::UnknownHttpMethod => Severity::Error,
            _ => Severity::Warning,
        }
    }

    pub open spec fn spec_headline(self) -> Seq<char> {
        match self {
            DiagnosticCode::UnknownExtractor => "unknown extractor type"@,
            DiagnosticCode::InvalidExtractorSyntax =>
                "invalid extractor syntax, expected 'param_name = ExtractorType'"@,
            DiagnosticCode::MultipleBodyExtractors =>
                "multiple body extractors found, only one is allowed per route"@,
            DiagnosticCode::PathParameterWrongKind =>
                "path parameter should use the Path extractor"@,
            DiagnosticCode::PathParameterWithoutExtractor =>
                "path parameter found in the route path but no extractor specified"@,
            DiagnosticCode::InvalidMiddleware => "invalid middleware path"@,
            DiagnosticCode::EmptyMiddleware => "empty middleware value in controller attribute"@,
            DiagnosticCode::InvalidMiddlewareFormat =>
                "invalid middleware attribute format, expected 'middleware = my_middleware'"@,
            DiagnosticCode::InvalidPathFormat =>
                "invalid path attribute format, expected 'path = \"/route\"'"@,
            DiagnosticCode::UnknownHttpMethod => "unknown HTTP method"@,
            DiagnosticCode::EmptyHeader => "empty header name or value in header attribute"@,
            DiagnosticCode::InvalidHeaderFormat =>
                "invalid header attribute format, expected 'header(\"name\", \"value\")'"@,
            DiagnosticCode::UnclosedHeader => "unclosed parenthesis in header attribute"@,
            DiagnosticCode::EmptyContentType => "empty content_type value"@,
            DiagnosticCode::UnclosedContentType =>
                "unclosed parenthesis in content_type attribute"@,
            DiagnosticCode::EmptyPath => "empty path value in controller attribute"@,
            DiagnosticCode::ParameterWithoutExtractor =>
                "parameter has no extractor specified and will not receive any data from the request"@,
            DiagnosticCode::ExtractorWithoutParameter =>
                "extractor specified for a parameter that does not exist in the function signature"@,
            DiagnosticCode::DuplicateParameter =>
                "duplicate parameter name found in function signature"@,
            DiagnosticCode::ComplexPattern =>
                "complex pattern in function parameter, extractor mapping may not work correctly"@,
            DiagnosticCode::CapabilityDisabled =>
                "extractor requires a feature that is not enabled"@,
            DiagnosticCode::BodyOnBodilessMethod =>
                "body extractor on a method whose requests typically have no body"@,
            DiagnosticCode::UnusedPathExtractor =>
                "Path extractor specified for a parameter that is not in the route path"@,
            DiagnosticCode::NoRoutes => "no routes found in controller"@,
        }
    }

    /// The fixed text that a message of this code starts with.
    pub fn headline(&self) -> (s: &'static str)
        ensures
            s@ == self.spec_headline(),
    {
        match self {
            DiagnosticCode::UnknownExtractor => "unknown extractor type",
            DiagnosticCode::InvalidExtractorSyntax =>
                "invalid extractor syntax, expected 'param_name = ExtractorType'",
            DiagnosticCode::MultipleBodyExtractors =>
                "multiple body extractors found, only one is allowed per route",
            DiagnosticCode::PathParameterWrongKind =>
                "path parameter should use the Path extractor",
            DiagnosticCode::PathParameterWithoutExtractor =>
                "path parameter found in the route path but no extractor specified",
            DiagnosticCode::InvalidMiddleware => "invalid middleware path",
            DiagnosticCode::EmptyMiddleware => "empty middleware value in controller attribute",
            DiagnosticCode::InvalidMiddlewareFormat =>
                "invalid middleware attribute format, expected 'middleware = my_middleware'",
            DiagnosticCode::InvalidPathFormat =>
                "invalid path attribute format, expected 'path = \"/route\"'",
            DiagnosticCode::UnknownHttpMethod => "unknown HTTP method",
            DiagnosticCode::EmptyHeader => "empty header name or value in header attribute",
            DiagnosticCode::InvalidHeaderFormat =>
                "invalid header attribute format, expected 'header(\"name\", \"value\")'",
            DiagnosticCode::UnclosedHeader => "unclosed parenthesis in header attribute",
            DiagnosticCode::EmptyContentType => "empty content_type value",
            DiagnosticCode::UnclosedContentType =>
                "unclosed parenthesis in content_type attribute",
            DiagnosticCode::EmptyPath => "empty path value in controller attribute",
            DiagnosticCode::ParameterWithoutExtractor =>
                "parameter has no extractor specified and will not receive any data from the request",
            DiagnosticCode::ExtractorWithoutParameter =>
                "extractor specified for a parameter that does not exist in the function signature",
            DiagnosticCode::DuplicateParameter =>
                "duplicate parameter name found in function signature",
            DiagnosticCode::ComplexPattern =>
                "complex pattern in function parameter, extractor mapping may not work correctly",
            DiagnosticCode::CapabilityDisabled =>
                "extractor requires a feature that is not enabled",
            DiagnosticCode::BodyOnBodilessMethod =>
                "body extractor on a method whose requests typically have no body",
            DiagnosticCode::UnusedPathExtractor =>
                "Path extractor specified for a parameter that is not in the route path",
            DiagnosticCode::NoRoutes => "no routes found in controller",
        }
    }
}

/// One diagnostic: what it is about, and the parameter or route it names.
#[derive(Clone, Debug, PartialEq, Eq)]
pub struct Diagnostic {
    pub code: DiagnosticCode,
    /// The offending parameter, entry or keyword; empty where the code
    /// names none.
    pub subject: String,
    /// The route path, method or capability it belongs to; empty where the
    /// code names none.
    pub context: String,
}

/// A diagnostic as a mathematical value.
pub struct DiagnosticView {
    pub code: DiagnosticCode,
    pub subject: Seq<char>,
    pub context: Seq<char>,
}

impl DeepView for Diagnostic {
    type V = DiagnosticView;

    open spec fn deep_view(&self) -> DiagnosticView {
        DiagnosticView { code: self.code, subject: self.subject@, context: self.context@ }
    }
}

impl View for Diagnostic {
    type V = DiagnosticView;

    open spec fn view(&self) -> DiagnosticView {
        self.deep_view()
    }
}

/// A diagnostic of `code` with a subject and a context.
pub open spec fn diagnostic(code: DiagnosticCode, subject: Seq<char>, context: Seq<char>)
    -> DiagnosticView {
    DiagnosticView { code, subject, context }
}

/// The text of a diagnostic: the headline of its code, then the subject
/// after a colon and the context in parentheses, each where it is not
/// empty.
pub open spec fn message_text(d: DiagnosticView) -> Seq<char> {
    d.code.spec_headline() + (if d.subject.len() > 0 {
        ": "@ + d.subject
    } else {
        Seq::<char>::empty()
    }) + (if d.context.len() > 0 {
        " ("@ + d.context + ")"@
    } else {
        Seq::<char>::empty()
    })
}

impl Diagnostic {
    pub fn severity(&self) -> (s: Severity)
        ensures
            s == self@.code.spec_severity(),
    {
        self.code.severity()
    }

    pub fn is_error(&self) -> (b: bool)
        ensures
            b == (self@.code.spec_severity() == Severity::Error),
    {
        self.code.severity() == Severity::Error
    }

    /// The text of the diagnostic.
    pub fn message(&self) -> (text: String)
        ensures
            text@ == message_text(self@),
    {
        let mut text = self.code.headline().to_owned();
        if self.subject.as_str().unicode_len() > 0 {
            text.append(": ");
            text.append(self.subject.as_str());
        } else {
            assert(text@ + Seq::<char>::empty() =~= text@);
        }
        if self.context.as_str().unicode_len() > 0 {
            let ghost before = text@;
            text.append(" (");
            text.append(self.context.as_str());
            text.append(")");
            assert(text@ =~= before + (" ("@ + self.context@ + ")"@));
        } else {
            assert(text@ + Seq::<char>::empty() =~= text@);
        }
        assert(self.code.spec_headline() + (": "@ + self.subject@) =~= self.code.spec_headline()
            + ": "@ + self.subject@);
        text
    }
}

/// Some diagnostic of the list is fatal.
pub open spec fn has_error(ds: Seq<DiagnosticView>) -> bool {
    exists|i: int| 0 <= i < ds.len() && ds[i].code.spec_severity() == Severity::Error
}

/// How many diagnostics of the list have severity `sev`.
pub open spec fn count_severity(ds: Seq<DiagnosticView>, sev: Severity) -> nat
    decreases ds.len(),
{
    if ds.len() == 0 {
        0
    } else {
        count_severity(ds.drop_last(), sev) + if ds.last().code.spec_severity() == sev {
            1nat
        } else {
            0nat
        }
    }
}

/// How many diagnostics of the list have code `code`.
pub open spec fn count_code(ds: Seq<DiagnosticView>, code: DiagnosticCode) -> nat
    decreases ds.len(),
{
    if ds.len() == 0 {
        0
    } else {
        count_code(ds.drop_last(), code) + if ds.last().code == code {
            1nat
        } else {
            0nat
        }
    }
}

/// The diagnostics of one pass, in the order in which they were reported.
#[derive(Clone, Debug, PartialEq, Eq)]
pub struct Diagnostics {
    pub items: Vec<Diagnostic>,
}

impl View for Diagnostics {
    type V = Seq<DiagnosticView>;

    open spec fn view(&self) -> Seq<DiagnosticView> {
        self.items.deep_view()
    }
}

impl Diagnostics {
    /// No diagnostics.
    pub fn new() -> (d: Diagnostics)
        ensures
            d@ == Seq::<DiagnosticView>::empty(),
    {
        let d = Diagnostics { items: Vec::new() };
        assert(d@ =~= Seq::<DiagnosticView>::empty());
        d
    }

    /// Adds one diagnostic at the end.
    pub fn report(&mut self, code: DiagnosticCode, subject: String, context: String)
        ensures
            final(self)@ == old(self)@.push(diagnostic(code, subject@, context@)),
    {
        self.items.push(Diagnostic { code, subject, context });
        assert(self@ =~= old(self)@.push(diagnostic(code, subject@, context@)));
    }

    /// Adds the diagnostics of `other` at the end, in their order.
    pub fn absorb(&mut self, other: Diagnostics)
        ensures
            final(self)@ == old(self)@ + other@,
    {
        let mut other = other;
        let ghost added = other@;
        self.items.append(&mut other.items);
        assert(self@ =~= old(self)@ + added);
    }

    pub fn len(&self) -> (n: usize)
        ensures
            n == self@.len(),
    {
        self.items.len()
    }

    pub fn is_empty(&self) -> (b: bool)
        ensures
            b == (self@.len() == 0),
    {
        self.items.len() == 0
    }

    /// Whether a fatal diagnostic was reported.
    pub fn has_errors(&self) -> (b: bool)
        ensures
            b == has_error(self@),
    {
        let mut i: usize = 0;
        while i < self.items.len()
            invariant
                i <= self.items.len(),
                forall|j: int| 0 <= j < i ==> self@[j].code.spec_severity() != Severity::Error,
            decreases self.items.len() - i,
        {
            if self.items[i].is_error() {
                assert(self@[i as int].code.spec_severity() == Severity::Error);
                return true;
            }
            i += 1;
        }
        false
    }

    /// The number of diagnostics of severity `sev`.
    pub fn count(&self, sev: Severity) -> (n: usize)
        ensures
            n == count_severity(self@, sev),
    {
        let mut n: usize = 0;
        let mut i: usize = 0;
        while i < self.items.len()
            invariant
                i <= self.items.len(),
                n <= i,
                n == count_severity(self@.take(i as int), sev),
            decreases self.items.len() - i,
        {
            assert(self@.take(i + 1).drop_last() =~= self@.take(i as int));
            if self.items[i].severity() == sev {
                n += 1;
            }
            i += 1;
        }
        assert(self@.take(i as int) =~= self@);
        n
    }

    /// The number of diagnostics of code `code`.
    pub fn count_of(&self, code: DiagnosticCode) -> (n: usize)
        ensures
            n == count_code(self@, code),
    {
        let mut n: usize = 0;
        let mut i: usize = 0;
        while i < self.items.len()
            invariant
                i <= self.items.len(),
                n <= i,
                n == count_code(self@.take(i as int), code),
            decreases self.items.len() - i,
        {
            assert(self@.take(i + 1).drop_last() =~= self@.take(i as int));
            if self.items[i].code == code {
                n += 1;
            }
            i += 1;
        }
        assert(self@.take(i as int) =~= self@);
        n
    }
}

} // verus!
