//! Extractor kinds, HTTP methods, extractor maps and their validation.

use crate::assoc::distinct_names;
use crate::assoc::find_name;
use crate::assoc::lemma_upsert_distinct;
use crate::assoc::lookup;
use crate::assoc::upsert;
use crate::diagnostics::diagnostic;
use crate::diagnostics::DiagnosticCode;
use crate::diagnostics::DiagnosticView;
use crate::diagnostics::Diagnostics;
use crate::text::chars_of;
use crate::text::is_keyword;
use vstd::prelude::*;
use vstd::string::StringExecFns;

verus! {

/// The strategy by which one handler parameter gets its value.
#[derive(Clone, Copy, Debug, PartialEq, Eq, Hash, Structural)]
pub enum ExtractorType {
    /// A placeholder of the route path.
    Path,
    /// The query string.
    Query,
    /// One request header.
    HeaderParam,
    /// One cookie.
    CookieParam,
    /// One value of the session.
    SessionParam,
    /// The application state.
    State,
    /// The request body, as JSON.
    Json,
    /// The request body, as form data.
    Form,
    /// The request body, as raw bytes.
    Bytes,
    /// The request body, as text.
    Text,
    /// The request body, as HTML text.
    Html,
    /// The request body, as XML text.
    Xml,
    /// The request body, as JavaScript text.
    JavaScript,
    /// No managed extraction: the parameter is passed through.
    Plain,
}

impl DeepView for ExtractorType {
    type V = ExtractorType;

    open spec fn deep_view(&self) -> ExtractorType {
        *self
    }
}

/// The kind that `name` spells, if any. `Plain` has no name.
pub open spec fn kind_named(name: Seq<char>) -> Option<ExtractorType> {
    if name == "Json"@ {
        Some(ExtractorType::Json)
    } else if name == "Form"@ {
        Some(ExtractorType::Form)
    } else if name == "Path"@ {
        Some(ExtractorType::Path)
    } else if name == "Query"@ {
        Some(ExtractorType::Query)
    } else if name == "HeaderParam"@ {
        Some(ExtractorType::HeaderParam)
    } else if name == "CookieParam"@ {
        Some(ExtractorType::CookieParam)
    } else if name == "SessionParam"@ {
        Some(ExtractorType::SessionParam)
    } else if name == "State"@ {
        Some(ExtractorType::State)
    } else if name == "Bytes"@ {
        Some(ExtractorType::Bytes)
    } else if name == "Text"@ {
        Some(ExtractorType::Text)
    } else if name == "Html"@ {
        Some(ExtractorType::Html)
    } else if name == "Xml"@ {
        Some(ExtractorType::Xml)
    } else if name == "JavaScript"@ {
        Some(ExtractorType::JavaScript)
    } else {
        None
    }
}

/// The text that `from_str` fails with on the name `name`.
pub open spec fn unknown_kind_message(name: Seq<char>) -> Seq<char> {
    "Unknown extractor type: '"@ + name + "'"@
}

impl ExtractorType {
    /// The kind reads, and so uses up, the request body.
    pub open spec fn spec_is_body(self) -> bool {
        self is Json || self is Form || self is Bytes || self is Text || self is Html
            || self is Xml || self is JavaScript
    }

    /// The host capability that the kind needs, by its name.
    pub open spec fn spec_feature(self) -> Option<Seq<char>> {
        match self {
            ExtractorType::HeaderParam => Some("headers"@),
            ExtractorType::CookieParam => Some("cookies"@),
            ExtractorType::SessionParam => Some("sessions"@),
            _ => None,
        }
    }

    /// The kind's name as it is written in diagnostics.
    pub open spec fn spec_name(self) -> Seq<char> {
        match self {
            ExtractorType::Path => "Path"@,
            ExtractorType::Query => "Query"@,
            ExtractorType::HeaderParam => "HeaderParam"@,
            ExtractorType::CookieParam => "CookieParam"@,
            ExtractorType::SessionParam => "SessionParam"@,
            ExtractorType::State => "State"@,
            ExtractorType::Json => "Json"@,
            ExtractorType::Form => "Form"@,
            ExtractorType::Bytes => "Bytes"@,
            ExtractorType::Text => "Text"@,
            ExtractorType::Html => "Html"@,
            ExtractorType::Xml => "Xml"@,
            ExtractorType::JavaScript => "JavaScript"@,
            ExtractorType::Plain => "None"@,
        }
    }

    /// The kind that the characters `name` spell.
    pub fn from_name(name: &[char]) -> (r: Option<ExtractorType>)
        ensures
            r == kind_named(name@),
    {
        if is_keyword(name, "Json") {
            Some(ExtractorType::Json)
        } else if is_keyword(name, "Form") {
            Some(ExtractorType::Form)
        } else if is_keyword(name, "Path") {
            Some(ExtractorType::Path)
        } else if is_keyword(name, "Query") {
            Some(ExtractorType::Query)
        } else if is_keyword(name, "HeaderParam") {
            Some(ExtractorType::HeaderParam)
        } else if is_keyword(name, "CookieParam") {
            Some(ExtractorType::CookieParam)
        } else if is_keyword(name, "SessionParam") {
            Some(ExtractorType::SessionParam)
        } else if is_keyword(name, "State") {
            Some(ExtractorType::State)
        } else if is_keyword(name, "Bytes") {
            Some(ExtractorType::Bytes)
        } else if is_keyword(name, "Text") {
            Some(ExtractorType::Text)
        } else if is_keyword(name, "Html") {
            Some(ExtractorType::Html)
        } else if is_keyword(name, "Xml") {
            Some(ExtractorType::Xml)
        } else if is_keyword(name, "JavaScript") {
            Some(ExtractorType::JavaScript)
        } else {
            None
        }
    }

    /// The kind that `s` names, or a message that quotes `s`.
    pub fn from_str(s: &str) -> (r: Result<ExtractorType, String>)
        ensures
            match kind_named(s@) {
                Some(kind) => r == Ok::<ExtractorType, String>(kind),
                None => r is Err && r->Err_0@ == unknown_kind_message(s@),
            },
    {
        let cs = chars_of(s);
        match ExtractorType::from_name(cs.as_slice()) {
            Some(kind) => Ok(kind),
            None => {
                let mut message = "Unknown extractor type: '".to_owned();
                message.append(s);
                message.append("'");
                Err(message)
            },
        }
    }

    /// Whether the kind reads the request body.
    pub fn is_body_extractor(&self) -> (b: bool)
        ensures
            b == self.spec_is_body(),
    {
        matches!(
            self,
            ExtractorType::Json | ExtractorType::Form | ExtractorType::Bytes
                | ExtractorType::Text | ExtractorType::Html | ExtractorType::Xml
                | ExtractorType::JavaScript
        )
    }

    /// The name of the host capability that the kind needs, if it needs one.
    pub fn requires_feature(&self) -> (r: Option<&'static str>)
        ensures
            match r {
                Some(feature) => self.spec_feature() == Some(feature@),
                None => self.spec_feature() is None,
            },
    {
        match self {
            ExtractorType::HeaderParam => Some("headers"),
            ExtractorType::CookieParam => Some("cookies"),
            ExtractorType::SessionParam => Some("sessions"),
            _ => None,
        }
    }

    /// The kind's name as it is written in diagnostics.
    pub fn name(&self) -> (s: &'static str)
        ensures
            s@ == self.spec_name(),
    {
        match self {
            ExtractorType::Path => "Path",
            ExtractorType::Query => "Query",
            ExtractorType::HeaderParam => "HeaderParam",
            ExtractorType::CookieParam => "CookieParam",
            ExtractorType::SessionParam => "SessionParam",
            ExtractorType::State => "State",
            ExtractorType::Json => "Json",
            ExtractorType::Form => "Form",
            ExtractorType::Bytes => "Bytes",
            ExtractorType::Text => "Text",
            ExtractorType::Html => "Html",
            ExtractorType::Xml => "Xml",
            ExtractorType::JavaScript => "JavaScript",
            ExtractorType::Plain => "None",
        }
    }
}

/// The method that a route answers to.
#[derive(Clone, Copy, Debug, PartialEq, Eq, Hash, Structural)]
pub enum HttpMethod {
    Get,
    Head,
    Delete,
    Options,
    Patch,
    Post,
    Put,
    Trace,
    Connect,
}

/// `c` in lower case where it is an ASCII capital, else `c`.
pub open spec fn ascii_lower(c: char) -> char {
    if 'A' <= c && c <= 'Z' {
        ((c as u8) + 32) as char
    } else {
        c
    }
}

/// `s` with its ASCII capitals in lower case.
pub open spec fn ascii_lowercase(s: Seq<char>) -> Seq<char> {
    Seq::new(s.len(), |i: int| ascii_lower(s[i]))
}

/// The method that the keyword `word` names, whatever its case.
pub open spec fn method_named(word: Seq<char>) -> Option<HttpMethod> {
    let w = ascii_lowercase(word);
    if w == "get"@ {
        Some(HttpMethod::Get)
    } else if w == "head"@ {
        Some(HttpMethod::Head)
    } else if w == "delete"@ {
        Some(HttpMethod::Delete)
    } else if w == "options"@ {
        Some(HttpMethod::Options)
    } else if w == "patch"@ {
        Some(HttpMethod::Patch)
    } else if w == "post"@ {
        Some(HttpMethod::Post)
    } else if w == "put"@ {
        Some(HttpMethod::Put)
    } else if w == "trace"@ {
        Some(HttpMethod::Trace)
    } else if w == "connect"@ {
        Some(HttpMethod::Connect)
    } else {
        None
    }
}

impl HttpMethod {
    /// Requests of this method conventionally carry no body.
    pub open spec fn spec_is_bodiless(self) -> bool {
        self is Get || self is Head || self is Delete
    }

    pub open spec fn spec_keyword(self) -> Seq<char> {
        match self {
            HttpMethod::Get => "get"@,
            HttpMethod::Head => "head"@,
            HttpMethod::Delete => "delete"@,
            HttpMethod::Options => "options"@,
            HttpMethod::Patch => "patch"@,
            HttpMethod::Post => "post"@,
            HttpMethod::Put => "put"@,
            HttpMethod::Trace => "trace"@,
            HttpMethod::Connect => "connect"@,
        }
    }

    pub open spec fn spec_upper(self) -> Seq<char> {
        match self {
            HttpMethod::Get => "GET"@,
            HttpMethod::Head => "HEAD"@,
            HttpMethod::Delete => "DELETE"@,
            HttpMethod::Options => "OPTIONS"@,
            HttpMethod::Patch => "PATCH"@,
            HttpMethod::Post => "POST"@,
            HttpMethod::Put => "PUT"@,
            HttpMethod::Trace => "TRACE"@,
            HttpMethod::Connect => "CONNECT"@,
        }
    }

    /// The method that the annotation keyword `word` names.
    pub fn from_keyword(word: &[char]) -> (r: Option<HttpMethod>)
        ensures
            r == method_named(word@),
    {
        let mut lower: Vec<char> = Vec::new();
        let mut i: usize = 0;
        while i < word.len()
            invariant
                i <= word.len(),
                lower@ == ascii_lowercase(word@).take(i as int),
            decreases word.len() - i,
        {
            let c = word[i];
            let l = if 'A' <= c && c <= 'Z' {
                ((c as u8) + 32) as char
            } else {
                c
            };
            lower.push(l);
            i += 1;
            assert(lower@ =~= ascii_lowercase(word@).take(i as int));
        }
        assert(lower@ =~= ascii_lowercase(word@));
        let w = lower.as_slice();
        if is_keyword(w, "get") {
            Some(HttpMethod::Get)
        } else if is_keyword(w, "head") {
            Some(HttpMethod::Head)
        } else if is_keyword(w, "delete") {
            Some(HttpMethod::Delete)
        } else if is_keyword(w, "options") {
            Some(HttpMethod::Options)
        } else if is_keyword(w, "patch") {
            Some(HttpMethod::Patch)
        } else if is_keyword(w, "post") {
            Some(HttpMethod::Post)
        } else if is_keyword(w, "put") {
            Some(HttpMethod::Put)
        } else if is_keyword(w, "trace") {
            Some(HttpMethod::Trace)
        } else if is_keyword(w, "connect") {
            Some(HttpMethod::Connect)
        } else {
            None
        }
    }

    /// The method's keyword, in lower case.
    pub fn keyword(&self) -> (s: &'static str)
        ensures
            s@ == self.spec_keyword(),
    {
        match self {
            HttpMethod::Get => "get",
            HttpMethod::Head => "head",
            HttpMethod::Delete => "delete",
            HttpMethod::Options => "options",
            HttpMethod::Patch => "patch",
            HttpMethod::Post => "post",
            HttpMethod::Put => "put",
            HttpMethod::Trace => "trace",
            HttpMethod::Connect => "connect",
        }
    }

    /// The method's name, in upper case.
    pub fn upper(&self) -> (s: &'static str)
        ensures
            s@ == self.spec_upper(),
    {
        match self {
            HttpMethod::Get => "GET",
            HttpMethod::Head => "HEAD",
            HttpMethod::Delete => "DELETE",
            HttpMethod::Options => "OPTIONS",
            HttpMethod::Patch => "PATCH",
            HttpMethod::Post => "POST",
            HttpMethod::Put => "PUT",
            HttpMethod::Trace => "TRACE",
            HttpMethod::Connect => "CONNECT",
        }
    }

    /// Whether requests of this method conventionally carry no body.
    pub fn is_bodiless(&self) -> (b: bool)
        ensures
            b == self.spec_is_bodiless(),
    {
        matches!(self, HttpMethod::Get | HttpMethod::Head | HttpMethod::Delete)
    }
}

/// The host capabilities that are enabled.
#[derive(Clone, Copy, Debug, PartialEq, Eq, Structural)]
pub struct Capabilities {
    /// Access to request headers, for `HeaderParam`.
    pub headers: bool,
    /// Access to cookies, for `CookieParam`.
    pub cookies: bool,
    /// Access to the session, for `SessionParam`.
    pub sessions: bool,
}

impl Capabilities {
    /// What `kind` needs is enabled.
    pub open spec fn spec_enables(self, kind: ExtractorType) -> bool {
        match kind {
            ExtractorType::HeaderParam => self.headers,
            ExtractorType::CookieParam => self.cookies,
            ExtractorType::SessionParam => self.sessions,
            _ => true,
        }
    }

    /// Every capability enabled.
    pub fn all() -> (c: Capabilities)
        ensures
            c == (Capabilities { headers: true, cookies: true, sessions: true }),
    {
        Capabilities { headers: true, cookies: true, sessions: true }
    }

    /// No capability enabled.
    pub fn none() -> (c: Capabilities)
        ensures
            c == (Capabilities { headers: false, cookies: false, sessions: false }),
    {
        Capabilities { headers: false, cookies: false, sessions: false }
    }

    /// Whether what `kind` needs is enabled.
    pub fn enables(&self, kind: ExtractorType) -> (b: bool)
        ensures
            b == self.spec_enables(kind),
    {
        match kind {
            ExtractorType::HeaderParam => self.headers,
            ExtractorType::CookieParam => self.cookies,
            ExtractorType::SessionParam => self.sessions,
            _ => true,
        }
    }
}

/// The extractor map of a route: each parameter name with its kind. The
/// entries keep the order in which their names were first written; a name
/// occurs once.
#[derive(Clone, Debug, PartialEq, Eq)]
pub struct ExtractorMap {
    pub entries: Vec<(String, ExtractorType)>,
}

impl View for ExtractorMap {
    type V = Seq<(Seq<char>, ExtractorType)>;

    open spec fn view(&self) -> Seq<(Seq<char>, ExtractorType)> {
        self.entries.deep_view()
    }
}

impl ExtractorMap {
    /// No name occurs twice.
    pub open spec fn wf(&self) -> bool {
        distinct_names(self@)
    }

    /// The empty map.
    pub fn new() -> (m: ExtractorMap)
        ensures
            m@ == Seq::<(Seq<char>, ExtractorType)>::empty(),
            m.wf(),
    {
        let m = ExtractorMap { entries: Vec::new() };
        assert(m@ =~= Seq::<(Seq<char>, ExtractorType)>::empty());
        m
    }

    /// Binds `name` to `kind`, in place of what it was bound to.
    pub fn insert(&mut self, name: String, kind: ExtractorType)
        ensures
            final(self)@ == upsert(old(self)@, name@, kind),
            old(self).wf() ==> final(self).wf(),
    {
        proof {
            if self.wf() {
                lemma_upsert_distinct(self@, name@, kind);
            }
        }
        match find_name(&self.entries, &name) {
            Some(i) => {
                self.entries.set(i, (name, kind));
                assert(self@ =~= old(self)@.update(i as int, (name@, kind)));
            },
            None => {
                self.entries.push((name, kind));
                assert(self@ =~= old(self)@.push((name@, kind)));
            },
        }
    }

    /// The kind that `name` is bound to.
    pub fn get(&self, name: &String) -> (r: Option<ExtractorType>)
        ensures
            r == lookup(self@, name@),
    {
        match find_name(&self.entries, name) {
            Some(i) => Some(self.entries[i].1),
            None => None,
        }
    }

    pub fn len(&self) -> (n: usize)
        ensures
            n == self@.len(),
    {
        self.entries.len()
    }

    pub fn is_empty(&self) -> (b: bool)
        ensures
            b == (self@.len() == 0),
    {
        self.entries.len() == 0
    }
}

/// The entries of `es` whose kind reads the body, in their order.
pub open spec fn body_entries(es: Seq<(Seq<char>, ExtractorType)>) -> Seq<
    (Seq<char>, ExtractorType),
>
    decreases es.len(),
{
    if es.len() == 0 {
        Seq::empty()
    } else if es.last().1.spec_is_body() {
        body_entries(es.drop_last()).push(es.last())
    } else {
        body_entries(es.drop_last())
    }
}

/// An entry as it is named in a diagnostic: `name (Kind)`.
pub open spec fn entry_label(e: (Seq<char>, ExtractorType)) -> Seq<char> {
    e.0 + " ("@ + e.1.spec_name() + ")"@
}

/// The labels of `es`, with `, ` between them.
pub open spec fn entry_list(es: Seq<(Seq<char>, ExtractorType)>) -> Seq<char>
    decreases es.len(),
{
    if es.len() == 0 {
        Seq::empty()
    } else if es.len() == 1 {
        entry_label(es[0])
    } else {
        entry_list(es.drop_last()) + ", "@ + entry_label(es.last())
    }
}

/// One warning for each entry of `es` whose kind needs a capability that
/// `caps` does not enable, in the order of the entries.
pub open spec fn capability_warnings(
    es: Seq<(Seq<char>, ExtractorType)>,
    caps: Capabilities,
) -> Seq<DiagnosticView>
    decreases es.len(),
{
    if es.len() == 0 {
        Seq::empty()
    } else {
        let rest = capability_warnings(es.drop_last(), caps);
        let e = es.last();
        if e.1.spec_feature() is Some && !caps.spec_enables(e.1) {
            rest.push(diagnostic(DiagnosticCode::CapabilityDisabled, e.0, e.1.spec_feature()->0))
        } else {
            rest
        }
    }
}

/// What validation reports of the extractor entries `es` on a route of
/// method `method`.
///
/// With more than one body-consuming entry there is one fatal diagnostic
/// that names them all, and nothing else. Otherwise a body-consuming entry
/// on a method without a body gives a warning, and then each entry whose
/// capability is not enabled gives one.
pub open spec fn extractor_diagnostics(
    es: Seq<(Seq<char>, ExtractorType)>,
    method: HttpMethod,
    caps: Capabilities,
) -> Seq<DiagnosticView> {
    let bodies = body_entries(es);
    if bodies.len() > 1 {
        seq![
            diagnostic(
                DiagnosticCode::MultipleBodyExtractors,
                entry_list(bodies),
                Seq::<char>::empty(),
            ),
        ]
    } else if bodies.len() == 1 && method.spec_is_bodiless() {
        seq![
            diagnostic(DiagnosticCode::BodyOnBodilessMethod, bodies[0].0, method.spec_upper()),
        ] + capability_warnings(es, caps)
    } else {
        capability_warnings(es, caps)
    }
}

/// Checks the extractor map of a route of method `method` against the
/// capabilities that are enabled.
pub fn validate_extractors(
    extractors: &ExtractorMap,
    method: HttpMethod,
    capabilities: &Capabilities,
    diagnostics: &mut Diagnostics,
)
    ensures
        final(diagnostics)@ == old(diagnostics)@ + extractor_diagnostics(
            extractors@,
            method,
            *capabilities,
        ),
{
    let ghost es = extractors@;
    let n = extractors.entries.len();
    let mut count: usize = 0;
    let mut first: usize = 0;
    let mut list = String::new();
    let mut i: usize = 0;
    while i < n
        invariant
            i <= n,
            n == extractors.entries.len(),
            es == extractors@,
            count <= i,
            count == body_entries(es.take(i as int)).len(),
            list@ == entry_list(body_entries(es.take(i as int))),
            count > 0 ==> first < i && body_entries(es.take(i as int))[0] == es[first as int],
        decreases n - i,
    {
        let ghost before = body_entries(es.take(i as int));
        assert(es.take(i + 1).drop_last() =~= es.take(i as int));
        let kind = extractors.entries[i].1;
        if kind.is_body_extractor() {
            let ghost old_list = list@;
            let ghost e = es[i as int];
            assert(before.push(e).drop_last() =~= before);
            if count > 0 {
                list.append(", ");
            }
            list.append(extractors.entries[i].0.as_str());
            list.append(" (");
            list.append(kind.name());
            list.append(")");
            if count == 0 {
                first = i;
                assert(old_list =~= Seq::<char>::empty());
                assert(list@ =~= entry_label(e));
            } else {
                assert(list@ =~= old_list + ", "@ + entry_label(e));
            }
            count += 1;
        }
        i += 1;
    }
    assert(es.take(n as int) =~= es);
    let mut found = Diagnostics::new();
    if count > 1 {
        found.report(DiagnosticCode::MultipleBodyExtractors, list, String::new());
        assert(found@ =~= extractor_diagnostics(es, method, *capabilities));
        diagnostics.absorb(found);
        return;
    }
    if count == 1 && method.is_bodiless() {
        found.report(
            DiagnosticCode::BodyOnBodilessMethod,
            extractors.entries[first].0.clone(),
            method.upper().to_owned(),
        );
    }
    let ghost head = found@;
    let mut k: usize = 0;
    while k < n
        invariant
            k <= n,
            n == extractors.entries.len(),
            es == extractors@,
            found@ == head + capability_warnings(es.take(k as int), *capabilities),
        decreases n - k,
    {
        assert(es.take(k + 1).drop_last() =~= es.take(k as int));
        let kind = extractors.entries[k].1;
        match kind.requires_feature() {
            Some(feature) => {
                if !capabilities.enables(kind) {
                    found.report(
                        DiagnosticCode::CapabilityDisabled,
                        extractors.entries[k].0.clone(),
                        feature.to_owned(),
                    );
                }
            },
            None => {},
        }
        k += 1;
        assert(found@ =~= head + capability_warnings(es.take(k as int), *capabilities));
    }
    assert(es.take(n as int) =~= es);
    assert(found@ =~= extractor_diagnostics(es, method, *capabilities));
    diagnostics.absorb(found);
}

} // verus!
