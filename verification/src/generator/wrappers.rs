//! Adapters: what is put between the router and a handler to bind the
//! handler's parameters and to add response headers.

use crate::headers::merge_content_type;
use crate::headers::merge_headers;
use crate::headers::merged_content_type;
use crate::headers::merged_headers;
use crate::parser::config::ControllerConfig;
use crate::parser::config::ControllerConfigView;
use crate::parser::extractor_types::ExtractorType;
use crate::parser::params::ParamInfo;
use crate::parser::params::ParamInfoView;
use crate::parser::route::RouteInfoView;
use crate::registry::RouteEntry;
use crate::registry::RouteEntryView;
use crate::text::chars_of;
use vstd::prelude::*;
use vstd::string::StringExecFns;

verus! {

/// One binding of an adapter: one parameter that the adapter itself
/// declares, and through which the host framework hands it a value.
#[derive(Clone, Debug, PartialEq, Eq)]
pub enum Binding {
    /// The path placeholders, as `(name, type)` in declared order. One
    /// pair is bound by itself, several are bound as one tuple.
    Path { params: Vec<(String, String)> },
    /// The application state, of type `ty`.
    State { ty: String },
    /// The request headers, bound once for all `HeaderParam` parameters.
    Headers,
    /// The cookies, bound once for all `CookieParam` parameters.
    Cookies,
    /// The session, bound once for all `SessionParam` parameters.
    Session,
    /// One parameter bound by itself: a `Query` parameter, the
    /// body-consuming parameter, or a `Plain` one that is passed through.
    Param { kind: ExtractorType, name: String, ty: String },
}

/// A binding as a mathematical value.
pub enum BindingView {
    Path { params: Seq<(Seq<char>, Seq<char>)> },
    State { ty: Seq<char> },
    Headers,
    Cookies,
    Session,
    Param { kind: ExtractorType, name: Seq<char>, ty: Seq<char> },
}

impl DeepView for Binding {
    type V = BindingView;

    open spec fn deep_view(&self) -> BindingView {
        match self {
            Binding::Path { params } => BindingView::Path { params: params.deep_view() },
            Binding::State { ty } => BindingView::State { ty: ty@ },
            Binding::Headers => BindingView::Headers,
            Binding::Cookies => BindingView::Cookies,
            Binding::Session => BindingView::Session,
            Binding::Param { kind, name, ty } => BindingView::Param {
                kind: *kind,
                name: name@,
                ty: ty@,
            },
        }
    }
}

impl View for Binding {
    type V = BindingView;

    open spec fn view(&self) -> BindingView {
        self.deep_view()
    }
}

/// One argument of the adapter's call of the handler.
#[derive(Clone, Debug, PartialEq, Eq)]
pub enum CallArgument {
    /// The bound variable of this name, as it is.
    Value(String),
    /// The bound bytes of this name, copied into a vector.
    BytesToVec(String),
    /// The request header of this name; empty text where the request has
    /// none.
    Header(String),
    /// The cookie of this name; empty text where the request has none.
    Cookie(String),
    /// The session value of this name and type, awaited; the type's
    /// default where the session has none.
    Session { name: String, ty: String },
    /// A copy of the application state.
    State,
}

/// A call argument as a mathematical value.
pub enum CallArgumentView {
    Value(Seq<char>),
    BytesToVec(Seq<char>),
    Header(Seq<char>),
    Cookie(Seq<char>),
    Session { name: Seq<char>, ty: Seq<char> },
    State,
}

impl DeepView for CallArgument {
    type V = CallArgumentView;

    open spec fn deep_view(&self) -> CallArgumentView {
        match self {
            CallArgument::Value(n) => CallArgumentView::Value(n@),
            CallArgument::BytesToVec(n) => CallArgumentView::BytesToVec(n@),
            CallArgument::Header(n) => CallArgumentView::Header(n@),
            CallArgument::Cookie(n) => CallArgumentView::Cookie(n@),
            CallArgument::Session { name, ty } => CallArgumentView::Session {
                name: name@,
                ty: ty@,
            },
            CallArgument::State => CallArgumentView::State,
        }
    }
}

impl View for CallArgument {
    type V = CallArgumentView;

    open spec fn view(&self) -> CallArgumentView {
        self.deep_view()
    }
}

/// The plan of one adapter.
#[derive(Clone, Debug, PartialEq, Eq)]
pub struct AdapterPlan {
    /// The handler that the adapter calls.
    pub handler: String,
    /// The adapter's own name.
    pub name: String,
    /// Whether the handler, and so the adapter, is `async`.
    pub is_async: bool,
    /// The handler's declared return type, as written.
    pub return_type: String,
    /// The adapter's bindings, in the order in which it declares them.
    pub bindings: Vec<Binding>,
    /// The arguments of the call of the handler, in the handler's declared
    /// parameter order.
    pub arguments: Vec<CallArgument>,
    /// The headers that the adapter adds to the handler's response.
    pub headers: Vec<(String, String)>,
    /// The content type that the adapter gives the handler's response.
    pub content_type: Option<String>,
}

/// An adapter plan as a mathematical value.
pub struct AdapterPlanView {
    pub handler: Seq<char>,
    pub name: Seq<char>,
    pub is_async: bool,
    pub return_type: Seq<char>,
    pub bindings: Seq<BindingView>,
    pub arguments: Seq<CallArgumentView>,
    pub headers: Seq<(Seq<char>, Seq<char>)>,
    pub content_type: Option<Seq<char>>,
}

impl DeepView for AdapterPlan {
    type V = AdapterPlanView;

    open spec fn deep_view(&self) -> AdapterPlanView {
        AdapterPlanView {
            handler: self.handler@,
            name: self.name@,
            is_async: self.is_async,
            return_type: self.return_type@,
            bindings: self.bindings.deep_view(),
            arguments: self.arguments.deep_view(),
            headers: self.headers.deep_view(),
            content_type: self.content_type.deep_view(),
        }
    }
}

impl View for AdapterPlan {
    type V = AdapterPlanView;

    open spec fn view(&self) -> AdapterPlanView {
        self.deep_view()
    }
}

impl AdapterPlan {
    /// Whether the adapter wraps the handler's response to add headers or
    /// a content type.
    pub fn wraps_response(&self) -> (b: bool)
        ensures
            b == (self@.headers.len() > 0 || self@.content_type is Some),
    {
        self.headers.len() > 0 || self.content_type.is_some()
    }
}

/// The place of a kind in the binding order: path first, then state, then
/// the request context, then the query, then the body, and last what is
/// passed through.
pub open spec fn binding_rank(kind: ExtractorType) -> nat {
    match kind {
        ExtractorType::Path => 0,
        ExtractorType::State => 1,
        ExtractorType::HeaderParam => 2,
        ExtractorType::CookieParam => 3,
        ExtractorType::SessionParam => 4,
        ExtractorType::Query => 5,
        ExtractorType::Plain => 7,
        _ => 6,
    }
}

/// The `(name, type)` of the `Path` parameters of `ps`, in declared order.
pub open spec fn path_pairs(ps: Seq<ParamInfoView>) -> Seq<(Seq<char>, Seq<char>)>
    decreases ps.len(),
{
    if ps.len() == 0 {
        Seq::empty()
    } else if ps.last().extractor_type is Path {
        path_pairs(ps.drop_last()).push((ps.last().pattern, ps.last().ty))
    } else {
        path_pairs(ps.drop_last())
    }
}

/// The type of the first `State` parameter of `ps`.
pub open spec fn state_type(ps: Seq<ParamInfoView>) -> Option<Seq<char>>
    decreases ps.len(),
{
    if ps.len() == 0 {
        None
    } else {
        match state_type(ps.drop_last()) {
            Some(ty) => Some(ty),
            None => if ps.last().extractor_type is State {
                Some(ps.last().ty)
            } else {
                None
            },
        }
    }
}

/// Some parameter of `ps` has the kind `kind`.
pub open spec fn uses_kind(ps: Seq<ParamInfoView>, kind: ExtractorType) -> bool {
    exists|i: int| 0 <= i < ps.len() && ps[i].extractor_type == kind
}

/// The bindings of the parameters of `ps` whose kind has rank `rank`, each
/// bound by itself, in declared order.
pub open spec fn own_bindings(ps: Seq<ParamInfoView>, rank: nat) -> Seq<BindingView>
    decreases ps.len(),
{
    if ps.len() == 0 {
        Seq::empty()
    } else if binding_rank(ps.last().extractor_type) == rank {
        own_bindings(ps.drop_last(), rank).push(
            BindingView::Param {
                kind: ps.last().extractor_type,
                name: ps.last().pattern,
                ty: ps.last().ty,
            },
        )
    } else {
        own_bindings(ps.drop_last(), rank)
    }
}

/// One binding for all the `Path` parameters of `ps`, where there are any.
pub open spec fn path_binding(ps: Seq<ParamInfoView>) -> Seq<BindingView> {
    if path_pairs(ps).len() > 0 {
        seq![BindingView::Path { params: path_pairs(ps) }]
    } else {
        Seq::empty()
    }
}

/// One binding of the state, where a parameter of `ps` asks for it.
pub open spec fn state_binding(ps: Seq<ParamInfoView>) -> Seq<BindingView> {
    match state_type(ps) {
        Some(ty) => seq![BindingView::State { ty }],
        None => Seq::empty(),
    }
}

/// `binding` once, where a parameter of `ps` has the kind `kind`.
pub open spec fn shared_binding(ps: Seq<ParamInfoView>, kind: ExtractorType, binding: BindingView)
    -> Seq<BindingView> {
    if uses_kind(ps, kind) {
        seq![binding]
    } else {
        Seq::empty()
    }
}

/// The bindings of an adapter for the parameters `ps`, in their order:
/// the path placeholders as one binding; the state; headers, cookies and
/// session, each once; the query parameters; the body-consuming parameter;
/// and the parameters that are passed through.
pub open spec fn planned_bindings(ps: Seq<ParamInfoView>) -> Seq<BindingView> {
    path_binding(ps) + state_binding(ps) + shared_binding(
        ps,
        ExtractorType::HeaderParam,
        BindingView::Headers,
    ) + shared_binding(ps, ExtractorType::CookieParam, BindingView::Cookies) + shared_binding(
        ps,
        ExtractorType::SessionParam,
        BindingView::Session,
    ) + own_bindings(ps, 5) + own_bindings(ps, 6) + own_bindings(ps, 7)
}

/// `s` with `-` for each `_`: the header that a parameter name stands for.
pub open spec fn kebab_case(s: Seq<char>) -> Seq<char> {
    Seq::new(s.len(), |i: int| if s[i] == '_' { '-' } else { s[i] })
}

/// The argument that the adapter passes for the parameter `p`.
pub open spec fn argument_for(p: ParamInfoView) -> CallArgumentView {
    match p.extractor_type {
        ExtractorType::Bytes => CallArgumentView::BytesToVec(p.pattern),
        ExtractorType::HeaderParam => CallArgumentView::Header(kebab_case(p.pattern)),
        ExtractorType::CookieParam => CallArgumentView::Cookie(p.pattern),
        ExtractorType::SessionParam => CallArgumentView::Session { name: p.pattern, ty: p.ty },
        ExtractorType::State => CallArgumentView::State,
        _ => CallArgumentView::Value(p.pattern),
    }
}

/// The arguments of the call of the handler: one for each parameter, in
/// declared order.
pub open spec fn planned_arguments(ps: Seq<ParamInfoView>) -> Seq<CallArgumentView> {
    Seq::new(ps.len(), |i: int| argument_for(ps[i]))
}

/// Some parameter of `ps` has a managed extractor kind.
pub open spec fn needs_extraction(ps: Seq<ParamInfoView>) -> bool {
    exists|i: int| 0 <= i < ps.len() && ps[i].extractor_type != ExtractorType::Plain
}

/// The route or its controller declares a response header or a content
/// type.
pub open spec fn augments_response(route: RouteInfoView, config: ControllerConfigView) -> bool {
    route.response_headers.len() > 0 || route.content_type is Some
        || config.response_headers.len() > 0 || config.content_type is Some
}

/// The handler of `entry` needs an adapter.
pub open spec fn needs_adapter(entry: RouteEntryView, config: ControllerConfigView) -> bool {
    needs_extraction(entry.params) || augments_response(entry.route, config)
}

/// The name of the adapter of the handler `handler`.
pub open spec fn adapter_name(handler: Seq<char>) -> Seq<char> {
    handler + "_wrapper"@
}

/// The adapter of the handler of `entry` in a controller of
/// configuration `config`.
pub open spec fn planned_adapter(entry: RouteEntryView, config: ControllerConfigView)
    -> AdapterPlanView {
    AdapterPlanView {
        handler: entry.handler,
        name: adapter_name(entry.handler),
        is_async: entry.is_async,
        return_type: entry.return_type,
        bindings: planned_bindings(entry.params),
        arguments: planned_arguments(entry.params),
        headers: merged_headers(config.response_headers, entry.route.response_headers),
        content_type: merged_content_type(config.content_type, entry.route.content_type),
    }
}

/// The adapters of the routes of `entries` that need one, in the order of
/// the routes.
pub open spec fn planned_adapters(entries: Seq<RouteEntryView>, config: ControllerConfigView)
    -> Seq<AdapterPlanView>
    decreases entries.len(),
{
    if entries.len() == 0 {
        Seq::empty()
    } else if needs_adapter(entries.last(), config) {
        planned_adapters(entries.drop_last(), config).push(
            planned_adapter(entries.last(), config),
        )
    } else {
        planned_adapters(entries.drop_last(), config)
    }
}

/// The rank of `kind` in the binding order.
pub fn rank_of(kind: ExtractorType) -> (r: u8)
    ensures
        r == binding_rank(kind),
{
    match kind {
        ExtractorType::Path => 0,
        ExtractorType::State => 1,
        ExtractorType::HeaderParam => 2,
        ExtractorType::CookieParam => 3,
        ExtractorType::SessionParam => 4,
        ExtractorType::Query => 5,
        ExtractorType::Plain => 7,
        _ => 6,
    }
}

/// The header that the parameter name `name` stands for.
pub fn header_name_for(name: &str) -> (header: String)
    ensures
        header@ == kebab_case(name@),
{
    let cs = chars_of(name);
    let mut header = String::new();
    let mut i: usize = 0;
    while i < cs.len()
        invariant
            i <= cs.len(),
            cs@ == name@,
            header@ == kebab_case(name@).take(i as int),
        decreases cs.len() - i,
    {
        let c = cs[i];
        header.push(if c == '_' { '-' } else { c });
        i += 1;
        assert(header@ =~= kebab_case(name@).take(i as int));
    }
    assert(header@ =~= kebab_case(name@));
    header
}

/// Whether some parameter has a managed extractor kind.
pub fn needs_wrapper(params: &Vec<ParamInfo>) -> (b: bool)
    ensures
        b == needs_extraction(params.deep_view()),
{
    let mut i: usize = 0;
    while i < params.len()
        invariant
            i <= params.len(),
            forall|j: int| 0 <= j < i ==> params.deep_view()[j].extractor_type
                == ExtractorType::Plain,
        decreases params.len() - i,
    {
        if params[i].extractor_type != ExtractorType::Plain {
            assert(params.deep_view()[i as int].extractor_type != ExtractorType::Plain);
            return true;
        }
        i += 1;
    }
    false
}

/// Whether some parameter has the kind `kind`.
pub fn has_kind(params: &Vec<ParamInfo>, kind: ExtractorType) -> (b: bool)
    ensures
        b == uses_kind(params.deep_view(), kind),
{
    let mut i: usize = 0;
    while i < params.len()
        invariant
            i <= params.len(),
            forall|j: int| 0 <= j < i ==> params.deep_view()[j].extractor_type != kind,
        decreases params.len() - i,
    {
        if params[i].extractor_type == kind {
            assert(params.deep_view()[i as int].extractor_type == kind);
            return true;
        }
        i += 1;
    }
    false
}

/// The type of the first `State` parameter.
pub fn find_state_type(params: &Vec<ParamInfo>) -> (ty: Option<String>)
    ensures
        ty.deep_view() == state_type(params.deep_view()),
{
    let ghost ps = params.deep_view();
    let mut i: usize = 0;
    while i < params.len()
        invariant
            i <= params.len(),
            ps == params.deep_view(),
            state_type(ps.take(i as int)) is None,
        decreases params.len() - i,
    {
        assert(ps.take(i + 1).drop_last() =~= ps.take(i as int));
        if params[i].extractor_type == ExtractorType::State {
            proof {
                lemma_state_type_found(ps, i + 1);
            }
            return Some(params[i].ty.clone());
        }
        i += 1;
    }
    assert(ps.take(i as int) =~= ps);
    None
}

/// The state type found among the first parameters is the state type of
/// all of them.
pub proof fn lemma_state_type_found(ps: Seq<ParamInfoView>, k: int)
    requires
        0 <= k <= ps.len(),
        state_type(ps.take(k)) is Some,
    ensures
        state_type(ps) == state_type(ps.take(k)),
    decreases ps.len() - k,
{
    if k < ps.len() {
        assert(ps.take(k + 1).drop_last() =~= ps.take(k));
        lemma_state_type_found(ps, k + 1);
    } else {
        assert(ps.take(k) =~= ps);
    }
}

/// Adds to `out` the bindings of the parameters whose kind has rank
/// `rank`.
fn push_own_bindings(out: &mut Vec<Binding>, params: &Vec<ParamInfo>, rank: u8)
    ensures
        final(out).deep_view() == old(out).deep_view() + own_bindings(
            params.deep_view(),
            rank as nat,
        ),
{
    let ghost head = out.deep_view();
    let ghost ps = params.deep_view();
    assert(out.deep_view() =~= head + own_bindings(ps.take(0), rank as nat));
    let mut i: usize = 0;
    while i < params.len()
        invariant
            i <= params.len(),
            ps == params.deep_view(),
            out.deep_view() == head + own_bindings(ps.take(i as int), rank as nat),
        decreases params.len() - i,
    {
        assert(ps.take(i + 1).drop_last() =~= ps.take(i as int));
        let p = &params[i];
        if rank_of(p.extractor_type) == rank {
            let ghost before = out.deep_view();
            let b = Binding::Param {
                kind: p.extractor_type,
                name: p.pattern.clone(),
                ty: p.ty.clone(),
            };
            out.push(b);
            assert(out.deep_view() =~= before.push(b.deep_view()));
            assert(out.deep_view() =~= head + own_bindings(ps.take(i + 1), rank as nat));
        }
        i += 1;
    }
    assert(ps.take(i as int) =~= ps);
}

/// The bindings of an adapter for `params`, in their order.
pub fn plan_bindings(params: &Vec<ParamInfo>) -> (bindings: Vec<Binding>)
    ensures
        bindings.deep_view() == planned_bindings(params.deep_view()),
{
    let ghost ps = params.deep_view();
    let mut pairs: Vec<(String, String)> = Vec::new();
    let mut state: Option<String> = None;
    assert(pairs.deep_view() =~= path_pairs(ps.take(0)));
    let mut i: usize = 0;
    while i < params.len()
        invariant
            i <= params.len(),
            ps == params.deep_view(),
            pairs.deep_view() == path_pairs(ps.take(i as int)),
            state.deep_view() == state_type(ps.take(i as int)),
        decreases params.len() - i,
    {
        assert(ps.take(i + 1).drop_last() =~= ps.take(i as int));
        let p = &params[i];
        match p.extractor_type {
            ExtractorType::Path => {
                let ghost before = pairs.deep_view();
                let pair = (p.pattern.clone(), p.ty.clone());
                pairs.push(pair);
                assert(pairs.deep_view() =~= before.push((p.pattern@, p.ty@)));
            },
            ExtractorType::State => {
                if state.is_none() {
                    state = Some(p.ty.clone());
                }
            },
            _ => {},
        }
        i += 1;
    }
    assert(ps.take(i as int) =~= ps);
    let mut out: Vec<Binding> = Vec::new();
    assert(out.deep_view() =~= Seq::<BindingView>::empty());
    if pairs.len() > 0 {
        let b = Binding::Path { params: pairs };
        out.push(b);
        assert(out.deep_view() =~= seq![b.deep_view()]);
    }
    assert(out.deep_view() =~= path_binding(ps));
    match state {
        Some(ty) => {
            let ghost before = out.deep_view();
            let b = Binding::State { ty };
            out.push(b);
            assert(out.deep_view() =~= before.push(b.deep_view()));
        },
        None => {},
    }
    assert(out.deep_view() =~= path_binding(ps) + state_binding(ps));
    if has_kind(params, ExtractorType::HeaderParam) {
        let ghost before = out.deep_view();
        out.push(Binding::Headers);
        assert(out.deep_view() =~= before.push(BindingView::Headers));
    }
    if has_kind(params, ExtractorType::CookieParam) {
        let ghost before = out.deep_view();
        out.push(Binding::Cookies);
        assert(out.deep_view() =~= before.push(BindingView::Cookies));
    }
    if has_kind(params, ExtractorType::SessionParam) {
        let ghost before = out.deep_view();
        out.push(Binding::Session);
        assert(out.deep_view() =~= before.push(BindingView::Session));
    }
    assert(out.deep_view() =~= path_binding(ps) + state_binding(ps) + shared_binding(
        ps,
        ExtractorType::HeaderParam,
        BindingView::Headers,
    ) + shared_binding(ps, ExtractorType::CookieParam, BindingView::Cookies) + shared_binding(
        ps,
        ExtractorType::SessionParam,
        BindingView::Session,
    ));
    push_own_bindings(&mut out, params, 5);
    push_own_bindings(&mut out, params, 6);
    push_own_bindings(&mut out, params, 7);
    out
}

/// The argument that the adapter passes for the parameter `p`.
pub fn plan_argument(p: &ParamInfo) -> (a: CallArgument)
    ensures
        a.deep_view() == argument_for(p.deep_view()),
{
    match p.extractor_type {
        ExtractorType::Bytes => CallArgument::BytesToVec(p.pattern.clone()),
        ExtractorType::HeaderParam => CallArgument::Header(header_name_for(p.pattern.as_str())),
        ExtractorType::CookieParam => CallArgument::Cookie(p.pattern.clone()),
        ExtractorType::SessionParam => CallArgument::Session {
            name: p.pattern.clone(),
            ty: p.ty.clone(),
        },
        ExtractorType::State => CallArgument::State,
        _ => CallArgument::Value(p.pattern.clone()),
    }
}

/// The arguments of the call of the handler, in declared order.
pub fn plan_arguments(params: &Vec<ParamInfo>) -> (arguments: Vec<CallArgument>)
    ensures
        arguments.deep_view() == planned_arguments(params.deep_view()),
{
    let ghost ps = params.deep_view();
    let mut out: Vec<CallArgument> = Vec::new();
    let mut i: usize = 0;
    while i < params.len()
        invariant
            i <= params.len(),
            ps == params.deep_view(),
            out.len() == i,
            forall|j: int| 0 <= j < i ==> out.deep_view()[j] == argument_for(ps[j]),
        decreases params.len() - i,
    {
        let ghost before = out.deep_view();
        let a = plan_argument(&params[i]);
        out.push(a);
        assert(out.deep_view() =~= before.push(a.deep_view()));
        i += 1;
    }
    assert(out.deep_view() =~= planned_arguments(ps));
    out
}

/// Whether the handler of `entry` needs an adapter.
pub fn adapter_needed(entry: &RouteEntry, config: &ControllerConfig) -> (b: bool)
    ensures
        b == needs_adapter(entry.deep_view(), config.deep_view()),
{
    needs_wrapper(&entry.params) || entry.route.response_headers.len() > 0
        || entry.route.content_type.is_some() || config.response_headers.len() > 0
        || config.content_type.is_some()
}

/// The adapter of the handler of `entry`.
pub fn plan_adapter(entry: &RouteEntry, config: &ControllerConfig) -> (plan: AdapterPlan)
    ensures
        plan.deep_view() == planned_adapter(entry.deep_view(), config.deep_view()),
{
    let mut name = entry.handler.clone();
    name.append("_wrapper");
    AdapterPlan {
        handler: entry.handler.clone(),
        name,
        is_async: entry.is_async,
        return_type: entry.return_type.clone(),
        bindings: plan_bindings(&entry.params),
        arguments: plan_arguments(&entry.params),
        headers: merge_headers(&config.response_headers, &entry.route.response_headers),
        content_type: merge_content_type(&config.content_type, &entry.route.content_type),
    }
}

/// Plans an adapter for every route that needs one: one whose handler has
/// a parameter with a managed extractor kind, or whose responses get
/// headers or a content type from the route or from the controller.
pub fn generate_wrapper_functions(entries: &Vec<RouteEntry>, config: &ControllerConfig) -> (plans:
    Vec<AdapterPlan>)
    ensures
        plans.deep_view() == planned_adapters(entries.deep_view(), config.deep_view()),
{
    let ghost es = entries.deep_view();
    let ghost cv = config.deep_view();
    let mut plans: Vec<AdapterPlan> = Vec::new();
    assert(plans.deep_view() =~= planned_adapters(es.take(0), cv));
    let mut i: usize = 0;
    while i < entries.len()
        invariant
            i <= entries.len(),
            es == entries.deep_view(),
            cv == config.deep_view(),
            plans.deep_view() == planned_adapters(es.take(i as int), cv),
        decreases entries.len() - i,
    {
        assert(es.take(i + 1).drop_last() =~= es.take(i as int));
        if adapter_needed(&entries[i], config) {
            let ghost before = plans.deep_view();
            let plan = plan_adapter(&entries[i], config);
            plans.push(plan);
            assert(plans.deep_view() =~= before.push(plan.deep_view()));
        }
        i += 1;
    }
    assert(es.take(i as int) =~= es);
    plans
}

} // verus!
