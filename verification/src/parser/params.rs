//! Handler parameters and their resolved extractor kinds.

use crate::assoc::lookup;
use crate::diagnostics::diagnostic;
use crate::diagnostics::DiagnosticCode;
use crate::diagnostics::DiagnosticView;
use crate::diagnostics::Diagnostics;
use crate::parser::extractor_types::ExtractorMap;
use crate::parser::extractor_types::ExtractorType;
use crate::parser::route::holds_name;
use vstd::prelude::*;

verus! {

/// One declared parameter of a handler.
#[derive(Clone, Debug, PartialEq, Eq)]
pub struct ParamDecl {
    /// The parameter's pattern as written. Where `is_ident` holds it is
    /// the parameter's name.
    pub pattern: String,
    /// The declared type, as written.
    pub ty: String,
    /// Whether the pattern is a plain identifier.
    pub is_ident: bool,
}

/// A declared parameter as a mathematical value.
pub struct ParamDeclView {
    pub pattern: Seq<char>,
    pub ty: Seq<char>,
    pub is_ident: bool,
}

impl DeepView for ParamDecl {
    type V = ParamDeclView;

    open spec fn deep_view(&self) -> ParamDeclView {
        ParamDeclView { pattern: self.pattern@, ty: self.ty@, is_ident: self.is_ident }
    }
}

impl View for ParamDecl {
    type V = ParamDeclView;

    open spec fn view(&self) -> ParamDeclView {
        self.deep_view()
    }
}

/// A declared parameter with the extractor kind it resolved to.
#[derive(Clone, Debug, PartialEq, Eq)]
pub struct ParamInfo {
    /// The parameter's pattern as written; its name where `is_ident`
    /// holds.
    pub pattern: String,
    /// The declared type, as written.
    pub ty: String,
    /// Whether the pattern is a plain identifier.
    pub is_ident: bool,
    /// The kind that the route's extractor map gives the parameter;
    /// `Plain` where it gives none.
    pub extractor_type: ExtractorType,
}

/// A resolved parameter as a mathematical value.
pub struct ParamInfoView {
    pub pattern: Seq<char>,
    pub ty: Seq<char>,
    pub is_ident: bool,
    pub extractor_type: ExtractorType,
}

impl DeepView for ParamInfo {
    type V = ParamInfoView;

    open spec fn deep_view(&self) -> ParamInfoView {
        ParamInfoView {
            pattern: self.pattern@,
            ty: self.ty@,
            is_ident: self.is_ident,
            extractor_type: self.extractor_type,
        }
    }
}

impl View for ParamInfo {
    type V = ParamInfoView;

    open spec fn view(&self) -> ParamInfoView {
        self.deep_view()
    }
}

/// The kind that the extractor entries `es` give the parameter `p`: the
/// kind under its name, `Plain` where it has no name or no entry.
pub open spec fn resolved_kind(p: ParamDeclView, es: Seq<(Seq<char>, ExtractorType)>)
    -> ExtractorType {
    if p.is_ident {
        match lookup(es, p.pattern) {
            Some(kind) => kind,
            None => ExtractorType::Plain,
        }
    } else {
        ExtractorType::Plain
    }
}

/// The parameter `p` with its resolved kind.
pub open spec fn resolved_param(p: ParamDeclView, es: Seq<(Seq<char>, ExtractorType)>)
    -> ParamInfoView {
    ParamInfoView {
        pattern: p.pattern,
        ty: p.ty,
        is_ident: p.is_ident,
        extractor_type: resolved_kind(p, es),
    }
}

/// The parameters `ps`, in their order, each with its resolved kind.
pub open spec fn resolved_params(ps: Seq<ParamDeclView>, es: Seq<(Seq<char>, ExtractorType)>)
    -> Seq<ParamInfoView> {
    Seq::new(ps.len(), |i: int| resolved_param(ps[i], es))
}

/// The names of the parameters of `ps` that have one, in their order.
pub open spec fn declared_names(ps: Seq<ParamDeclView>) -> Seq<Seq<char>>
    decreases ps.len(),
{
    if ps.len() == 0 {
        Seq::empty()
    } else if ps.last().is_ident {
        declared_names(ps.drop_last()).push(ps.last().pattern)
    } else {
        declared_names(ps.drop_last())
    }
}

/// The warnings about the parameters `ps`, in their order: a parameter
/// without a name; a named one without an extractor entry; a name that was
/// declared before.
pub open spec fn param_warnings(ps: Seq<ParamDeclView>, es: Seq<(Seq<char>, ExtractorType)>)
    -> Seq<DiagnosticView>
    decreases ps.len(),
{
    if ps.len() == 0 {
        Seq::empty()
    } else {
        let rest = param_warnings(ps.drop_last(), es);
        let p = ps.last();
        if !p.is_ident {
            rest.push(diagnostic(DiagnosticCode::ComplexPattern, p.pattern, Seq::<char>::empty()))
        } else {
            let unbound = if lookup(es, p.pattern) is None {
                rest.push(
                    diagnostic(
                        DiagnosticCode::ParameterWithoutExtractor,
                        p.pattern,
                        Seq::<char>::empty(),
                    ),
                )
            } else {
                rest
            };
            if declared_names(ps.drop_last()).contains(p.pattern) {
                unbound.push(
                    diagnostic(DiagnosticCode::DuplicateParameter, p.pattern, Seq::<char>::empty()),
                )
            } else {
                unbound
            }
        }
    }
}

/// One warning for each entry of `es` whose name is none of `names`, in
/// the order of the entries.
pub open spec fn orphan_warnings(es: Seq<(Seq<char>, ExtractorType)>, names: Seq<Seq<char>>)
    -> Seq<DiagnosticView>
    decreases es.len(),
{
    if es.len() == 0 {
        Seq::empty()
    } else {
        let rest = orphan_warnings(es.drop_last(), names);
        if names.contains(es.last().0) {
            rest
        } else {
            rest.push(
                diagnostic(
                    DiagnosticCode::ExtractorWithoutParameter,
                    es.last().0,
                    es.last().1.spec_name(),
                ),
            )
        }
    }
}

/// What is reported of the parameters `ps` with the extractor entries
/// `es`: first the warnings about the parameters, then those about the
/// entries that name no parameter.
pub open spec fn param_diagnostics(ps: Seq<ParamDeclView>, es: Seq<(Seq<char>, ExtractorType)>)
    -> Seq<DiagnosticView> {
    param_warnings(ps, es) + orphan_warnings(es, declared_names(ps))
}

/// Resolves the extractor kind of each declared parameter by its name, and
/// reports the parameters and the extractor entries that do not match.
pub fn analyze_params(
    params: &Vec<ParamDecl>,
    extractor_map: &ExtractorMap,
    diagnostics: &mut Diagnostics,
) -> (resolved: Vec<ParamInfo>)
    ensures
        resolved.deep_view() == resolved_params(params.deep_view(), extractor_map@),
        final(diagnostics)@ == old(diagnostics)@ + param_diagnostics(
            params.deep_view(),
            extractor_map@,
        ),
{
    let ghost start = diagnostics@;
    let ghost ps = params.deep_view();
    let ghost es = extractor_map@;
    let mut resolved: Vec<ParamInfo> = Vec::new();
    let mut seen: Vec<String> = Vec::new();
    assert(seen.deep_view() =~= declared_names(ps.take(0)));
    assert(diagnostics@ =~= start + param_warnings(ps.take(0), es));
    let mut i: usize = 0;
    while i < params.len()
        invariant
            i <= params.len(),
            ps == params.deep_view(),
            es == extractor_map@,
            resolved.len() == i,
            forall|j: int| 0 <= j < i ==> resolved.deep_view()[j] == resolved_param(ps[j], es),
            seen.deep_view() == declared_names(ps.take(i as int)),
            diagnostics@ == start + param_warnings(ps.take(i as int), es),
        decreases params.len() - i,
    {
        assert(ps.take(i + 1).drop_last() =~= ps.take(i as int));
        let p = &params[i];
        let mut kind = ExtractorType::Plain;
        if !p.is_ident {
            diagnostics.report(DiagnosticCode::ComplexPattern, p.pattern.clone(), String::new());
        } else {
            match extractor_map.get(&p.pattern) {
                Some(found) => {
                    kind = found;
                },
                None => {
                    diagnostics.report(
                        DiagnosticCode::ParameterWithoutExtractor,
                        p.pattern.clone(),
                        String::new(),
                    );
                },
            }
            if holds_name(&seen, &p.pattern) {
                diagnostics.report(
                    DiagnosticCode::DuplicateParameter,
                    p.pattern.clone(),
                    String::new(),
                );
            }
            let ghost before = seen.deep_view();
            seen.push(p.pattern.clone());
            assert(seen.deep_view() =~= before.push(p.pattern@));
        }
        assert(diagnostics@ =~= start + param_warnings(ps.take(i + 1), es));
        let ghost before = resolved.deep_view();
        let info = ParamInfo {
            pattern: p.pattern.clone(),
            ty: p.ty.clone(),
            is_ident: p.is_ident,
            extractor_type: kind,
        };
        resolved.push(info);
        assert(resolved.deep_view() =~= before.push(info.deep_view()));
        i += 1;
    }
    assert(ps.take(i as int) =~= ps);
    assert(resolved.deep_view() =~= resolved_params(ps, es));
    let ghost middle = diagnostics@;
    let ghost names = seen.deep_view();
    assert(diagnostics@ =~= middle + orphan_warnings(es.take(0), names));
    let mut k: usize = 0;
    while k < extractor_map.entries.len()
        invariant
            k <= extractor_map.entries.len(),
            es == extractor_map@,
            names == seen.deep_view(),
            diagnostics@ == middle + orphan_warnings(es.take(k as int), names),
        decreases extractor_map.entries.len() - k,
    {
        assert(es.take(k + 1).drop_last() =~= es.take(k as int));
        if !holds_name(&seen, &extractor_map.entries[k].0) {
            diagnostics.report(
                DiagnosticCode::ExtractorWithoutParameter,
                extractor_map.entries[k].0.clone(),
                extractor_map.entries[k].1.name().to_owned(),
            );
        }
        assert(diagnostics@ =~= middle + orphan_warnings(es.take(k + 1), names));
        k += 1;
    }
    assert(es.take(k as int) =~= es);
    assert(diagnostics@ =~= start + param_diagnostics(ps, es));
    resolved
}

} // verus!
