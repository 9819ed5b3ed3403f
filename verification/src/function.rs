//! Functions, their parameters, decorators and bodies in lowered form.
use std::sync::Arc;
use vstd::prelude::*;

use crate::ast::class::Decorator;
use crate::ast::common::Span;
use crate::ast::function::{Function, FunctionBody, Param};
use crate::ast::typescript::TsThisParam;
use crate::expr::{lower_expr, lowers_expr, ExprData};
use crate::pat::{lower_pat, lowers_pat, PatData};
use crate::stmts::{lower_stmts, lowers_stmts, StmtData};
use crate::typeinfo::{
    lower_opt_ts_type_param_decl, lower_opt_tstypeann, lowers_opt_ts_type_param_decl, lowers_opt_tstypeann, TsTypeAnnData, TsTypeParamDeclData,
};

verus! {

/// `@expr`.
#[derive(Clone, Debug, PartialEq, Eq)]
pub struct DecoratorData {
    pub span: Span,
    pub expr: Arc<ExprData>,
}

#[derive(Clone, Debug, PartialEq, Eq)]
pub struct ParamData {
    pub span: Span,
    pub decorators: Vec<DecoratorData>,
    pub pat: Arc<PatData>,
}

/// The TypeScript `this` parameter of a function.
#[derive(Clone, Debug, PartialEq, Eq)]
pub struct TsThisParamData {
    pub span: Span,
    pub this_span: Span,
    pub type_ann: Option<Arc<TsTypeAnnData>>,
}

#[derive(Clone, Debug, PartialEq, Eq)]
pub struct FunctionBodyData {
    pub span: Span,
    pub stmts: Vec<Arc<StmtData>>,
}

#[derive(Clone, Debug, PartialEq, Eq)]
pub struct FunctionData {
    pub this_param: Option<TsThisParamData>,
    pub params: Vec<ParamData>,
    pub decorators: Vec<DecoratorData>,
    pub span: Span,
    pub ctxt: u32,
    pub body: Option<Arc<FunctionBodyData>>,
    pub is_generator: bool,
    pub is_async: bool,
    pub type_params: Option<Arc<TsTypeParamDeclData>>,
    pub return_type: Option<Arc<TsTypeAnnData>>,
}

// ---------------------------------------------------------------------
// What lowering produces
// ---------------------------------------------------------------------

/// `d` is the lowered form of the decorator `x`.
pub open spec fn lowers_decorator(x: Decorator, d: DecoratorData) -> bool
    decreases x,
{
    d.span == x.span && lowers_expr(*x.expr, *d.expr)
}

/// `d` is the lowered form of the decorator list `x`, in order.
pub open spec fn lowers_decorators(x: Seq<Decorator>, d: Seq<DecoratorData>) -> bool
    decreases x,
{
    &&& d.len() == x.len()
    &&& forall|i: int| 0 <= i < x.len() ==> lowers_decorator(#[trigger] x[i], d[i])
}

/// `d` is the lowered form of the parameter `p`.
pub open spec fn lowers_param(p: Param, d: ParamData) -> bool
    decreases p,
{
    &&& d.span == p.span
    &&& lowers_decorators(p.decorators@, d.decorators@)
    &&& lowers_pat(p.pat, *d.pat)
}

/// `d` is the lowered form of the parameter list `p`, in order.
pub open spec fn lowers_params(p: Seq<Param>, d: Seq<ParamData>) -> bool
    decreases p,
{
    &&& d.len() == p.len()
    &&& forall|i: int| 0 <= i < p.len() ==> lowers_param(#[trigger] p[i], d[i])
}

/// `d` is the lowered form of the `this` parameter `t`.
pub open spec fn lowers_ts_this_param(t: TsThisParam, d: TsThisParamData) -> bool
    decreases t,
{
    &&& d.span == t.span
    &&& d.this_span == t.this_span
    &&& lowers_opt_tstypeann(t.type_ann, d.type_ann)
}

/// `d` is the lowered form of the optional `this` parameter `t`.
pub open spec fn lowers_opt_ts_this_param(t: Option<Box<TsThisParam>>, d: Option<TsThisParamData>) -> bool
    decreases t,
{
    match t {
        None => d is None,
        Some(x) => d is Some && lowers_ts_this_param(*x, d->Some_0),
    }
}

/// `d` is the lowered form of the function body `b`.
pub open spec fn lowers_function_body(b: FunctionBody, d: FunctionBodyData) -> bool
    decreases b,
{
    d.span == b.span && lowers_stmts(b.stmts@, d.stmts@)
}

/// `d` is the lowered form of the optional function body `b`.
pub open spec fn lowers_opt_function_body(b: Option<FunctionBody>, d: Option<Arc<FunctionBodyData>>) -> bool
    decreases b,
{
    match b {
        None => d is None,
        Some(x) => d is Some && lowers_function_body(x, *d->Some_0),
    }
}

/// `d` is the lowered form of the function `f`.
pub open spec fn lowers_function(f: Function, d: FunctionData) -> bool
    decreases f,
{
    &&& lowers_opt_ts_this_param(f.this_param, d.this_param)
    &&& lowers_params(f.params@, d.params@)
    &&& lowers_decorators(f.decorators@, d.decorators@)
    &&& d.span == f.span
    &&& d.ctxt == f.ctxt
    &&& lowers_opt_function_body(f.body, d.body)
    &&& d.is_generator == f.is_generator
    &&& d.is_async == f.is_async
    &&& lowers_opt_ts_type_param_decl(f.type_params, d.type_params)
    &&& lowers_opt_tstypeann(f.return_type, d.return_type)
}

// ---------------------------------------------------------------------
// Lowering
// ---------------------------------------------------------------------

/// Lowers a decorator.
pub fn lower_decorator(x: Decorator) -> (d: DecoratorData)
    ensures
        lowers_decorator(x, d),
    decreases x,
{
    DecoratorData { span: x.span, expr: Arc::new(lower_expr(*x.expr)) }
}

#[verifier::loop_isolation(false)]
pub(crate) fn lower_decorators(x: Vec<Decorator>) -> (d: Vec<DecoratorData>)
    ensures
        lowers_decorators(x@, d@),
    decreases x,
{
    let ghost gx = x@;
    let mut out: Vec<DecoratorData> = Vec::new();
    for e in it: x.into_iter()
        invariant
            it.seq() == gx,
            out@.len() == it.index(),
            forall|j: int| 0 <= j < it.index() ==> lowers_decorator(#[trigger] gx[j], out@[j]),
    {
        proof {
            assert(decreases_to!(x => x@));
            assert(decreases_to!(x@ => x@[it.index() as int]));
        }
        out.push(lower_decorator(e));
    }
    out
}

/// Lowers a parameter.
pub fn lower_param(p: Param) -> (d: ParamData)
    ensures
        lowers_param(p, d),
    decreases p,
{
    ParamData { span: p.span, decorators: lower_decorators(p.decorators), pat: Arc::new(lower_pat(p.pat)) }
}

#[verifier::loop_isolation(false)]
fn lower_params(p: Vec<Param>) -> (d: Vec<ParamData>)
    ensures
        lowers_params(p@, d@),
    decreases p,
{
    let ghost gp = p@;
    let mut out: Vec<ParamData> = Vec::new();
    for e in it: p.into_iter()
        invariant
            it.seq() == gp,
            out@.len() == it.index(),
            forall|j: int| 0 <= j < it.index() ==> lowers_param(#[trigger] gp[j], out@[j]),
    {
        proof {
            assert(decreases_to!(p => p@));
            assert(decreases_to!(p@ => p@[it.index() as int]));
        }
        out.push(lower_param(e));
    }
    out
}

/// Lowers a `this` parameter.
pub fn lower_ts_this_param(t: TsThisParam) -> (d: TsThisParamData)
    ensures
        lowers_ts_this_param(t, d),
    decreases t,
{
    TsThisParamData { span: t.span, this_span: t.this_span, type_ann: lower_opt_tstypeann(t.type_ann) }
}

fn lower_opt_ts_this_param(t: Option<Box<TsThisParam>>) -> (d: Option<TsThisParamData>)
    ensures
        lowers_opt_ts_this_param(t, d),
    decreases t,
{
    match t {
        None => None,
        Some(x) => Some(lower_ts_this_param(*x)),
    }
}

/// Lowers a function body.
pub fn lower_function_body(b: FunctionBody) -> (d: FunctionBodyData)
    ensures
        lowers_function_body(b, d),
    decreases b,
{
    FunctionBodyData { span: b.span, stmts: lower_stmts(b.stmts) }
}

pub(crate) fn lower_opt_function_body(b: Option<FunctionBody>) -> (d: Option<Arc<FunctionBodyData>>)
    ensures
        lowers_opt_function_body(b, d),
    decreases b,
{
    match b {
        None => None,
        Some(x) => Some(Arc::new(lower_function_body(x))),
    }
}

/// Lowers a function.
pub fn lower_function(f: Function) -> (d: FunctionData)
    ensures
        lowers_function(f, d),
    decreases f,
{
    FunctionData {
        this_param: lower_opt_ts_this_param(f.this_param),
        params: lower_params(f.params),
        decorators: lower_decorators(f.decorators),
        span: f.span,
        ctxt: f.ctxt,
        body: lower_opt_function_body(f.body),
        is_generator: f.is_generator,
        is_async: f.is_async,
        type_params: lower_opt_ts_type_param_decl(f.type_params),
        return_type: lower_opt_tstypeann(f.return_type),
    }
}

} // verus!
