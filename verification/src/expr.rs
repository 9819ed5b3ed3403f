//! Expressions in lowered form.
//!
//! Lowering makes every nested expression, function, class, pattern and
//! type annotation of an expression a shared node; it drops the spread
//! markers of array elements and of call arguments, and keeps the parts
//! that a binding converts on demand (assignment targets, member
//! properties, callees, literals, ...) as the parser produced them.
use std::sync::Arc;
use vstd::prelude::*;

use crate::ast::common::{Ident, Invalid, PrivateName, Span};
use crate::ast::expr::{
    ArrayLit, ArrowExpr, ArrowFunctionBody, AssignTarget, CallExpr, Callee, Expr, ExprOrSpread,
    MemberProp, MetaPropExpr, NewExpr, ObjectLit, OptChainExpr, SuperPropExpr, TaggedTpl, ThisExpr,
    Tpl, TplElement,
};
use crate::ast::jsx::{JSXEmptyExpr, JSXMemberExpr, JSXNamespacedName};
use crate::ast::lit::Lit;
use crate::ast::typescript::TsType;
use crate::class::{lower_class, lowers_class, ClassData};
use crate::enums::{AssignOp, BinaryOp, UnaryOp, UpdateOp};
use crate::function::{
    lower_function, lower_function_body, lowers_function, lowers_function_body, FunctionBodyData, FunctionData,
};
use crate::jsx::{
    lower_jsx_element, lower_jsx_fragment, lowers_jsx_element, lowers_jsx_fragment, JSXElementData, JSXFragmentData,
};
use crate::pat::{lower_pats, lowers_pats, PatData};
use crate::prop::{
    lower_opt_expr_or_spreads, lower_prop_or_spread, lowers_opt_expr_or_spreads, lowers_prop_or_spread,
    ExprOrSpreadData, PropOrSpreadData,
};
use crate::typeinfo::{
    lower_opt_ts_type_param_decl, lower_opt_ts_type_param_instantiation, lower_opt_tstypeann,
    lower_ts_type_param_instantiation, lowers_opt_ts_type_param_decl, lowers_opt_ts_type_param_instantiation, lowers_opt_tstypeann,
    lowers_ts_type_param_instantiation, TsTypeAnnData, TsTypeParamDeclData,
    TsTypeParamInstantiationData,
};

verus! {

/// A lowered expression.
#[derive(Clone, Debug, PartialEq, Eq)]
pub enum ExprData {
    This(ThisExpr),
    Array(ArrayLitData),
    Object(Arc<ObjectLitData>),
    Fn(Arc<FnExprData>),
    Unary(UnaryExprData),
    Update(UpdateExprData),
    Bin(BinExprData),
    Assign(AssignExprData),
    Member(MemberExprData),
    SuperProp(SuperPropExpr),
    Cond(CondExprData),
    Call(CallExprData),
    New(NewExprData),
    Sequence(SeqExprData),
    Ident(Ident),
    Lit(Lit),
    Tpl(Arc<TplData>),
    TaggedTpl(TaggedTplData),
    Arrow(Arc<ArrowExprData>),
    Class(Arc<ClassExprData>),
    Yield(YieldExprData),
    MetaProp(MetaPropExpr),
    Await(AwaitExprData),
    Paren(ParenExprData),
    JSXMember(JSXMemberExpr),
    JSXNamespacedName(JSXNamespacedName),
    JSXEmpty(JSXEmptyExpr),
    JSXElement(Arc<JSXElementData>),
    JSXFragment(Arc<JSXFragmentData>),
    TsTypeAssertion(TsTypeAssertionData),
    TsConstAssertion(TsConstAssertionData),
    TsNonNull(TsNonNullExprData),
    TsAs(TsAsExprData),
    TsInstantiation(TsInstantiationData),
    TsSatisfies(TsSatisfiesExprData),
    PrivateName(PrivateName),
    OptChain(OptChainExpr),
    Invalid(Invalid),
}

/// `[a, , b]`: the elements, a hole being `None`.
#[derive(Clone, Debug, PartialEq, Eq)]
pub struct ArrayLitData {
    pub span: Span,
    pub elems: Vec<Option<Arc<ExprData>>>,
}

#[derive(Clone, Debug, PartialEq, Eq)]
pub struct ObjectLitData {
    pub span: Span,
    pub props: Vec<Arc<PropOrSpreadData>>,
}

#[derive(Clone, Debug, PartialEq, Eq)]
pub struct FnExprData {
    pub ident: Option<Ident>,
    pub function: Arc<FunctionData>,
}

#[derive(Clone, Debug, PartialEq, Eq)]
pub struct UnaryExprData {
    pub span: Span,
    pub op: UnaryOp,
    pub arg: Arc<ExprData>,
}

#[derive(Clone, Debug, PartialEq, Eq)]
pub struct UpdateExprData {
    pub span: Span,
    pub op: UpdateOp,
    pub prefix: bool,
    pub arg: Arc<ExprData>,
}

#[derive(Clone, Debug, PartialEq, Eq)]
pub struct BinExprData {
    pub span: Span,
    pub op: BinaryOp,
    pub left: Arc<ExprData>,
    pub right: Arc<ExprData>,
}

#[derive(Clone, Debug, PartialEq, Eq)]
pub struct AssignExprData {
    pub span: Span,
    pub op: AssignOp,
    pub left: AssignTarget,
    pub right: Arc<ExprData>,
}

#[derive(Clone, Debug, PartialEq, Eq)]
pub struct MemberExprData {
    pub span: Span,
    pub obj: Arc<ExprData>,
    pub prop: MemberProp,
}

#[derive(Clone, Debug, PartialEq, Eq)]
pub struct CondExprData {
    pub span: Span,
    pub test: Arc<ExprData>,
    pub cons: Arc<ExprData>,
    pub alt: Arc<ExprData>,
}

/// A call; the arguments are the argument expressions, without their
/// spread markers.
#[derive(Clone, Debug, PartialEq, Eq)]
pub struct CallExprData {
    pub span: Span,
    pub ctxt: u32,
    pub callee: Callee,
    pub args: Vec<Arc<ExprData>>,
    pub type_args: Option<Arc<TsTypeParamInstantiationData>>,
}

/// `new callee(args)`; the arguments keep their spread markers.
#[derive(Clone, Debug, PartialEq, Eq)]
pub struct NewExprData {
    pub span: Span,
    pub ctxt: u32,
    pub callee: Arc<ExprData>,
    pub args: Option<Vec<ExprOrSpreadData>>,
    pub type_args: Option<Arc<TsTypeParamInstantiationData>>,
}

#[derive(Clone, Debug, PartialEq, Eq)]
pub struct SeqExprData {
    pub span: Span,
    pub exprs: Vec<Arc<ExprData>>,
}

/// A template literal: its embedded expressions and its text parts.
#[derive(Clone, Debug, PartialEq, Eq)]
pub struct TplData {
    pub span: Span,
    pub exprs: Vec<Arc<ExprData>>,
    pub quasis: Vec<TplElement>,
}

#[derive(Clone, Debug, PartialEq, Eq)]
pub struct TaggedTplData {
    pub span: Span,
    pub ctxt: u32,
    pub tag: Arc<ExprData>,
    pub type_params: Option<Arc<TsTypeParamInstantiationData>>,
    pub tpl: Arc<TplData>,
}

#[derive(Clone, Debug, PartialEq, Eq)]
pub struct YieldExprData {
    pub span: Span,
    pub arg: Option<Arc<ExprData>>,
    pub delegate: bool,
}

#[derive(Clone, Debug, PartialEq, Eq)]
pub struct AwaitExprData {
    pub span: Span,
    pub arg: Arc<ExprData>,
}

#[derive(Clone, Debug, PartialEq, Eq)]
pub struct ParenExprData {
    pub span: Span,
    pub expr: Arc<ExprData>,
}

#[derive(Clone, Debug, PartialEq, Eq)]
pub struct TsTypeAssertionData {
    pub span: Span,
    pub expr: Arc<ExprData>,
    pub type_ann: Box<TsType>,
}

#[derive(Clone, Debug, PartialEq, Eq)]
pub struct TsConstAssertionData {
    pub span: Span,
    pub expr: Arc<ExprData>,
}

#[derive(Clone, Debug, PartialEq, Eq)]
pub struct TsNonNullExprData {
    pub span: Span,
    pub expr: Arc<ExprData>,
}

#[derive(Clone, Debug, PartialEq, Eq)]
pub struct TsAsExprData {
    pub span: Span,
    pub expr: Arc<ExprData>,
    pub type_ann: Box<TsType>,
}

#[derive(Clone, Debug, PartialEq, Eq)]
pub struct TsInstantiationData {
    pub span: Span,
    pub expr: Arc<ExprData>,
    pub type_args: Arc<TsTypeParamInstantiationData>,
}

#[derive(Clone, Debug, PartialEq, Eq)]
pub struct TsSatisfiesExprData {
    pub span: Span,
    pub expr: Arc<ExprData>,
    pub type_ann: Box<TsType>,
}

/// The body of an arrow function: a block or a single expression.
#[derive(Clone, Debug, PartialEq, Eq)]
pub enum ArrowFunctionBodyData {
    FunctionBody(Arc<FunctionBodyData>),
    Expr(Arc<ExprData>),
}

#[derive(Clone, Debug, PartialEq, Eq)]
pub struct ArrowExprData {
    pub span: Span,
    pub ctxt: u32,
    pub params: Vec<Arc<PatData>>,
    pub body: ArrowFunctionBodyData,
    pub is_async: bool,
    pub is_generator: bool,
    pub type_params: Option<Arc<TsTypeParamDeclData>>,
    pub return_type: Option<Arc<TsTypeAnnData>>,
}

#[derive(Clone, Debug, PartialEq, Eq)]
pub struct ClassExprData {
    pub ident: Option<Ident>,
    pub class: Arc<ClassData>,
}

// ---------------------------------------------------------------------
// What lowering produces
// ---------------------------------------------------------------------

/// `d` is the lowered form of the optional expression `e`.
pub open spec fn lowers_opt_expr(e: Option<Box<Expr>>, d: Option<Arc<ExprData>>) -> bool
    decreases e,
{
    match e {
        None => d is None,
        Some(x) => d is Some && lowers_expr(*x, *d->Some_0),
    }
}

/// `d` is the lowered form of the list of expressions `e`, in order.
pub open spec fn lowers_exprs(e: Seq<Box<Expr>>, d: Seq<Arc<ExprData>>) -> bool
    decreases e,
{
    &&& d.len() == e.len()
    &&& forall|i: int| 0 <= i < e.len() ==> lowers_expr(*#[trigger] e[i], *d[i])
}

/// `d` holds the lowered argument expressions of `e`, in order, without
/// their spread markers.
pub open spec fn lowers_spread_args(e: Seq<ExprOrSpread>, d: Seq<Arc<ExprData>>) -> bool
    decreases e,
{
    &&& d.len() == e.len()
    &&& forall|i: int| 0 <= i < e.len() ==> lowers_expr(*#[trigger] e[i].expr, *d[i])
}

/// `d` is the lowered form of the array element `e`: a hole stays a hole
/// and an element becomes its lowered expression, without its spread
/// marker.
pub open spec fn lowers_array_elem(e: Option<ExprOrSpread>, d: Option<Arc<ExprData>>) -> bool
    decreases e,
{
    match e {
        None => d is None,
        Some(x) => d is Some && lowers_expr(*x.expr, *d->Some_0),
    }
}

/// `d` is the lowered form of the array literal `x`.
pub open spec fn lowers_array_lit(x: ArrayLit, d: ArrayLitData) -> bool
    decreases x,
{
    &&& d.span == x.span
    &&& d.elems@.len() == x.elems@.len()
    &&& forall|i: int| 0 <= i < x.elems@.len() ==> lowers_array_elem(#[trigger] x.elems@[i], d.elems@[i])
}

/// `d` is the lowered form of the object literal `x`.
pub open spec fn lowers_object_lit(x: ObjectLit, d: ObjectLitData) -> bool
    decreases x,
{
    &&& d.span == x.span
    &&& d.props@.len() == x.props@.len()
    &&& forall|i: int| 0 <= i < x.props@.len() ==> lowers_prop_or_spread(#[trigger] x.props@[i], *d.props@[i])
}

/// `d` is the lowered form of the call `x`; the callee is kept.
pub open spec fn lowers_call_expr(x: CallExpr, d: CallExprData) -> bool
    decreases x,
{
    &&& d.span == x.span
    &&& d.ctxt == x.ctxt
    &&& d.callee == x.callee
    &&& lowers_spread_args(x.args@, d.args@)
    &&& lowers_opt_ts_type_param_instantiation(x.type_args, d.type_args)
}

/// `d` is the lowered form of the `new` expression `x`.
pub open spec fn lowers_new_expr(x: NewExpr, d: NewExprData) -> bool
    decreases x,
{
    &&& d.span == x.span
    &&& d.ctxt == x.ctxt
    &&& lowers_expr(*x.callee, *d.callee)
    &&& lowers_opt_expr_or_spreads(x.args, d.args)
    &&& lowers_opt_ts_type_param_instantiation(x.type_args, d.type_args)
}

/// `d` is the lowered form of the template literal `t`.
pub open spec fn lowers_tpl(t: Tpl, d: TplData) -> bool
    decreases t,
{
    &&& d.span == t.span
    &&& lowers_exprs(t.exprs@, d.exprs@)
    &&& d.quasis == t.quasis
}

/// `d` is the lowered form of the tagged template `x`.
pub open spec fn lowers_tagged_tpl(x: TaggedTpl, d: TaggedTplData) -> bool
    decreases x,
{
    &&& d.span == x.span
    &&& d.ctxt == x.ctxt
    &&& lowers_expr(*x.tag, *d.tag)
    &&& lowers_opt_ts_type_param_instantiation(x.type_params, d.type_params)
    &&& lowers_tpl(*x.tpl, *d.tpl)
}

/// `d` is the lowered form of the arrow function body `b`.
pub open spec fn lowers_arrow_function_body(b: ArrowFunctionBody, d: ArrowFunctionBodyData) -> bool
    decreases b,
{
    match b {
        ArrowFunctionBody::FunctionBody(x) => d is FunctionBody && lowers_function_body(x, *d->FunctionBody_0),
        ArrowFunctionBody::Expr(x) => d is Expr && lowers_expr(*x, *d->Expr_0),
    }
}

/// `d` is the lowered form of the arrow function `x`.
pub open spec fn lowers_arrow_expr(x: ArrowExpr, d: ArrowExprData) -> bool
    decreases x,
{
    &&& d.span == x.span
    &&& d.ctxt == x.ctxt
    &&& lowers_pats(x.params@, d.params@)
    &&& lowers_arrow_function_body(*x.body, d.body)
    &&& d.is_async == x.is_async
    &&& d.is_generator == x.is_generator
    &&& lowers_opt_ts_type_param_decl(x.type_params, d.type_params)
    &&& lowers_opt_tstypeann(x.return_type, d.return_type)
}

/// `d` is the lowered form of the expression `e`: nested expressions,
/// functions, classes, patterns, JSX and type annotations are lowered;
/// leaves, assignment targets, member properties, callees, super
/// properties, optional chains and the types of TypeScript expressions are
/// kept as they are.
pub open spec fn lowers_expr(e: Expr, d: ExprData) -> bool
    decreases e,
{
    match e {
        Expr::This(x) => d == ExprData::This(x),
        Expr::Array(x) => d is Array && lowers_array_lit(x, d->Array_0),
        Expr::Object(x) => d is Object && lowers_object_lit(x, *d->Object_0),
        Expr::Fn(x) => match d {
            ExprData::Fn(y) => y.ident == x.ident && lowers_function(*x.function, *y.function),
            _ => false,
        },
        Expr::Unary(x) => match d {
            ExprData::Unary(y) => y.span == x.span && y.op == x.op && lowers_expr(*x.arg, *y.arg),
            _ => false,
        },
        Expr::Update(x) => match d {
            ExprData::Update(y) => {
                &&& y.span == x.span
                &&& y.op == x.op
                &&& y.prefix == x.prefix
                &&& lowers_expr(*x.arg, *y.arg)
            },
            _ => false,
        },
        Expr::Bin(x) => match d {
            ExprData::Bin(y) => {
                &&& y.span == x.span
                &&& y.op == x.op
                &&& lowers_expr(*x.left, *y.left)
                &&& lowers_expr(*x.right, *y.right)
            },
            _ => false,
        },
        Expr::Assign(x) => match d {
            ExprData::Assign(y) => {
                &&& y.span == x.span
                &&& y.op == x.op
                &&& y.left == x.left
                &&& lowers_expr(*x.right, *y.right)
            },
            _ => false,
        },
        Expr::Member(x) => match d {
            ExprData::Member(y) => y.span == x.span && lowers_expr(*x.obj, *y.obj) && y.prop == x.prop,
            _ => false,
        },
        Expr::Cond(x) => match d {
            ExprData::Cond(y) => {
                &&& y.span == x.span
                &&& lowers_expr(*x.test, *y.test)
                &&& lowers_expr(*x.cons, *y.cons)
                &&& lowers_expr(*x.alt, *y.alt)
            },
            _ => false,
        },
        Expr::SuperProp(x) => d == ExprData::SuperProp(x),
        Expr::Call(x) => d is Call && lowers_call_expr(x, d->Call_0),
        Expr::New(x) => d is New && lowers_new_expr(x, d->New_0),
        Expr::Sequence(x) => match d {
            ExprData::Sequence(y) => y.span == x.span && lowers_exprs(x.exprs@, y.exprs@),
            _ => false,
        },
        Expr::Ident(x) => d == ExprData::Ident(x),
        Expr::Lit(x) => d == ExprData::Lit(x),
        Expr::Tpl(x) => d is Tpl && lowers_tpl(x, *d->Tpl_0),
        Expr::TaggedTpl(x) => d is TaggedTpl && lowers_tagged_tpl(x, d->TaggedTpl_0),
        Expr::Arrow(x) => d is Arrow && lowers_arrow_expr(x, *d->Arrow_0),
        Expr::Class(x) => match d {
            ExprData::Class(y) => y.ident == x.ident && lowers_class(*x.class, *y.class),
            _ => false,
        },
        Expr::Yield(x) => match d {
            ExprData::Yield(y) => y.span == x.span && lowers_opt_expr(x.arg, y.arg) && y.delegate == x.delegate,
            _ => false,
        },
        Expr::MetaProp(x) => d == ExprData::MetaProp(x),
        Expr::Await(x) => match d {
            ExprData::Await(y) => y.span == x.span && lowers_expr(*x.arg, *y.arg),
            _ => false,
        },
        Expr::Paren(x) => match d {
            ExprData::Paren(y) => y.span == x.span && lowers_expr(*x.expr, *y.expr),
            _ => false,
        },
        Expr::JSXMember(x) => d == ExprData::JSXMember(x),
        Expr::JSXNamespacedName(x) => d == ExprData::JSXNamespacedName(x),
        Expr::JSXEmpty(x) => d == ExprData::JSXEmpty(x),
        Expr::JSXElement(x) => d is JSXElement && lowers_jsx_element(*x, *d->JSXElement_0),
        Expr::JSXFragment(x) => d is JSXFragment && lowers_jsx_fragment(x, *d->JSXFragment_0),
        Expr::TsTypeAssertion(x) => match d {
            ExprData::TsTypeAssertion(y) => y.span == x.span && lowers_expr(*x.expr, *y.expr) && y.type_ann == x.type_ann,
            _ => false,
        },
        Expr::TsConstAssertion(x) => match d {
            ExprData::TsConstAssertion(y) => y.span == x.span && lowers_expr(*x.expr, *y.expr),
            _ => false,
        },
        Expr::TsNonNull(x) => match d {
            ExprData::TsNonNull(y) => y.span == x.span && lowers_expr(*x.expr, *y.expr),
            _ => false,
        },
        Expr::TsAs(x) => match d {
            ExprData::TsAs(y) => y.span == x.span && lowers_expr(*x.expr, *y.expr) && y.type_ann == x.type_ann,
            _ => false,
        },
        Expr::TsInstantiation(x) => match d {
            ExprData::TsInstantiation(y) => {
                &&& y.span == x.span
                &&& lowers_expr(*x.expr, *y.expr)
                &&& lowers_ts_type_param_instantiation(*x.type_args, *y.type_args)
            },
            _ => false,
        },
        Expr::TsSatisfies(x) => match d {
            ExprData::TsSatisfies(y) => y.span == x.span && lowers_expr(*x.expr, *y.expr) && y.type_ann == x.type_ann,
            _ => false,
        },
        Expr::PrivateName(x) => d == ExprData::PrivateName(x),
        Expr::OptChain(x) => d == ExprData::OptChain(x),
        Expr::Invalid(x) => d == ExprData::Invalid(x),
    }
}

// ---------------------------------------------------------------------
// Lowering
// ---------------------------------------------------------------------

/// Lowers an optional expression.
pub(crate) fn lower_opt_expr(e: Option<Box<Expr>>) -> (d: Option<Arc<ExprData>>)
    ensures
        lowers_opt_expr(e, d),
    decreases e,
{
    match e {
        None => None,
        Some(x) => Some(Arc::new(lower_expr(*x))),
    }
}

#[verifier::loop_isolation(false)]
pub(crate) fn lower_exprs(e: Vec<Box<Expr>>) -> (d: Vec<Arc<ExprData>>)
    ensures
        lowers_exprs(e@, d@),
    decreases e,
{
    let ghost ge = e@;
    let mut out: Vec<Arc<ExprData>> = Vec::new();
    for x in it: e.into_iter()
        invariant
            it.seq() == ge,
            out@.len() == it.index(),
            forall|j: int| 0 <= j < it.index() ==> lowers_expr(*#[trigger] ge[j], *out@[j]),
    {
        proof {
            assert(decreases_to!(e => e@));
            assert(decreases_to!(e@ => e@[it.index() as int]));
        }
        out.push(Arc::new(lower_expr(*x)));
    }
    out
}

#[verifier::loop_isolation(false)]
fn lower_spread_args(e: Vec<ExprOrSpread>) -> (d: Vec<Arc<ExprData>>)
    ensures
        lowers_spread_args(e@, d@),
    decreases e,
{
    let ghost ge = e@;
    let mut out: Vec<Arc<ExprData>> = Vec::new();
    for x in it: e.into_iter()
        invariant
            it.seq() == ge,
            out@.len() == it.index(),
            forall|j: int| 0 <= j < it.index() ==> lowers_expr(*#[trigger] ge[j].expr, *out@[j]),
    {
        proof {
            assert(decreases_to!(e => e@));
            assert(decreases_to!(e@ => e@[it.index() as int]));
        }
        out.push(Arc::new(lower_expr(*x.expr)));
    }
    out
}

fn lower_array_elem(e: Option<ExprOrSpread>) -> (d: Option<Arc<ExprData>>)
    ensures
        lowers_array_elem(e, d),
    decreases e,
{
    match e {
        None => None,
        Some(x) => Some(Arc::new(lower_expr(*x.expr))),
    }
}

#[verifier::loop_isolation(false)]
fn lower_array_lit(x: ArrayLit) -> (d: ArrayLitData)
    ensures
        lowers_array_lit(x, d),
    decreases x,
{
    let ghost ge = x.elems@;
    let mut elems: Vec<Option<Arc<ExprData>>> = Vec::new();
    for e in it: x.elems.into_iter()
        invariant
            it.seq() == ge,
            elems@.len() == it.index(),
            forall|j: int| 0 <= j < it.index() ==> lowers_array_elem(#[trigger] ge[j], elems@[j]),
    {
        proof {
            assert(decreases_to!(x => x.elems));
            assert(decreases_to!(x.elems => x.elems@));
            assert(decreases_to!(x.elems@ => x.elems@[it.index() as int]));
        }
        elems.push(lower_array_elem(e));
    }
    ArrayLitData { span: x.span, elems }
}

#[verifier::loop_isolation(false)]
fn lower_object_lit(x: ObjectLit) -> (d: ObjectLitData)
    ensures
        lowers_object_lit(x, d),
    decreases x,
{
    let ghost gp = x.props@;
    let mut props: Vec<Arc<PropOrSpreadData>> = Vec::new();
    for p in it: x.props.into_iter()
        invariant
            it.seq() == gp,
            props@.len() == it.index(),
            forall|j: int| 0 <= j < it.index() ==> lowers_prop_or_spread(#[trigger] gp[j], *props@[j]),
    {
        proof {
            assert(decreases_to!(x => x.props));
            assert(decreases_to!(x.props => x.props@));
            assert(decreases_to!(x.props@ => x.props@[it.index() as int]));
        }
        props.push(Arc::new(lower_prop_or_spread(p)));
    }
    ObjectLitData { span: x.span, props }
}

fn lower_call_expr(x: CallExpr) -> (d: CallExprData)
    ensures
        lowers_call_expr(x, d),
    decreases x,
{
    CallExprData {
        span: x.span,
        ctxt: x.ctxt,
        callee: x.callee,
        args: lower_spread_args(x.args),
        type_args: lower_opt_ts_type_param_instantiation(x.type_args),
    }
}

fn lower_new_expr(x: NewExpr) -> (d: NewExprData)
    ensures
        lowers_new_expr(x, d),
    decreases x,
{
    NewExprData {
        span: x.span,
        ctxt: x.ctxt,
        callee: Arc::new(lower_expr(*x.callee)),
        args: lower_opt_expr_or_spreads(x.args),
        type_args: lower_opt_ts_type_param_instantiation(x.type_args),
    }
}

/// Lowers a template literal.
pub fn lower_tpl(tpl: Tpl) -> (d: TplData)
    ensures
        lowers_tpl(tpl, d),
    decreases tpl,
{
    TplData { span: tpl.span, exprs: lower_exprs(tpl.exprs), quasis: tpl.quasis }
}

fn lower_tagged_tpl(x: TaggedTpl) -> (d: TaggedTplData)
    ensures
        lowers_tagged_tpl(x, d),
    decreases x,
{
    TaggedTplData {
        span: x.span,
        ctxt: x.ctxt,
        tag: Arc::new(lower_expr(*x.tag)),
        type_params: lower_opt_ts_type_param_instantiation(x.type_params),
        tpl: Arc::new(lower_tpl(*x.tpl)),
    }
}

/// Lowers the body of an arrow function.
pub fn lower_arrow_function_body(b: ArrowFunctionBody) -> (d: ArrowFunctionBodyData)
    ensures
        lowers_arrow_function_body(b, d),
    decreases b,
{
    match b {
        ArrowFunctionBody::FunctionBody(fb) => ArrowFunctionBodyData::FunctionBody(Arc::new(lower_function_body(fb))),
        ArrowFunctionBody::Expr(e) => ArrowFunctionBodyData::Expr(Arc::new(lower_expr(*e))),
    }
}

fn lower_arrow_expr(x: ArrowExpr) -> (d: ArrowExprData)
    ensures
        lowers_arrow_expr(x, d),
    decreases x,
{
    ArrowExprData {
        span: x.span,
        ctxt: x.ctxt,
        params: lower_pats(x.params),
        body: lower_arrow_function_body(*x.body),
        is_async: x.is_async,
        is_generator: x.is_generator,
        type_params: lower_opt_ts_type_param_decl(x.type_params),
        return_type: lower_opt_tstypeann(x.return_type),
    }
}

/// Lowers an expression.
pub fn lower_expr(expr: Expr) -> (d: ExprData)
    ensures
        lowers_expr(expr, d),
    decreases expr,
{
    match expr {
        Expr::This(e) => ExprData::This(e),
        Expr::Array(e) => ExprData::Array(lower_array_lit(e)),
        Expr::Object(e) => ExprData::Object(Arc::new(lower_object_lit(e))),
        Expr::Fn(e) => ExprData::Fn(Arc::new(FnExprData { ident: e.ident, function: Arc::new(lower_function(*e.function)) })),
        Expr::Unary(e) => ExprData::Unary(UnaryExprData { span: e.span, op: e.op, arg: Arc::new(lower_expr(*e.arg)) }),
        Expr::Update(e) => ExprData::Update(
            UpdateExprData { span: e.span, op: e.op, prefix: e.prefix, arg: Arc::new(lower_expr(*e.arg)) },
        ),
        Expr::Bin(e) => ExprData::Bin(
            BinExprData {
                span: e.span,
                op: e.op,
                left: Arc::new(lower_expr(*e.left)),
                right: Arc::new(lower_expr(*e.right)),
            },
        ),
        Expr::Assign(e) => ExprData::Assign(
            AssignExprData { span: e.span, op: e.op, left: e.left, right: Arc::new(lower_expr(*e.right)) },
        ),
        Expr::Member(e) => ExprData::Member(MemberExprData { span: e.span, obj: Arc::new(lower_expr(*e.obj)), prop: e.prop }),
        Expr::SuperProp(e) => ExprData::SuperProp(e),
        Expr::Cond(e) => ExprData::Cond(
            CondExprData {
                span: e.span,
                test: Arc::new(lower_expr(*e.test)),
                cons: Arc::new(lower_expr(*e.cons)),
                alt: Arc::new(lower_expr(*e.alt)),
            },
        ),
        Expr::Call(e) => ExprData::Call(lower_call_expr(e)),
        Expr::New(e) => ExprData::New(lower_new_expr(e)),
        Expr::Sequence(e) => ExprData::Sequence(SeqExprData { span: e.span, exprs: lower_exprs(e.exprs) }),
        Expr::Ident(e) => ExprData::Ident(e),
        Expr::Lit(e) => ExprData::Lit(e),
        Expr::Tpl(e) => ExprData::Tpl(Arc::new(lower_tpl(e))),
        Expr::TaggedTpl(e) => ExprData::TaggedTpl(lower_tagged_tpl(e)),
        Expr::Arrow(e) => ExprData::Arrow(Arc::new(lower_arrow_expr(e))),
        Expr::Class(e) => ExprData::Class(Arc::new(ClassExprData { ident: e.ident, class: Arc::new(lower_class(*e.class)) })),
        Expr::Yield(e) => ExprData::Yield(YieldExprData { span: e.span, arg: lower_opt_expr(e.arg), delegate: e.delegate }),
        Expr::MetaProp(e) => ExprData::MetaProp(e),
        Expr::Await(e) => ExprData::Await(AwaitExprData { span: e.span, arg: Arc::new(lower_expr(*e.arg)) }),
        Expr::Paren(e) => ExprData::Paren(ParenExprData { span: e.span, expr: Arc::new(lower_expr(*e.expr)) }),
        Expr::JSXMember(e) => ExprData::JSXMember(e),
        Expr::JSXNamespacedName(e) => ExprData::JSXNamespacedName(e),
        Expr::JSXEmpty(e) => ExprData::JSXEmpty(e),
        Expr::JSXElement(e) => ExprData::JSXElement(Arc::new(lower_jsx_element(*e))),
        Expr::JSXFragment(e) => ExprData::JSXFragment(Arc::new(lower_jsx_fragment(e))),
        Expr::TsTypeAssertion(e) => ExprData::TsTypeAssertion(
            TsTypeAssertionData { span: e.span, expr: Arc::new(lower_expr(*e.expr)), type_ann: e.type_ann },
        ),
        Expr::TsConstAssertion(e) => ExprData::TsConstAssertion(
            TsConstAssertionData { span: e.span, expr: Arc::new(lower_expr(*e.expr)) },
        ),
        Expr::TsNonNull(e) => ExprData::TsNonNull(TsNonNullExprData { span: e.span, expr: Arc::new(lower_expr(*e.expr)) }),
        Expr::TsAs(e) => ExprData::TsAs(
            TsAsExprData { span: e.span, expr: Arc::new(lower_expr(*e.expr)), type_ann: e.type_ann },
        ),
        Expr::TsInstantiation(e) => ExprData::TsInstantiation(
            TsInstantiationData {
                span: e.span,
                expr: Arc::new(lower_expr(*e.expr)),
                type_args: Arc::new(lower_ts_type_param_instantiation(*e.type_args)),
            },
        ),
        Expr::TsSatisfies(e) => ExprData::TsSatisfies(
            TsSatisfiesExprData { span: e.span, expr: Arc::new(lower_expr(*e.expr)), type_ann: e.type_ann },
        ),
        Expr::PrivateName(e) => ExprData::PrivateName(e),
        Expr::OptChain(e) => ExprData::OptChain(e),
        Expr::Invalid(e) => ExprData::Invalid(e),
    }
}

} // verus!
