//! Binding patterns in lowered form.
use std::sync::Arc;
use vstd::prelude::*;

use crate::ast::common::{BindingIdent, Invalid, Span};
use crate::ast::pat::{ArrayPat, AssignPat, AssignPatProp, KeyValuePatProp, ObjectPat, ObjectPatProp, Pat, RestPat};
use crate::ast::prop::PropName;
use crate::ast::typescript::{TsFnParam, TsTypeAnn};
use crate::expr::{lower_expr, lower_opt_expr, lowers_expr, lowers_opt_expr, ExprData};

verus! {

/// A lowered binding pattern.
#[derive(Clone, Debug, PartialEq, Eq)]
pub enum PatData {
    Ident(BindingIdent),
    Array(ArrayPatData),
    Rest(RestPatData),
    Object(ObjectPatData),
    Assign(AssignPatData),
    Invalid(Invalid),
    Expr(Arc<ExprData>),
}

/// `[a, , b]`; a hole is `None`.
#[derive(Clone, Debug, PartialEq, Eq)]
pub struct ArrayPatData {
    pub span: Span,
    pub elems: Vec<Option<Arc<PatData>>>,
    pub optional: bool,
    pub type_ann: Option<Box<TsTypeAnn>>,
}

/// `...rest`.
#[derive(Clone, Debug, PartialEq, Eq)]
pub struct RestPatData {
    pub span: Span,
    pub dot3_token: Span,
    pub arg: Arc<PatData>,
    pub type_ann: Option<Box<TsTypeAnn>>,
}

/// `{ a, b: c, ...d }`.
#[derive(Clone, Debug, PartialEq, Eq)]
pub struct ObjectPatData {
    pub span: Span,
    pub props: Vec<Arc<ObjectPatPropData>>,
    pub optional: bool,
    pub type_ann: Option<Box<TsTypeAnn>>,
}

/// `left = right`, a pattern with a default value.
#[derive(Clone, Debug, PartialEq, Eq)]
pub struct AssignPatData {
    pub span: Span,
    pub left: Arc<PatData>,
    pub right: Arc<ExprData>,
}

/// One property of an object pattern.
#[derive(Clone, Debug, PartialEq, Eq)]
pub enum ObjectPatPropData {
    KeyValue(KeyValuePatPropData),
    Assign(AssignPatPropData),
    Rest(RestPatData),
}

/// `key: value` in an object pattern.
#[derive(Clone, Debug, PartialEq, Eq)]
pub struct KeyValuePatPropData {
    pub key: PropName,
    pub value: Arc<PatData>,
}

/// `key` or `key = value` in an object pattern.
#[derive(Clone, Debug, PartialEq, Eq)]
pub struct AssignPatPropData {
    pub span: Span,
    pub key: BindingIdent,
    pub value: Option<Arc<ExprData>>,
}

// ---------------------------------------------------------------------
// What lowering produces
// ---------------------------------------------------------------------

/// `d` is the lowered form of the array pattern `p`.
pub open spec fn lowers_array_pat(p: ArrayPat, d: ArrayPatData) -> bool
    decreases p,
{
    &&& d.span == p.span
    &&& d.optional == p.optional
    &&& d.type_ann == p.type_ann
    &&& d.elems@.len() == p.elems@.len()
    &&& forall|i: int| 0 <= i < p.elems@.len() ==> lowers_opt_pat(#[trigger] p.elems@[i], d.elems@[i])
}

/// `d` is the lowered form of the rest pattern `p`.
pub open spec fn lowers_rest_pat(p: RestPat, d: RestPatData) -> bool
    decreases p,
{
    &&& d.span == p.span
    &&& d.dot3_token == p.dot3_token
    &&& lowers_pat(*p.arg, *d.arg)
    &&& d.type_ann == p.type_ann
}

/// `d` is the lowered form of the object pattern `p`.
pub open spec fn lowers_object_pat(p: ObjectPat, d: ObjectPatData) -> bool
    decreases p,
{
    &&& d.span == p.span
    &&& d.optional == p.optional
    &&& d.type_ann == p.type_ann
    &&& d.props@.len() == p.props@.len()
    &&& forall|i: int| 0 <= i < p.props@.len() ==> lowers_object_pat_prop(#[trigger] p.props@[i], *d.props@[i])
}

/// `d` is the lowered form of the pattern with a default value `p`.
pub open spec fn lowers_assign_pat(p: AssignPat, d: AssignPatData) -> bool
    decreases p,
{
    &&& d.span == p.span
    &&& lowers_pat(*p.left, *d.left)
    &&& lowers_expr(*p.right, *d.right)
}

/// `d` is the lowered form of the pattern `p`: nested patterns and
/// expressions are lowered, identifiers, keys and type annotations kept.
pub open spec fn lowers_pat(p: Pat, d: PatData) -> bool
    decreases p,
{
    match p {
        Pat::Ident(x) => d == PatData::Ident(x),
        Pat::Array(x) => d is Array && lowers_array_pat(x, d->Array_0),
        Pat::Rest(x) => d is Rest && lowers_rest_pat(x, d->Rest_0),
        Pat::Object(x) => d is Object && lowers_object_pat(x, d->Object_0),
        Pat::Assign(x) => d is Assign && lowers_assign_pat(x, d->Assign_0),
        Pat::Invalid(x) => d == PatData::Invalid(x),
        Pat::Expr(x) => d is Expr && lowers_expr(*x, *d->Expr_0),
    }
}

/// `d` is the lowered form of the pattern that the function type parameter
/// `p` stands for.
pub open spec fn lowers_ts_fn_param(p: TsFnParam, d: PatData) -> bool
    decreases p,
{
    match p {
        TsFnParam::Ident(x) => d == PatData::Ident(x),
        TsFnParam::Array(x) => d is Array && lowers_array_pat(x, d->Array_0),
        TsFnParam::Rest(x) => d is Rest && lowers_rest_pat(x, d->Rest_0),
        TsFnParam::Object(x) => d is Object && lowers_object_pat(x, d->Object_0),
    }
}

/// The pattern that the parameter of a function type `p` stands for.
pub open spec fn ts_fn_param_pat(p: TsFnParam) -> Pat {
    match p {
        TsFnParam::Ident(x) => Pat::Ident(x),
        TsFnParam::Array(x) => Pat::Array(x),
        TsFnParam::Rest(x) => Pat::Rest(x),
        TsFnParam::Object(x) => Pat::Object(x),
    }
}

/// `d` is the lowered form of the index signature parameters `p`, each
/// taken as the pattern it stands for.
pub open spec fn lowers_ts_fn_params(p: Seq<TsFnParam>, d: Seq<Arc<PatData>>) -> bool
    decreases p,
{
    &&& d.len() == p.len()
    &&& forall|i: int| 0 <= i < p.len() ==> lowers_ts_fn_param(#[trigger] p[i], *d[i])
}

/// `d` is the lowered form of the object pattern property `p`.
pub open spec fn lowers_object_pat_prop(p: ObjectPatProp, d: ObjectPatPropData) -> bool
    decreases p,
{
    match p {
        ObjectPatProp::KeyValue(x) => match d {
            ObjectPatPropData::KeyValue(y) => y.key == x.key && lowers_pat(*x.value, *y.value),
            _ => false,
        },
        ObjectPatProp::Assign(x) => match d {
            ObjectPatPropData::Assign(y) => y.span == x.span && y.key == x.key && lowers_opt_expr(x.value, y.value),
            _ => false,
        },
        ObjectPatProp::Rest(x) => d is Rest && lowers_rest_pat(x, d->Rest_0),
    }
}

/// `d` is the lowered form of the list of patterns `p`.
pub open spec fn lowers_pats(p: Seq<Pat>, d: Seq<Arc<PatData>>) -> bool
    decreases p,
{
    &&& d.len() == p.len()
    &&& forall|i: int| 0 <= i < p.len() ==> lowers_pat(#[trigger] p[i], *d[i])
}

/// `d` is the lowered form of the optional pattern `p`.
pub open spec fn lowers_opt_pat(p: Option<Pat>, d: Option<Arc<PatData>>) -> bool
    decreases p,
{
    match p {
        None => d is None,
        Some(x) => d is Some && lowers_pat(x, *d->Some_0),
    }
}

// ---------------------------------------------------------------------
// Lowering
// ---------------------------------------------------------------------

/// Lowers a pattern.
pub fn lower_pat(pat: Pat) -> (d: PatData)
    ensures
        lowers_pat(pat, d),
    decreases pat,
{
    match pat {
        Pat::Ident(p) => PatData::Ident(p),
        Pat::Array(p) => PatData::Array(lower_array_pat(p)),
        Pat::Rest(p) => PatData::Rest(lower_rest_pat(p)),
        Pat::Object(p) => PatData::Object(lower_object_pat(p)),
        Pat::Assign(p) => PatData::Assign(lower_assign_pat(p)),
        Pat::Invalid(p) => PatData::Invalid(p),
        Pat::Expr(e) => PatData::Expr(Arc::new(lower_expr(*e))),
    }
}

pub(crate) fn lower_opt_pat(p: Option<Pat>) -> (d: Option<Arc<PatData>>)
    ensures
        lowers_opt_pat(p, d),
    decreases p,
{
    match p {
        None => None,
        Some(x) => Some(Arc::new(lower_pat(x))),
    }
}

#[verifier::loop_isolation(false)]
pub(crate) fn lower_pats(p: Vec<Pat>) -> (d: Vec<Arc<PatData>>)
    ensures
        lowers_pats(p@, d@),
    decreases p,
{
    let ghost gp = p@;
    let mut out: Vec<Arc<PatData>> = Vec::new();
    for x in it: p.into_iter()
        invariant
            it.seq() == gp,
            out@.len() == it.index(),
            forall|j: int| 0 <= j < it.index() ==> lowers_pat(#[trigger] gp[j], *out@[j]),
    {
        proof {
            assert(decreases_to!(p => p@));
            assert(decreases_to!(p@ => p@[it.index() as int]));
        }
        out.push(Arc::new(lower_pat(x)));
    }
    out
}

#[verifier::loop_isolation(false)]
pub(crate) fn lower_array_pat(p: ArrayPat) -> (d: ArrayPatData)
    ensures
        lowers_array_pat(p, d),
    decreases p,
{
    let ghost ge = p.elems@;
    let mut elems: Vec<Option<Arc<PatData>>> = Vec::new();
    for x in it: p.elems.into_iter()
        invariant
            it.seq() == ge,
            elems@.len() == it.index(),
            forall|j: int| 0 <= j < it.index() ==> lowers_opt_pat(#[trigger] ge[j], elems@[j]),
    {
        proof {
            assert(decreases_to!(p => p.elems));
            assert(decreases_to!(p.elems => p.elems@));
            assert(decreases_to!(p.elems@ => p.elems@[it.index() as int]));
        }
        elems.push(lower_opt_pat(x));
    }
    ArrayPatData { span: p.span, elems, optional: p.optional, type_ann: p.type_ann }
}

fn lower_rest_pat(p: RestPat) -> (d: RestPatData)
    ensures
        lowers_rest_pat(p, d),
    decreases p,
{
    RestPatData { span: p.span, dot3_token: p.dot3_token, arg: Arc::new(lower_pat(*p.arg)), type_ann: p.type_ann }
}

#[verifier::loop_isolation(false)]
pub(crate) fn lower_object_pat(p: ObjectPat) -> (d: ObjectPatData)
    ensures
        lowers_object_pat(p, d),
    decreases p,
{
    let ghost gp = p.props@;
    let mut props: Vec<Arc<ObjectPatPropData>> = Vec::new();
    for x in it: p.props.into_iter()
        invariant
            it.seq() == gp,
            props@.len() == it.index(),
            forall|j: int| 0 <= j < it.index() ==> lowers_object_pat_prop(#[trigger] gp[j], *props@[j]),
    {
        proof {
            assert(decreases_to!(p => p.props));
            assert(decreases_to!(p.props => p.props@));
            assert(decreases_to!(p.props@ => p.props@[it.index() as int]));
        }
        props.push(Arc::new(lower_object_pat_prop(x)));
    }
    ObjectPatData { span: p.span, props, optional: p.optional, type_ann: p.type_ann }
}

/// Lowers a pattern with a default value.
pub fn lower_assign_pat(p: AssignPat) -> (d: AssignPatData)
    ensures
        lowers_assign_pat(p, d),
    decreases p,
{
    AssignPatData { span: p.span, left: Arc::new(lower_pat(*p.left)), right: Arc::new(lower_expr(*p.right)) }
}

/// Lowers one property of an object pattern.
pub fn lower_object_pat_prop(prop: ObjectPatProp) -> (d: ObjectPatPropData)
    ensures
        lowers_object_pat_prop(prop, d),
    decreases prop,
{
    match prop {
        ObjectPatProp::KeyValue(p) => ObjectPatPropData::KeyValue(
            KeyValuePatPropData { key: p.key, value: Arc::new(lower_pat(*p.value)) },
        ),
        ObjectPatProp::Assign(p) => ObjectPatPropData::Assign(
            AssignPatPropData { span: p.span, key: p.key, value: lower_opt_expr(p.value) },
        ),
        ObjectPatProp::Rest(p) => ObjectPatPropData::Rest(lower_rest_pat(p)),
    }
}

/// Lowers a parameter of a function type: it stands for a pattern, and is
/// lowered as that pattern.
pub fn conv_fn_param(param: TsFnParam) -> (d: PatData)
    ensures
        lowers_ts_fn_param(param, d),
        lowers_pat(ts_fn_param_pat(param), d),
    decreases param,
{
    match param {
        TsFnParam::Ident(x) => PatData::Ident(x),
        TsFnParam::Array(x) => PatData::Array(lower_array_pat(x)),
        TsFnParam::Rest(x) => PatData::Rest(lower_rest_pat(x)),
        TsFnParam::Object(x) => PatData::Object(lower_object_pat(x)),
    }
}

/// Lowers the parameters of a function type, in order, each as the
/// pattern it stands for.
#[verifier::loop_isolation(false)]
pub fn conv_fn_params(p: Vec<TsFnParam>) -> (d: Vec<Arc<PatData>>)
    ensures
        lowers_ts_fn_params(p@, d@),
    decreases p,
{
    let ghost gp = p@;
    let mut out: Vec<Arc<PatData>> = Vec::new();
    for x in it: p.into_iter()
        invariant
            it.seq() == gp,
            out@.len() == it.index(),
            forall|j: int| 0 <= j < it.index() ==> lowers_ts_fn_param(#[trigger] gp[j], *out@[j]),
    {
        proof {
            assert(decreases_to!(p => p@));
            assert(decreases_to!(p@ => p@[it.index() as int]));
        }
        out.push(Arc::new(conv_fn_param(x)));
    }
    out
}

/// A parameter of a function type is lowered exactly as the pattern it
/// stands for.
pub proof fn lemma_ts_fn_param_lowers_as_pat(p: TsFnParam, d: PatData)
    ensures
        lowers_ts_fn_param(p, d) <==> lowers_pat(ts_fn_param_pat(p), d),
{
}

} // verus!
