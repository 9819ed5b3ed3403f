//! TypeScript type annotations in lowered form.
//!
//! Lowering turns every nested type of a type annotation into a shared
//! node; the node kinds that a binding reads whole (keyword types, type
//! references, literal types, ...) are kept as the parser produced them.
use std::sync::Arc;
use vstd::prelude::*;

use crate::ast::common::{Ident, Span};
use crate::ast::typescript::{
    TsFnOrConstructorType, TsFnParam, TsImportType, TsInferType, TsKeywordType, TsLitType,
    TsThisType, TsThisTypeOrIdent, TsTupleType, TsType, TsTypeAnn, TsTypeLit, TsTypeParam,
    TsTypeParamDecl, TsTypeParamInstantiation, TsTypeQuery, TsTypeRef, TsUnionOrIntersectionType,
};
use crate::enums::{TruePlusMinus, TsTypeOperatorOp};

verus! {

/// A lowered type annotation (`: T`).
#[derive(Clone, Debug, PartialEq, Eq)]
pub struct TsTypeAnnData {
    pub span: Span,
    pub type_ann: Arc<TsTypeData>,
}

/// A lowered TypeScript type.
#[derive(Clone, Debug, PartialEq, Eq)]
pub enum TsTypeData {
    KeywordType(TsKeywordType),
    ThisType(TsThisType),
    FnType(TsFnOrConstructorTypeData),
    ConstructorType(TsFnOrConstructorTypeData),
    TypeRef(TsTypeRef),
    TypeQuery(TsTypeQuery),
    TypeLit(TsTypeLit),
    ArrayType(TsArrayTypeData),
    TupleType(TsTupleType),
    OptionalType(TsOptionalTypeData),
    RestType(TsRestTypeData),
    UnionType(TsUnionOrIntersectionTypeData),
    IntersectionType(TsUnionOrIntersectionTypeData),
    ConditionalType(TsConditionalTypeData),
    InferType(TsInferType),
    ParenthesizedType(TsParenthesizedTypeData),
    TypeOperator(TsTypeOperatorData),
    IndexedAccessType(TsIndexedAccessTypeData),
    MappedType(TsMappedTypeData),
    LitType(TsLitType),
    TypePredicate(TsTypePredicateData),
    ImportType(TsImportType),
}

/// A function type or a constructor type; `is_abstract` is false for
/// function types.
#[derive(Clone, Debug, PartialEq, Eq)]
pub struct TsFnOrConstructorTypeData {
    pub span: Span,
    pub params: Vec<TsFnParam>,
    pub type_params: Option<Arc<TsTypeParamDeclData>>,
    pub type_ann: Arc<TsTypeAnnData>,
    pub is_abstract: bool,
}

#[derive(Clone, Debug, PartialEq, Eq)]
pub struct TsArrayTypeData {
    pub span: Span,
    pub elem_type: Arc<TsTypeData>,
}

#[derive(Clone, Debug, PartialEq, Eq)]
pub struct TsOptionalTypeData {
    pub span: Span,
    pub type_ann: Arc<TsTypeData>,
}

#[derive(Clone, Debug, PartialEq, Eq)]
pub struct TsRestTypeData {
    pub span: Span,
    pub type_ann: Arc<TsTypeData>,
}

/// The members of a union or an intersection type, in source order.
#[derive(Clone, Debug, PartialEq, Eq)]
pub struct TsUnionOrIntersectionTypeData {
    pub span: Span,
    pub types: Vec<Arc<TsTypeData>>,
}

#[derive(Clone, Debug, PartialEq, Eq)]
pub struct TsConditionalTypeData {
    pub span: Span,
    pub check_type: Arc<TsTypeData>,
    pub extends_type: Arc<TsTypeData>,
    pub true_type: Arc<TsTypeData>,
    pub false_type: Arc<TsTypeData>,
}

#[derive(Clone, Debug, PartialEq, Eq)]
pub struct TsParenthesizedTypeData {
    pub span: Span,
    pub type_ann: Arc<TsTypeData>,
}

#[derive(Clone, Debug, PartialEq, Eq)]
pub struct TsTypeOperatorData {
    pub span: Span,
    pub op: TsTypeOperatorOp,
    pub type_ann: Arc<TsTypeData>,
}

#[derive(Clone, Debug, PartialEq, Eq)]
pub struct TsIndexedAccessTypeData {
    pub span: Span,
    pub readonly: bool,
    pub obj_type: Arc<TsTypeData>,
    pub index_type: Arc<TsTypeData>,
}

#[derive(Clone, Debug, PartialEq, Eq)]
pub struct TsMappedTypeData {
    pub span: Span,
    pub readonly: Option<TruePlusMinus>,
    pub type_param: TsTypeParamData,
    pub name_type: Option<Arc<TsTypeData>>,
    pub optional: Option<TruePlusMinus>,
    pub type_ann: Option<Arc<TsTypeData>>,
}

#[derive(Clone, Debug, PartialEq, Eq)]
pub struct TsTypePredicateData {
    pub span: Span,
    pub asserts: bool,
    pub param_name: TsThisTypeOrIdent,
    pub type_ann: Option<Arc<TsTypeAnnData>>,
}

/// A lowered type parameter (`T extends C = D`).
#[derive(Clone, Debug, PartialEq, Eq)]
pub struct TsTypeParamData {
    pub span: Span,
    pub name: Ident,
    pub is_in: bool,
    pub is_out: bool,
    pub is_const: bool,
    pub constraint: Option<Arc<TsTypeData>>,
    pub default: Option<Arc<TsTypeData>>,
}

/// A lowered type parameter list (`<T, U>` in a declaration).
#[derive(Clone, Debug, PartialEq, Eq)]
pub struct TsTypeParamDeclData {
    pub span: Span,
    pub params: Vec<TsTypeParamData>,
}

/// A lowered type argument list (`<number, string>` at a use).
#[derive(Clone, Debug, PartialEq, Eq)]
pub struct TsTypeParamInstantiationData {
    pub span: Span,
    pub params: Vec<Arc<TsTypeData>>,
}

// ---------------------------------------------------------------------
// What lowering produces
// ---------------------------------------------------------------------

/// `d` is the lowered form of the optional type `t`.
pub open spec fn lowers_opt_tstype(t: Option<Box<TsType>>, d: Option<Arc<TsTypeData>>) -> bool
    decreases t,
{
    match t {
        None => d is None,
        Some(b) => d is Some && lowers_tstype(*b, *d->Some_0),
    }
}

/// `d` is the lowered form of the list of types `t`, element by element.
pub open spec fn lowers_tstypes(t: Seq<Box<TsType>>, d: Seq<Arc<TsTypeData>>) -> bool
    decreases t,
{
    &&& d.len() == t.len()
    &&& forall|i: int| 0 <= i < t.len() ==> lowers_tstype(*#[trigger] t[i], *d[i])
}

/// `d` is the lowered form of the type annotation `t`.
pub open spec fn lowers_tstypeann(t: TsTypeAnn, d: TsTypeAnnData) -> bool
    decreases t,
{
    d.span == t.span && lowers_tstype(*t.type_ann, *d.type_ann)
}

/// `d` is the lowered form of the optional type annotation `t`.
pub open spec fn lowers_opt_tstypeann(t: Option<Box<TsTypeAnn>>, d: Option<Arc<TsTypeAnnData>>) -> bool
    decreases t,
{
    match t {
        None => d is None,
        Some(b) => d is Some && lowers_tstypeann(*b, *d->Some_0),
    }
}

/// `d` is the lowered form of the type parameter `p`.
pub open spec fn lowers_ts_type_param(p: TsTypeParam, d: TsTypeParamData) -> bool
    decreases p,
{
    &&& d.span == p.span
    &&& d.name == p.name
    &&& d.is_in == p.is_in
    &&& d.is_out == p.is_out
    &&& d.is_const == p.is_const
    &&& lowers_opt_tstype(p.constraint, d.constraint)
    &&& lowers_opt_tstype(p.default, d.default)
}

/// `d` is the lowered form of the type parameter list `p`.
pub open spec fn lowers_ts_type_param_decl(p: TsTypeParamDecl, d: TsTypeParamDeclData) -> bool
    decreases p,
{
    &&& d.span == p.span
    &&& d.params@.len() == p.params@.len()
    &&& forall|i: int| 0 <= i < p.params@.len() ==> lowers_ts_type_param(#[trigger] p.params@[i], d.params@[i])
}

/// `d` is the lowered form of the optional type parameter list `p`.
pub open spec fn lowers_opt_ts_type_param_decl(p: Option<Box<TsTypeParamDecl>>, d: Option<Arc<TsTypeParamDeclData>>) -> bool
    decreases p,
{
    match p {
        None => d is None,
        Some(b) => d is Some && lowers_ts_type_param_decl(*b, *d->Some_0),
    }
}

/// `d` is the lowered form of the type argument list `p`.
pub open spec fn lowers_ts_type_param_instantiation(p: TsTypeParamInstantiation, d: TsTypeParamInstantiationData) -> bool
    decreases p,
{
    d.span == p.span && lowers_tstypes(p.params@, d.params@)
}

/// `d` is the lowered form of the optional type argument list `p`.
pub open spec fn lowers_opt_ts_type_param_instantiation(
    p: Option<Box<TsTypeParamInstantiation>>,
    d: Option<Arc<TsTypeParamInstantiationData>>,
) -> bool
    decreases p,
{
    match p {
        None => d is None,
        Some(b) => d is Some && lowers_ts_type_param_instantiation(*b, *d->Some_0),
    }
}

/// `d` is the lowered form of the type `t`: nested types, annotations and
/// type parameter lists are lowered, every other field is kept, and a
/// function or constructor type keeps its parameters as they are.
pub open spec fn lowers_tstype(t: TsType, d: TsTypeData) -> bool
    decreases t,
{
    match t {
        TsType::TsKeywordType(x) => d == TsTypeData::KeywordType(x),
        TsType::TsThisType(x) => d == TsTypeData::ThisType(x),
        TsType::TsFnOrConstructorType(TsFnOrConstructorType::TsFnType(x)) => match d {
            TsTypeData::FnType(y) => {
                &&& y.span == x.span
                &&& y.params == x.params
                &&& lowers_opt_ts_type_param_decl(x.type_params, y.type_params)
                &&& lowers_tstypeann(*x.type_ann, *y.type_ann)
                &&& !y.is_abstract
            },
            _ => false,
        },
        TsType::TsFnOrConstructorType(TsFnOrConstructorType::TsConstructorType(x)) => match d {
            TsTypeData::ConstructorType(y) => {
                &&& y.span == x.span
                &&& y.params == x.params
                &&& lowers_opt_ts_type_param_decl(x.type_params, y.type_params)
                &&& lowers_tstypeann(*x.type_ann, *y.type_ann)
                &&& y.is_abstract == x.is_abstract
            },
            _ => false,
        },
        TsType::TsTypeRef(x) => d == TsTypeData::TypeRef(x),
        TsType::TsTypeQuery(x) => d == TsTypeData::TypeQuery(x),
        TsType::TsTypeLit(x) => d == TsTypeData::TypeLit(x),
        TsType::TsArrayType(x) => match d {
            TsTypeData::ArrayType(y) => y.span == x.span && lowers_tstype(*x.elem_type, *y.elem_type),
            _ => false,
        },
        TsType::TsTupleType(x) => d == TsTypeData::TupleType(x),
        TsType::TsOptionalType(x) => match d {
            TsTypeData::OptionalType(y) => y.span == x.span && lowers_tstype(*x.type_ann, *y.type_ann),
            _ => false,
        },
        TsType::TsRestType(x) => match d {
            TsTypeData::RestType(y) => y.span == x.span && lowers_tstype(*x.type_ann, *y.type_ann),
            _ => false,
        },
        TsType::TsUnionOrIntersectionType(TsUnionOrIntersectionType::TsUnionType(x)) => match d {
            TsTypeData::UnionType(y) => y.span == x.span && lowers_tstypes(x.types@, y.types@),
            _ => false,
        },
        TsType::TsUnionOrIntersectionType(TsUnionOrIntersectionType::TsIntersectionType(x)) => match d {
            TsTypeData::IntersectionType(y) => y.span == x.span && lowers_tstypes(x.types@, y.types@),
            _ => false,
        },
        TsType::TsConditionalType(x) => match d {
            TsTypeData::ConditionalType(y) => {
                &&& y.span == x.span
                &&& lowers_tstype(*x.check_type, *y.check_type)
                &&& lowers_tstype(*x.extends_type, *y.extends_type)
                &&& lowers_tstype(*x.true_type, *y.true_type)
                &&& lowers_tstype(*x.false_type, *y.false_type)
            },
            _ => false,
        },
        TsType::TsInferType(x) => d == TsTypeData::InferType(x),
        TsType::TsParenthesizedType(x) => match d {
            TsTypeData::ParenthesizedType(y) => y.span == x.span && lowers_tstype(*x.type_ann, *y.type_ann),
            _ => false,
        },
        TsType::TsTypeOperator(x) => match d {
            TsTypeData::TypeOperator(y) => y.span == x.span && y.op == x.op && lowers_tstype(*x.type_ann, *y.type_ann),
            _ => false,
        },
        TsType::TsIndexedAccessType(x) => match d {
            TsTypeData::IndexedAccessType(y) => {
                &&& y.span == x.span
                &&& y.readonly == x.readonly
                &&& lowers_tstype(*x.obj_type, *y.obj_type)
                &&& lowers_tstype(*x.index_type, *y.index_type)
            },
            _ => false,
        },
        TsType::TsMappedType(x) => match d {
            TsTypeData::MappedType(y) => {
                &&& y.span == x.span
                &&& y.readonly == x.readonly
                &&& lowers_ts_type_param(x.type_param, y.type_param)
                &&& lowers_opt_tstype(x.name_type, y.name_type)
                &&& y.optional == x.optional
                &&& lowers_opt_tstype(x.type_ann, y.type_ann)
            },
            _ => false,
        },
        TsType::TsLitType(x) => d == TsTypeData::LitType(x),
        TsType::TsTypePredicate(x) => match d {
            TsTypeData::TypePredicate(y) => {
                &&& y.span == x.span
                &&& y.asserts == x.asserts
                &&& y.param_name == x.param_name
                &&& lowers_opt_tstypeann(x.type_ann, y.type_ann)
            },
            _ => false,
        },
        TsType::TsImportType(x) => d == TsTypeData::ImportType(x),
    }
}

// ---------------------------------------------------------------------
// Lowering
// ---------------------------------------------------------------------

pub(crate) fn lower_opt_tstype(t: Option<Box<TsType>>) -> (d: Option<Arc<TsTypeData>>)
    ensures
        lowers_opt_tstype(t, d),
    decreases t,
{
    match t {
        None => None,
        Some(b) => Some(Arc::new(lower_tstype(*b))),
    }
}

#[verifier::loop_isolation(false)]
pub(crate) fn lower_tstypes(t: Vec<Box<TsType>>) -> (d: Vec<Arc<TsTypeData>>)
    ensures
        lowers_tstypes(t@, d@),
    decreases t,
{
    let ghost gt = t@;
    let mut out: Vec<Arc<TsTypeData>> = Vec::new();
    for x in it: t.into_iter()
        invariant
            it.seq() == gt,
            out@.len() == it.index(),
            forall|j: int| 0 <= j < it.index() ==> lowers_tstype(*#[trigger] gt[j], *out@[j]),
    {
        proof {
            assert(decreases_to!(t => t@));
            assert(decreases_to!(t@ => t@[it.index() as int]));
        }
        out.push(Arc::new(lower_tstype(*x)));
    }
    out
}

/// Lowers a type annotation.
pub fn lower_tstypeann(ann: TsTypeAnn) -> (d: TsTypeAnnData)
    ensures
        lowers_tstypeann(ann, d),
    decreases ann,
{
    TsTypeAnnData { span: ann.span, type_ann: Arc::new(lower_tstype(*ann.type_ann)) }
}

pub(crate) fn lower_opt_tstypeann(t: Option<Box<TsTypeAnn>>) -> (d: Option<Arc<TsTypeAnnData>>)
    ensures
        lowers_opt_tstypeann(t, d),
    decreases t,
{
    match t {
        None => None,
        Some(b) => Some(Arc::new(lower_tstypeann(*b))),
    }
}

/// Lowers a type parameter.
pub fn lower_ts_type_param(p: TsTypeParam) -> (d: TsTypeParamData)
    ensures
        lowers_ts_type_param(p, d),
    decreases p,
{
    TsTypeParamData {
        span: p.span,
        name: p.name,
        is_in: p.is_in,
        is_out: p.is_out,
        is_const: p.is_const,
        constraint: lower_opt_tstype(p.constraint),
        default: lower_opt_tstype(p.default),
    }
}

/// Lowers a type parameter list.
#[verifier::loop_isolation(false)]
pub fn lower_ts_type_param_decl(p: TsTypeParamDecl) -> (d: TsTypeParamDeclData)
    ensures
        lowers_ts_type_param_decl(p, d),
    decreases p,
{
    let ghost gp = p.params@;
    let mut params: Vec<TsTypeParamData> = Vec::new();
    for x in it: p.params.into_iter()
        invariant
            it.seq() == gp,
            params@.len() == it.index(),
            forall|j: int| 0 <= j < it.index() ==> lowers_ts_type_param(#[trigger] gp[j], params@[j]),
    {
        proof {
            assert(decreases_to!(p => p.params));
            assert(decreases_to!(p.params => p.params@));
            assert(decreases_to!(p.params@ => p.params@[it.index() as int]));
        }
        params.push(lower_ts_type_param(x));
    }
    TsTypeParamDeclData { span: p.span, params }
}

pub(crate) fn lower_opt_ts_type_param_decl(p: Option<Box<TsTypeParamDecl>>) -> (d: Option<Arc<TsTypeParamDeclData>>)
    ensures
        lowers_opt_ts_type_param_decl(p, d),
    decreases p,
{
    match p {
        None => None,
        Some(b) => Some(Arc::new(lower_ts_type_param_decl(*b))),
    }
}

/// Lowers a type argument list.
pub fn lower_ts_type_param_instantiation(i: TsTypeParamInstantiation) -> (d: TsTypeParamInstantiationData)
    ensures
        lowers_ts_type_param_instantiation(i, d),
    decreases i,
{
    TsTypeParamInstantiationData { span: i.span, params: lower_tstypes(i.params) }
}

pub(crate) fn lower_opt_ts_type_param_instantiation(p: Option<Box<TsTypeParamInstantiation>>) -> (d: Option<Arc<TsTypeParamInstantiationData>>)
    ensures
        lowers_opt_ts_type_param_instantiation(p, d),
    decreases p,
{
    match p {
        None => None,
        Some(b) => Some(Arc::new(lower_ts_type_param_instantiation(*b))),
    }
}

/// Lowers a type: nested types, annotations and type parameter lists are
/// lowered, every other part is moved over unchanged.
pub fn lower_tstype(t: TsType) -> (d: TsTypeData)
    ensures
        lowers_tstype(t, d),
    decreases t,
{
    match t {
        TsType::TsKeywordType(x) => TsTypeData::KeywordType(x),
        TsType::TsThisType(x) => TsTypeData::ThisType(x),
        TsType::TsFnOrConstructorType(TsFnOrConstructorType::TsFnType(x)) => {
            TsTypeData::FnType(TsFnOrConstructorTypeData {
                span: x.span,
                params: x.params,
                type_params: lower_opt_ts_type_param_decl(x.type_params),
                type_ann: Arc::new(lower_tstypeann(*x.type_ann)),
                is_abstract: false,
            })
        },
        TsType::TsFnOrConstructorType(TsFnOrConstructorType::TsConstructorType(x)) => {
            TsTypeData::ConstructorType(TsFnOrConstructorTypeData {
                span: x.span,
                params: x.params,
                type_params: lower_opt_ts_type_param_decl(x.type_params),
                type_ann: Arc::new(lower_tstypeann(*x.type_ann)),
                is_abstract: x.is_abstract,
            })
        },
        TsType::TsTypeRef(x) => TsTypeData::TypeRef(x),
        TsType::TsTypeQuery(x) => TsTypeData::TypeQuery(x),
        TsType::TsTypeLit(x) => TsTypeData::TypeLit(x),
        TsType::TsArrayType(x) => TsTypeData::ArrayType(TsArrayTypeData {
            span: x.span,
            elem_type: Arc::new(lower_tstype(*x.elem_type)),
        }),
        TsType::TsTupleType(x) => TsTypeData::TupleType(x),
        TsType::TsOptionalType(x) => TsTypeData::OptionalType(TsOptionalTypeData {
            span: x.span,
            type_ann: Arc::new(lower_tstype(*x.type_ann)),
        }),
        TsType::TsRestType(x) => TsTypeData::RestType(TsRestTypeData {
            span: x.span,
            type_ann: Arc::new(lower_tstype(*x.type_ann)),
        }),
        TsType::TsUnionOrIntersectionType(TsUnionOrIntersectionType::TsUnionType(x)) => {
            TsTypeData::UnionType(TsUnionOrIntersectionTypeData { span: x.span, types: lower_tstypes(x.types) })
        },
        TsType::TsUnionOrIntersectionType(TsUnionOrIntersectionType::TsIntersectionType(x)) => {
            TsTypeData::IntersectionType(TsUnionOrIntersectionTypeData { span: x.span, types: lower_tstypes(x.types) })
        },
        TsType::TsConditionalType(x) => TsTypeData::ConditionalType(TsConditionalTypeData {
            span: x.span,
            check_type: Arc::new(lower_tstype(*x.check_type)),
            extends_type: Arc::new(lower_tstype(*x.extends_type)),
            true_type: Arc::new(lower_tstype(*x.true_type)),
            false_type: Arc::new(lower_tstype(*x.false_type)),
        }),
        TsType::TsInferType(x) => TsTypeData::InferType(x),
        TsType::TsParenthesizedType(x) => TsTypeData::ParenthesizedType(TsParenthesizedTypeData {
            span: x.span,
            type_ann: Arc::new(lower_tstype(*x.type_ann)),
        }),
        TsType::TsTypeOperator(x) => TsTypeData::TypeOperator(TsTypeOperatorData {
            span: x.span,
            op: x.op,
            type_ann: Arc::new(lower_tstype(*x.type_ann)),
        }),
        TsType::TsIndexedAccessType(x) => TsTypeData::IndexedAccessType(TsIndexedAccessTypeData {
            span: x.span,
            readonly: x.readonly,
            obj_type: Arc::new(lower_tstype(*x.obj_type)),
            index_type: Arc::new(lower_tstype(*x.index_type)),
        }),
        TsType::TsMappedType(x) => TsTypeData::MappedType(TsMappedTypeData {
            span: x.span,
            readonly: x.readonly,
            type_param: lower_ts_type_param(x.type_param),
            name_type: lower_opt_tstype(x.name_type),
            optional: x.optional,
            type_ann: lower_opt_tstype(x.type_ann),
        }),
        TsType::TsLitType(x) => TsTypeData::LitType(x),
        TsType::TsTypePredicate(x) => TsTypeData::TypePredicate(TsTypePredicateData {
            span: x.span,
            asserts: x.asserts,
            param_name: x.param_name,
            type_ann: lower_opt_tstypeann(x.type_ann),
        }),
        TsType::TsImportType(x) => TsTypeData::ImportType(x),
    }
}

} // verus!
