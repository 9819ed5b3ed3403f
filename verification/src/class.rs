//! Classes and class members in lowered form.
use std::sync::Arc;
use vstd::prelude::*;

use crate::ast::class::{
    AutoAccessor, Class, ClassMember, ClassMethod, ClassProp, Constructor, Key, PrivateMethod, PrivateProp,
};
use crate::ast::common::{BindingIdent, PrivateName, Span};
use crate::ast::function::ParamOrTsParamProp;
use crate::ast::stmt::EmptyStmt;
use crate::ast::typescript::{TsExprWithTypeArgs, TsFnParam, TsIndexSignature, TsParamProp, TsParamPropParam};
use crate::enums::{Accessibility, MethodKind};
use crate::expr::{lower_opt_expr, lowers_opt_expr, ExprData};
use crate::function::{
    lower_decorators, lower_function, lower_opt_function_body, lower_param, lowers_decorators, lowers_function, lowers_opt_function_body, lowers_param, DecoratorData,
    FunctionBodyData, FunctionData, ParamData,
};
use crate::pat::{conv_fn_params, lower_assign_pat, lowers_assign_pat, lowers_ts_fn_params, AssignPatData, PatData};
use crate::prop::{lower_propname, lowers_propname, PropNameData};
use crate::stmts::{lower_block_stmt, lowers_block_stmt, BlockStmtData};
use crate::typeinfo::{
    lower_opt_ts_type_param_decl, lower_opt_ts_type_param_instantiation, lower_opt_tstypeann,
    lowers_opt_ts_type_param_decl, lowers_opt_ts_type_param_instantiation, lowers_opt_tstypeann,
    TsTypeAnnData, TsTypeParamDeclData, TsTypeParamInstantiationData,
};

verus! {

/// The key of an auto accessor: a private name or a property name.
#[derive(Clone, Debug, PartialEq, Eq)]
pub enum KeyData {
    Private(PrivateName),
    Public(Arc<PropNameData>),
}

/// The binding of a constructor parameter property.
#[derive(Clone, Debug, PartialEq, Eq)]
pub enum TsParamPropParamData {
    Ident(BindingIdent),
    Assign(AssignPatData),
}

/// A constructor parameter with an accessibility or `readonly` modifier.
#[derive(Clone, Debug, PartialEq, Eq)]
pub struct TsParamPropData {
    pub span: Span,
    pub decorators: Vec<DecoratorData>,
    pub accessibility: Option<Accessibility>,
    pub is_override: bool,
    pub readonly: bool,
    pub param: TsParamPropParamData,
}

/// A constructor parameter.
#[derive(Clone, Debug, PartialEq, Eq)]
pub enum ParamOrTsParamPropData {
    Param(ParamData),
    TsParamProp(TsParamPropData),
}

#[derive(Clone, Debug, PartialEq, Eq)]
pub struct ConstructorData {
    pub span: Span,
    pub ctxt: u32,
    pub key: Arc<PropNameData>,
    pub params: Vec<ParamOrTsParamPropData>,
    pub body: Option<Arc<FunctionBodyData>>,
    pub accessibility: Option<Accessibility>,
    pub is_optional: bool,
}

#[derive(Clone, Debug, PartialEq, Eq)]
pub struct ClassMethodData {
    pub span: Span,
    pub key: Arc<PropNameData>,
    pub function: Arc<FunctionData>,
    pub kind: MethodKind,
    pub is_static: bool,
    pub accessibility: Option<Accessibility>,
    pub is_abstract: bool,
    pub is_optional: bool,
    pub is_override: bool,
}

#[derive(Clone, Debug, PartialEq, Eq)]
pub struct PrivateMethodData {
    pub span: Span,
    pub key: PrivateName,
    pub function: Arc<FunctionData>,
    pub kind: MethodKind,
    pub is_static: bool,
    pub accessibility: Option<Accessibility>,
    pub is_abstract: bool,
    pub is_optional: bool,
    pub is_override: bool,
}

#[derive(Clone, Debug, PartialEq, Eq)]
pub struct ClassPropData {
    pub span: Span,
    pub key: Arc<PropNameData>,
    pub value: Option<Arc<ExprData>>,
    pub type_ann: Option<Arc<TsTypeAnnData>>,
    pub is_static: bool,
    pub decorators: Vec<DecoratorData>,
    pub accessibility: Option<Accessibility>,
    pub is_abstract: bool,
    pub is_optional: bool,
    pub is_override: bool,
    pub readonly: bool,
    pub declare: bool,
    pub definite: bool,
}

#[derive(Clone, Debug, PartialEq, Eq)]
pub struct PrivatePropData {
    pub span: Span,
    pub ctxt: u32,
    pub key: PrivateName,
    pub value: Option<Arc<ExprData>>,
    pub type_ann: Option<Arc<TsTypeAnnData>>,
    pub is_static: bool,
    pub decorators: Vec<DecoratorData>,
    pub accessibility: Option<Accessibility>,
    pub is_optional: bool,
    pub is_override: bool,
    pub readonly: bool,
    pub definite: bool,
}

/// An index signature in a class body; its parameters are lowered as
/// patterns.
#[derive(Clone, Debug, PartialEq, Eq)]
pub struct ClassIndexSignatureData {
    pub params: Vec<Arc<PatData>>,
    pub type_ann: Option<Arc<TsTypeAnnData>>,
    pub readonly: bool,
    pub is_static: bool,
    pub span: Span,
}

#[derive(Clone, Debug, PartialEq, Eq)]
pub struct StaticBlockData {
    pub span: Span,
    pub body: Arc<BlockStmtData>,
}

#[derive(Clone, Debug, PartialEq, Eq)]
pub struct AutoAccessorData {
    pub span: Span,
    pub key: KeyData,
    pub value: Option<Arc<ExprData>>,
    pub type_ann: Option<Arc<TsTypeAnnData>>,
    pub is_static: bool,
    pub decorators: Vec<DecoratorData>,
    pub accessibility: Option<Accessibility>,
    pub is_abstract: bool,
    pub is_override: bool,
    pub definite: bool,
}

/// A lowered class member.
#[derive(Clone, Debug, PartialEq, Eq)]
pub enum ClassMemberData {
    Constructor(ConstructorData),
    Method(ClassMethodData),
    PrivateMethod(PrivateMethodData),
    ClassProp(ClassPropData),
    PrivateProp(PrivatePropData),
    TsIndexSignature(ClassIndexSignatureData),
    Empty(EmptyStmt),
    StaticBlock(StaticBlockData),
    AutoAccessor(AutoAccessorData),
}

/// A lowered class.
#[derive(Clone, Debug, PartialEq, Eq)]
pub struct ClassData {
    pub span: Span,
    pub ctxt: u32,
    pub decorators: Vec<DecoratorData>,
    pub body: Vec<Arc<ClassMemberData>>,
    pub super_class: Option<Arc<ExprData>>,
    pub is_abstract: bool,
    pub type_params: Option<Arc<TsTypeParamDeclData>>,
    pub super_type_params: Option<Arc<TsTypeParamInstantiationData>>,
    pub implements: Vec<TsExprWithTypeArgs>,
}

// ---------------------------------------------------------------------
// What lowering produces
// ---------------------------------------------------------------------

/// `d` is the lowered form of the key `k`.
pub open spec fn lowers_key(k: Key, d: KeyData) -> bool
    decreases k,
{
    match k {
        Key::Private(x) => d == KeyData::Private(x),
        Key::Public(x) => d is Public && lowers_propname(x, *d->Public_0),
    }
}

/// `d` is the lowered form of the binding of a parameter property `p`.
pub open spec fn lowers_ts_param_prop_param(p: TsParamPropParam, d: TsParamPropParamData) -> bool
    decreases p,
{
    match p {
        TsParamPropParam::Ident(b) => d == TsParamPropParamData::Ident(b),
        TsParamPropParam::Assign(a) => d is Assign && lowers_assign_pat(a, d->Assign_0),
    }
}

/// `d` is the lowered form of the parameter property `p`.
pub open spec fn lowers_ts_param_prop(p: TsParamProp, d: TsParamPropData) -> bool
    decreases p,
{
    &&& d.span == p.span
    &&& lowers_decorators(p.decorators@, d.decorators@)
    &&& d.accessibility == p.accessibility
    &&& d.is_override == p.is_override
    &&& d.readonly == p.readonly
    &&& lowers_ts_param_prop_param(p.param, d.param)
}

/// `d` is the lowered form of the constructor parameter `p`.
pub open spec fn lowers_param_or_ts_param_prop(p: ParamOrTsParamProp, d: ParamOrTsParamPropData) -> bool
    decreases p,
{
    match p {
        ParamOrTsParamProp::Param(x) => d is Param && lowers_param(x, d->Param_0),
        ParamOrTsParamProp::TsParamProp(x) => d is TsParamProp && lowers_ts_param_prop(x, d->TsParamProp_0),
    }
}

/// `y` is the lowered form of the constructor `x`.
pub open spec fn lowers_constructor(x: Constructor, y: ConstructorData) -> bool
    decreases x,
{
    &&& y.span == x.span
    &&& y.ctxt == x.ctxt
    &&& lowers_propname(x.key, *y.key)
    &&& y.params@.len() == x.params@.len()
    &&& forall|i: int| 0 <= i < x.params@.len()
        ==> lowers_param_or_ts_param_prop(#[trigger] x.params@[i], y.params@[i])
    &&& lowers_opt_function_body(x.body, y.body)
    &&& y.accessibility == x.accessibility
    &&& y.is_optional == x.is_optional
}

/// `y` is the lowered form of the method `x`.
pub open spec fn lowers_class_method(x: ClassMethod, y: ClassMethodData) -> bool
    decreases x,
{
    &&& y.span == x.span
    &&& lowers_propname(x.key, *y.key)
    &&& lowers_function(*x.function, *y.function)
    &&& y.kind == x.kind
    &&& y.is_static == x.is_static
    &&& y.accessibility == x.accessibility
    &&& y.is_abstract == x.is_abstract
    &&& y.is_optional == x.is_optional
    &&& y.is_override == x.is_override
}

/// `y` is the lowered form of the private method `x`.
pub open spec fn lowers_private_method(x: PrivateMethod, y: PrivateMethodData) -> bool
    decreases x,
{
    &&& y.span == x.span
    &&& y.key == x.key
    &&& lowers_function(*x.function, *y.function)
    &&& y.kind == x.kind
    &&& y.is_static == x.is_static
    &&& y.accessibility == x.accessibility
    &&& y.is_abstract == x.is_abstract
    &&& y.is_optional == x.is_optional
    &&& y.is_override == x.is_override
}

/// `y` is the lowered form of the property `x`.
pub open spec fn lowers_class_prop(x: ClassProp, y: ClassPropData) -> bool
    decreases x,
{
    &&& y.span == x.span
    &&& lowers_propname(x.key, *y.key)
    &&& lowers_opt_expr(x.value, y.value)
    &&& lowers_opt_tstypeann(x.type_ann, y.type_ann)
    &&& y.is_static == x.is_static
    &&& lowers_decorators(x.decorators@, y.decorators@)
    &&& y.accessibility == x.accessibility
    &&& y.is_abstract == x.is_abstract
    &&& y.is_optional == x.is_optional
    &&& y.is_override == x.is_override
    &&& y.readonly == x.readonly
    &&& y.declare == x.declare
    &&& y.definite == x.definite
}

/// `y` is the lowered form of the private property `x`.
pub open spec fn lowers_private_prop(x: PrivateProp, y: PrivatePropData) -> bool
    decreases x,
{
    &&& y.span == x.span
    &&& y.ctxt == x.ctxt
    &&& y.key == x.key
    &&& lowers_opt_expr(x.value, y.value)
    &&& lowers_opt_tstypeann(x.type_ann, y.type_ann)
    &&& y.is_static == x.is_static
    &&& lowers_decorators(x.decorators@, y.decorators@)
    &&& y.accessibility == x.accessibility
    &&& y.is_optional == x.is_optional
    &&& y.is_override == x.is_override
    &&& y.readonly == x.readonly
    &&& y.definite == x.definite
}

/// `y` is the lowered form of the index signature `x`.
pub open spec fn lowers_class_index_signature(x: TsIndexSignature, y: ClassIndexSignatureData) -> bool
    decreases x,
{
    &&& lowers_ts_fn_params(x.params@, y.params@)
    &&& lowers_opt_tstypeann(x.type_ann, y.type_ann)
    &&& y.readonly == x.readonly
    &&& y.is_static == x.is_static
    &&& y.span == x.span
}

/// `y` is the lowered form of the auto accessor `x`.
pub open spec fn lowers_auto_accessor(x: AutoAccessor, y: AutoAccessorData) -> bool
    decreases x,
{
    &&& y.span == x.span
    &&& lowers_key(x.key, y.key)
    &&& lowers_opt_expr(x.value, y.value)
    &&& lowers_opt_tstypeann(x.type_ann, y.type_ann)
    &&& y.is_static == x.is_static
    &&& lowers_decorators(x.decorators@, y.decorators@)
    &&& y.accessibility == x.accessibility
    &&& y.is_abstract == x.is_abstract
    &&& y.is_override == x.is_override
    &&& y.definite == x.definite
}

/// `d` is the lowered form of the class member `m`.
pub open spec fn lowers_class_member(m: ClassMember, d: ClassMemberData) -> bool
    decreases m,
{
    match m {
        ClassMember::Constructor(x) => d is Constructor && lowers_constructor(x, d->Constructor_0),
        ClassMember::Method(x) => d is Method && lowers_class_method(x, d->Method_0),
        ClassMember::PrivateMethod(x) => d is PrivateMethod && lowers_private_method(x, d->PrivateMethod_0),
        ClassMember::ClassProp(x) => d is ClassProp && lowers_class_prop(x, d->ClassProp_0),
        ClassMember::PrivateProp(x) => d is PrivateProp && lowers_private_prop(x, d->PrivateProp_0),
        ClassMember::TsIndexSignature(x) => d is TsIndexSignature && lowers_class_index_signature(x, d->TsIndexSignature_0),
        ClassMember::Empty(x) => d == ClassMemberData::Empty(x),
        ClassMember::StaticBlock(x) => match d {
            ClassMemberData::StaticBlock(y) => y.span == x.span && lowers_block_stmt(x.body, *y.body),
            _ => false,
        },
        ClassMember::AutoAccessor(x) => d is AutoAccessor && lowers_auto_accessor(x, d->AutoAccessor_0),
    }
}

/// `d` is the lowered form of the class members `m`, one by one.
pub open spec fn lowers_class_members(m: Seq<ClassMember>, d: Seq<Arc<ClassMemberData>>) -> bool
    decreases m,
{
    &&& d.len() == m.len()
    &&& forall|i: int| 0 <= i < m.len() ==> lowers_class_member(#[trigger] m[i], *d[i])
}

/// `d` is the lowered form of the class `c`: members, decorators, the
/// super class and type parameter lists are lowered, the `implements`
/// clauses are kept.
pub open spec fn lowers_class(c: Class, d: ClassData) -> bool
    decreases c,
{
    &&& d.span == c.span
    &&& d.ctxt == c.ctxt
    &&& lowers_decorators(c.decorators@, d.decorators@)
    &&& lowers_class_members(c.body@, d.body@)
    &&& lowers_opt_expr(c.super_class, d.super_class)
    &&& d.is_abstract == c.is_abstract
    &&& lowers_opt_ts_type_param_decl(c.type_params, d.type_params)
    &&& lowers_opt_ts_type_param_instantiation(c.super_type_params, d.super_type_params)
    &&& d.implements == c.implements
}

// ---------------------------------------------------------------------
// Lowering
// ---------------------------------------------------------------------

/// Lowers the key of an auto accessor.
pub fn lower_key(k: Key) -> (d: KeyData)
    ensures
        lowers_key(k, d),
    decreases k,
{
    match k {
        Key::Private(p) => KeyData::Private(p),
        Key::Public(p) => KeyData::Public(Arc::new(lower_propname(p))),
    }
}

fn lower_ts_param_prop_param(p: TsParamPropParam) -> (d: TsParamPropParamData)
    ensures
        lowers_ts_param_prop_param(p, d),
    decreases p,
{
    match p {
        TsParamPropParam::Ident(i) => TsParamPropParamData::Ident(i),
        TsParamPropParam::Assign(a) => TsParamPropParamData::Assign(lower_assign_pat(a)),
    }
}

/// Lowers a constructor parameter.
pub fn lower_param_or_ts_param_prop(p: ParamOrTsParamProp) -> (d: ParamOrTsParamPropData)
    ensures
        lowers_param_or_ts_param_prop(p, d),
    decreases p,
{
    match p {
        ParamOrTsParamProp::Param(x) => ParamOrTsParamPropData::Param(lower_param(x)),
        ParamOrTsParamProp::TsParamProp(x) => ParamOrTsParamPropData::TsParamProp(
            TsParamPropData {
                span: x.span,
                decorators: lower_decorators(x.decorators),
                accessibility: x.accessibility,
                is_override: x.is_override,
                readonly: x.readonly,
                param: lower_ts_param_prop_param(x.param),
            },
        ),
    }
}

#[verifier::loop_isolation(false)]
fn lower_constructor(x: Constructor) -> (d: ConstructorData)
    ensures
        lowers_constructor(x, d),
    decreases x,
{
    let key = Arc::new(lower_propname(x.key));
    let ghost gp = x.params@;
    let mut params: Vec<ParamOrTsParamPropData> = Vec::new();
    for p in it: x.params.into_iter()
        invariant
            it.seq() == gp,
            params@.len() == it.index(),
            forall|j: int| 0 <= j < it.index() ==> lowers_param_or_ts_param_prop(#[trigger] gp[j], params@[j]),
    {
        proof {
            assert(decreases_to!(x => x.params));
            assert(decreases_to!(x.params => x.params@));
            assert(decreases_to!(x.params@ => x.params@[it.index() as int]));
        }
        params.push(lower_param_or_ts_param_prop(p));
    }
    ConstructorData {
        span: x.span,
        ctxt: x.ctxt,
        key,
        params,
        body: lower_opt_function_body(x.body),
        accessibility: x.accessibility,
        is_optional: x.is_optional,
    }
}

/// Lowers a class member.
pub fn lower_class_member(m: ClassMember) -> (d: ClassMemberData)
    ensures
        lowers_class_member(m, d),
    decreases m,
{
    match m {
        ClassMember::Constructor(c) => ClassMemberData::Constructor(lower_constructor(c)),
        ClassMember::Method(x) => ClassMemberData::Method(
            ClassMethodData {
                span: x.span,
                key: Arc::new(lower_propname(x.key)),
                function: Arc::new(lower_function(*x.function)),
                kind: x.kind,
                is_static: x.is_static,
                accessibility: x.accessibility,
                is_abstract: x.is_abstract,
                is_optional: x.is_optional,
                is_override: x.is_override,
            },
        ),
        ClassMember::PrivateMethod(x) => ClassMemberData::PrivateMethod(
            PrivateMethodData {
                span: x.span,
                key: x.key,
                function: Arc::new(lower_function(*x.function)),
                kind: x.kind,
                is_static: x.is_static,
                accessibility: x.accessibility,
                is_abstract: x.is_abstract,
                is_optional: x.is_optional,
                is_override: x.is_override,
            },
        ),
        ClassMember::ClassProp(x) => ClassMemberData::ClassProp(
            ClassPropData {
                span: x.span,
                key: Arc::new(lower_propname(x.key)),
                value: lower_opt_expr(x.value),
                type_ann: lower_opt_tstypeann(x.type_ann),
                is_static: x.is_static,
                decorators: lower_decorators(x.decorators),
                accessibility: x.accessibility,
                is_abstract: x.is_abstract,
                is_optional: x.is_optional,
                is_override: x.is_override,
                readonly: x.readonly,
                declare: x.declare,
                definite: x.definite,
            },
        ),
        ClassMember::PrivateProp(x) => ClassMemberData::PrivateProp(
            PrivatePropData {
                span: x.span,
                ctxt: x.ctxt,
                key: x.key,
                value: lower_opt_expr(x.value),
                type_ann: lower_opt_tstypeann(x.type_ann),
                is_static: x.is_static,
                decorators: lower_decorators(x.decorators),
                accessibility: x.accessibility,
                is_optional: x.is_optional,
                is_override: x.is_override,
                readonly: x.readonly,
                definite: x.definite,
            },
        ),
        ClassMember::TsIndexSignature(x) => ClassMemberData::TsIndexSignature(
            ClassIndexSignatureData {
                params: conv_fn_params(x.params),
                type_ann: lower_opt_tstypeann(x.type_ann),
                readonly: x.readonly,
                is_static: x.is_static,
                span: x.span,
            },
        ),
        ClassMember::Empty(e) => ClassMemberData::Empty(e),
        ClassMember::StaticBlock(x) => ClassMemberData::StaticBlock(
            StaticBlockData { span: x.span, body: Arc::new(lower_block_stmt(x.body)) },
        ),
        ClassMember::AutoAccessor(x) => ClassMemberData::AutoAccessor(
            AutoAccessorData {
                span: x.span,
                key: lower_key(x.key),
                value: lower_opt_expr(x.value),
                type_ann: lower_opt_tstypeann(x.type_ann),
                is_static: x.is_static,
                decorators: lower_decorators(x.decorators),
                accessibility: x.accessibility,
                is_abstract: x.is_abstract,
                is_override: x.is_override,
                definite: x.definite,
            },
        ),
    }
}

#[verifier::loop_isolation(false)]
fn lower_class_members(m: Vec<ClassMember>) -> (d: Vec<Arc<ClassMemberData>>)
    ensures
        lowers_class_members(m@, d@),
    decreases m,
{
    let ghost gm = m@;
    let mut out: Vec<Arc<ClassMemberData>> = Vec::new();
    for x in it: m.into_iter()
        invariant
            it.seq() == gm,
            out@.len() == it.index(),
            forall|j: int| 0 <= j < it.index() ==> lowers_class_member(#[trigger] gm[j], *out@[j]),
    {
        proof {
            assert(decreases_to!(m => m@));
            assert(decreases_to!(m@ => m@[it.index() as int]));
        }
        out.push(Arc::new(lower_class_member(x)));
    }
    out
}

/// Lowers a class.
pub fn lower_class(c: Class) -> (d: ClassData)
    ensures
        lowers_class(c, d),
    decreases c,
{
    ClassData {
        span: c.span,
        ctxt: c.ctxt,
        decorators: lower_decorators(c.decorators),
        body: lower_class_members(c.body),
        super_class: lower_opt_expr(c.super_class),
        is_abstract: c.is_abstract,
        type_params: lower_opt_ts_type_param_decl(c.type_params),
        super_type_params: lower_opt_ts_type_param_instantiation(c.super_type_params),
        implements: c.implements,
    }
}

} // verus!
