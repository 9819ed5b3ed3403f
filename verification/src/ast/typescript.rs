use vstd::prelude::*;

use crate::ast::class::Decorator;
use crate::ast::common::BindingIdent;
use crate::ast::common::Ident;
use crate::ast::common::IdentName;
use crate::ast::common::Span;
use crate::enums::Accessibility;
use crate::enums::TruePlusMinus;
use crate::enums::TsKeywordTypeKind;
use crate::enums::TsTypeOperatorOp;
use crate::ast::expr::Expr;
use crate::ast::expr::Import;
use crate::ast::expr::ObjectLit;
use crate::ast::expr::Tpl;
use crate::ast::expr::TplElement;
use crate::ast::lit::BigInt;
use crate::ast::lit::Bool;
use crate::ast::lit::Number;
use crate::ast::lit::Str;
use crate::ast::module_item::ModuleItem;
use crate::ast::pat::ArrayPat;
use crate::ast::pat::AssignPat;
use crate::ast::pat::ObjectPat;
use crate::ast::pat::Pat;
use crate::ast::pat::RestPat;

verus! {

#[derive(Debug, PartialEq, Eq)]
pub struct TsTypeAnn {
    pub span: Span,
    pub type_ann: Box<TsType>,
}

#[derive(Debug, PartialEq, Eq)]
pub struct TsThisParam {
    pub span: Span,
    pub this_span: Span,
    pub type_ann: Option<Box<TsTypeAnn>>,
}

#[derive(Debug, PartialEq, Eq)]
pub struct TsTypeParamDecl {
    pub span: Span,
    pub params: Vec<TsTypeParam>,
}

#[derive(Debug, PartialEq, Eq)]
pub struct TsTypeParam {
    pub span: Span,
    pub name: Ident,
    pub is_in: bool,
    pub is_out: bool,
    pub is_const: bool,
    pub constraint: Option<Box<TsType>>,
    pub default: Option<Box<TsType>>,
}

#[derive(Debug, PartialEq, Eq)]
pub struct TsTypeParamInstantiation {
    pub span: Span,
    pub params: Vec<Box<TsType>>,
}

#[derive(Debug, PartialEq, Eq)]
pub struct TsParamProp {
    pub span: Span,
    pub decorators: Vec<Decorator>,
    pub accessibility: Option<Accessibility>,
    pub is_override: bool,
    pub readonly: bool,
    pub param: TsParamPropParam,
}

#[derive(Debug, PartialEq, Eq)]
pub enum TsParamPropParam {
    Ident(BindingIdent),
    Assign(AssignPat),
}

#[derive(Debug, PartialEq, Eq)]
pub struct TsQualifiedName {
    pub span: Span,
    pub left: TsEntityName,
    pub right: IdentName,
}

#[derive(Debug, PartialEq, Eq)]
pub enum TsEntityName {
    TsQualifiedName(Box<TsQualifiedName>),
    Ident(Ident),
}

#[derive(Debug, PartialEq, Eq)]
pub enum TsTypeElement {
    TsCallSignatureDecl(TsCallSignatureDecl),
    TsConstructSignatureDecl(TsConstructSignatureDecl),
    TsPropertySignature(TsPropertySignature),
    TsGetterSignature(TsGetterSignature),
    TsSetterSignature(TsSetterSignature),
    TsMethodSignature(TsMethodSignature),
    TsIndexSignature(TsIndexSignature),
}

#[derive(Debug, PartialEq, Eq)]
pub struct TsCallSignatureDecl {
    pub span: Span,
    pub params: Vec<TsFnParam>,
    pub type_ann: Option<Box<TsTypeAnn>>,
    pub type_params: Option<Box<TsTypeParamDecl>>,
}

#[derive(Debug, PartialEq, Eq)]
pub struct TsConstructSignatureDecl {
    pub span: Span,
    pub params: Vec<TsFnParam>,
    pub type_ann: Option<Box<TsTypeAnn>>,
    pub type_params: Option<Box<TsTypeParamDecl>>,
}

#[derive(Debug, PartialEq, Eq)]
pub struct TsPropertySignature {
    pub span: Span,
    pub readonly: bool,
    pub key: Box<Expr>,
    pub computed: bool,
    pub optional: bool,
    pub type_ann: Option<Box<TsTypeAnn>>,
}

#[derive(Debug, PartialEq, Eq)]
pub struct TsGetterSignature {
    pub span: Span,
    pub key: Box<Expr>,
    pub computed: bool,
    pub type_ann: Option<Box<TsTypeAnn>>,
}

#[derive(Debug, PartialEq, Eq)]
pub struct TsSetterSignature {
    pub span: Span,
    pub key: Box<Expr>,
    pub computed: bool,
    pub param: TsFnParam,
}

#[derive(Debug, PartialEq, Eq)]
pub struct TsMethodSignature {
    pub span: Span,
    pub key: Box<Expr>,
    pub computed: bool,
    pub optional: bool,
    pub params: Vec<TsFnParam>,
    pub type_ann: Option<Box<TsTypeAnn>>,
    pub type_params: Option<Box<TsTypeParamDecl>>,
}

#[derive(Debug, PartialEq, Eq)]
pub struct TsIndexSignature {
    pub params: Vec<TsFnParam>,
    pub type_ann: Option<Box<TsTypeAnn>>,
    pub readonly: bool,
    pub is_static: bool,
    pub span: Span,
}

#[derive(Debug, PartialEq, Eq)]
pub enum TsType {
    TsKeywordType(TsKeywordType),
    TsThisType(TsThisType),
    TsFnOrConstructorType(TsFnOrConstructorType),
    TsTypeRef(TsTypeRef),
    TsTypeQuery(TsTypeQuery),
    TsTypeLit(TsTypeLit),
    TsArrayType(TsArrayType),
    TsTupleType(TsTupleType),
    TsOptionalType(TsOptionalType),
    TsRestType(TsRestType),
    TsUnionOrIntersectionType(TsUnionOrIntersectionType),
    TsConditionalType(TsConditionalType),
    TsInferType(TsInferType),
    TsParenthesizedType(TsParenthesizedType),
    TsTypeOperator(TsTypeOperator),
    TsIndexedAccessType(TsIndexedAccessType),
    TsMappedType(TsMappedType),
    TsLitType(TsLitType),
    TsTypePredicate(TsTypePredicate),
    TsImportType(TsImportType),
}

#[derive(Debug, PartialEq, Eq)]
pub enum TsFnOrConstructorType {
    TsFnType(TsFnType),
    TsConstructorType(TsConstructorType),
}

#[derive(Debug, PartialEq, Eq)]
pub struct TsKeywordType {
    pub span: Span,
    pub kind: TsKeywordTypeKind,
}

#[derive(Debug, PartialEq, Eq)]
pub struct TsThisType {
    pub span: Span,
}

#[derive(Debug, PartialEq, Eq)]
pub enum TsFnParam {
    Ident(BindingIdent),
    Array(ArrayPat),
    Rest(RestPat),
    Object(ObjectPat),
}

#[derive(Debug, PartialEq, Eq)]
pub struct TsFnType {
    pub span: Span,
    pub params: Vec<TsFnParam>,
    pub type_params: Option<Box<TsTypeParamDecl>>,
    pub type_ann: Box<TsTypeAnn>,
}

#[derive(Debug, PartialEq, Eq)]
pub struct TsConstructorType {
    pub span: Span,
    pub params: Vec<TsFnParam>,
    pub type_params: Option<Box<TsTypeParamDecl>>,
    pub type_ann: Box<TsTypeAnn>,
    pub is_abstract: bool,
}

#[derive(Debug, PartialEq, Eq)]
pub struct TsTypeRef {
    pub span: Span,
    pub type_ref_name: TsEntityName,
    pub type_params: Option<Box<TsTypeParamInstantiation>>,
}

#[derive(Debug, PartialEq, Eq)]
pub struct TsTypePredicate {
    pub span: Span,
    pub asserts: bool,
    pub param_name: TsThisTypeOrIdent,
    pub type_ann: Option<Box<TsTypeAnn>>,
}

#[derive(Debug, PartialEq, Eq)]
pub enum TsThisTypeOrIdent {
    TsThisType(TsThisType),
    Ident(Ident),
}

#[derive(Debug, PartialEq, Eq)]
pub struct TsTypeQuery {
    pub span: Span,
    pub expr_name: TsTypeQueryExpr,
    pub type_args: Option<Box<TsTypeParamInstantiation>>,
}

#[derive(Debug, PartialEq, Eq)]
pub enum TsTypeQueryExpr {
    TsEntityName(TsEntityName),
    Import(TsImportType),
}

#[derive(Debug, PartialEq, Eq)]
pub struct TsImportCallOptions {
    pub span: Span,
    pub with: Box<ObjectLit>,
}

#[derive(Debug, PartialEq, Eq)]
pub struct TsImportType {
    pub span: Span,
    pub arg: Str,
    pub qualifier: Option<TsEntityName>,
    pub type_args: Option<Box<TsTypeParamInstantiation>>,
    pub attributes: Option<TsImportCallOptions>,
}

#[derive(Debug, PartialEq, Eq)]
pub struct TsTypeLit {
    pub span: Span,
    pub members: Vec<TsTypeElement>,
}

#[derive(Debug, PartialEq, Eq)]
pub struct TsArrayType {
    pub span: Span,
    pub elem_type: Box<TsType>,
}

#[derive(Debug, PartialEq, Eq)]
pub struct TsTupleType {
    pub span: Span,
    pub elem_types: Vec<TsTupleElement>,
}

#[derive(Debug, PartialEq, Eq)]
pub struct TsTupleElement {
    pub span: Span,
    pub label: Option<Pat>,
    pub ty: Box<TsType>,
}

#[derive(Debug, PartialEq, Eq)]
pub struct TsOptionalType {
    pub span: Span,
    pub type_ann: Box<TsType>,
}

#[derive(Debug, PartialEq, Eq)]
pub struct TsRestType {
    pub span: Span,
    pub type_ann: Box<TsType>,
}

#[derive(Debug, PartialEq, Eq)]
pub enum TsUnionOrIntersectionType {
    TsUnionType(TsUnionType),
    TsIntersectionType(TsIntersectionType),
}

#[derive(Debug, PartialEq, Eq)]
pub struct TsUnionType {
    pub span: Span,
    pub types: Vec<Box<TsType>>,
}

#[derive(Debug, PartialEq, Eq)]
pub struct TsIntersectionType {
    pub span: Span,
    pub types: Vec<Box<TsType>>,
}

#[derive(Debug, PartialEq, Eq)]
pub struct TsConditionalType {
    pub span: Span,
    pub check_type: Box<TsType>,
    pub extends_type: Box<TsType>,
    pub true_type: Box<TsType>,
    pub false_type: Box<TsType>,
}

#[derive(Debug, PartialEq, Eq)]
pub struct TsInferType {
    pub span: Span,
    pub type_param: TsTypeParam,
}

#[derive(Debug, PartialEq, Eq)]
pub struct TsParenthesizedType {
    pub span: Span,
    pub type_ann: Box<TsType>,
}

#[derive(Debug, PartialEq, Eq)]
pub struct TsTypeOperator {
    pub span: Span,
    pub op: TsTypeOperatorOp,
    pub type_ann: Box<TsType>,
}

#[derive(Debug, PartialEq, Eq)]
pub struct TsIndexedAccessType {
    pub span: Span,
    pub readonly: bool,
    pub obj_type: Box<TsType>,
    pub index_type: Box<TsType>,
}

#[derive(Debug, PartialEq, Eq)]
pub struct TsMappedType {
    pub span: Span,
    pub readonly: Option<TruePlusMinus>,
    pub type_param: TsTypeParam,
    pub name_type: Option<Box<TsType>>,
    pub optional: Option<TruePlusMinus>,
    pub type_ann: Option<Box<TsType>>,
}

#[derive(Debug, PartialEq, Eq)]
pub struct TsLitType {
    pub span: Span,
    pub lit: TsLit,
}

#[derive(Debug, PartialEq, Eq)]
pub enum TsLit {
    Number(Number),
    Str(Str),
    Bool(Bool),
    BigInt(BigInt),
    Tpl(TsTplLitType),
}

#[derive(Debug, PartialEq, Eq)]
pub struct TsTplLitType {
    pub span: Span,
    pub types: Vec<Box<TsType>>,
    pub quasis: Vec<TplElement>,
}

#[derive(Debug, PartialEq, Eq)]
pub struct TsInterfaceDecl {
    pub span: Span,
    pub id: Ident,
    pub declare: bool,
    pub type_params: Option<Box<TsTypeParamDecl>>,
    pub extends: Vec<TsExprWithTypeArgs>,
    pub body: TsInterfaceBody,
}

#[derive(Debug, PartialEq, Eq)]
pub struct TsInterfaceBody {
    pub span: Span,
    pub body: Vec<TsTypeElement>,
}

#[derive(Debug, PartialEq, Eq)]
pub struct TsExprWithTypeArgs {
    pub span: Span,
    pub expr: Box<Expr>,
    pub type_args: Option<Box<TsTypeParamInstantiation>>,
}

#[derive(Debug, PartialEq, Eq)]
pub struct TsTypeAliasDecl {
    pub span: Span,
    pub declare: bool,
    pub id: Ident,
    pub type_params: Option<Box<TsTypeParamDecl>>,
    pub type_ann: Box<TsType>,
}

#[derive(Debug, PartialEq, Eq)]
pub struct TsEnumDecl {
    pub span: Span,
    pub declare: bool,
    pub is_const: bool,
    pub id: Ident,
    pub members: Vec<TsEnumMember>,
}

#[derive(Debug, PartialEq, Eq)]
pub struct TsEnumMember {
    pub span: Span,
    pub id: TsEnumMemberId,
    pub init: Option<Box<Expr>>,
}

#[derive(Debug, PartialEq, Eq)]
pub enum TsEnumMemberId {
    Ident(Ident),
    Str(Str),
}

#[derive(Debug, PartialEq, Eq)]
pub struct TsModuleDecl {
    pub span: Span,
    pub declare: bool,
    pub global: bool,
    pub namespace: bool,
    pub id: TsModuleName,
    pub body: Option<TsNamespaceBody>,
}

#[derive(Debug, PartialEq, Eq)]
pub enum TsNamespaceBody {
    TsModuleBlock(TsModuleBlock),
    TsNamespaceDecl(TsNamespaceDecl),
}

#[derive(Debug, PartialEq, Eq)]
pub struct TsModuleBlock {
    pub span: Span,
    pub body: Vec<ModuleItem>,
}

#[derive(Debug, PartialEq, Eq)]
pub struct TsNamespaceDecl {
    pub span: Span,
    pub declare: bool,
    pub global: bool,
    pub id: Ident,
    pub body: Box<TsNamespaceBody>,
}

#[derive(Debug, PartialEq, Eq)]
pub enum TsModuleName {
    Ident(Ident),
    Str(Str),
}

#[derive(Debug, PartialEq, Eq)]
pub struct TsImportEqualsDecl {
    pub span: Span,
    pub is_export: bool,
    pub is_type_only: bool,
    pub id: Ident,
    pub module_ref: TsModuleRef,
}

#[derive(Debug, PartialEq, Eq)]
pub enum TsModuleRef {
    TsEntityName(TsEntityName),
    TsExternalModuleRef(TsExternalModuleRef),
}

#[derive(Debug, PartialEq, Eq)]
pub struct TsExternalModuleRef {
    pub span: Span,
    pub expr: Str,
}

#[derive(Debug, PartialEq, Eq)]
pub struct TsExportAssignment {
    pub span: Span,
    pub expr: Box<Expr>,
}

#[derive(Debug, PartialEq, Eq)]
pub struct TsNamespaceExportDecl {
    pub span: Span,
    pub id: Ident,
}

#[derive(Debug, PartialEq, Eq)]
pub struct TsAsExpr {
    pub span: Span,
    pub expr: Box<Expr>,
    pub type_ann: Box<TsType>,
}

#[derive(Debug, PartialEq, Eq)]
pub struct TsTypeAssertion {
    pub span: Span,
    pub expr: Box<Expr>,
    pub type_ann: Box<TsType>,
}

#[derive(Debug, PartialEq, Eq)]
pub struct TsNonNullExpr {
    pub span: Span,
    pub expr: Box<Expr>,
}

#[derive(Debug, PartialEq, Eq)]
pub struct TsSatisfiesExpr {
    pub span: Span,
    pub expr: Box<Expr>,
    pub type_ann: Box<TsType>,
}

#[derive(Debug, PartialEq, Eq)]
pub struct TsConstAssertion {
    pub span: Span,
    pub expr: Box<Expr>,
}

#[derive(Debug, PartialEq, Eq)]
pub struct TsInstantiation {
    pub span: Span,
    pub expr: Box<Expr>,
    pub type_args: Box<TsTypeParamInstantiation>,
}


impl TsTypeAnn {
    /// `self` and `other` are the same tree: equal leaves, and lists of
    /// the same length whose items are the same trees, in order.
    pub open spec fn same_as(self, other: Self) -> bool
        decreases self,
    {
        &&& self.span == other.span
        &&& (*self.type_ann).same_as((*other.type_ann))
    }

    /// Every tree is the same as itself.
    pub proof fn lemma_same_as_reflexive(&self)
        ensures
            self.same_as(*self),
        decreases self,
    {
        self.type_ann.lemma_same_as_reflexive();
    }
}

impl Clone for TsTypeAnn {
    fn clone(&self) -> (r: Self)
        ensures
            self.same_as(r),
        decreases self,
    {
        TsTypeAnn { span: self.span, type_ann: Box::new((*self.type_ann).clone()) }
    }
}

impl TsThisParam {
    /// `self` and `other` are the same tree: equal leaves, and lists of
    /// the same length whose items are the same trees, in order.
    pub open spec fn same_as(self, other: Self) -> bool
        decreases self,
    {
        &&& self.span == other.span
        &&& self.this_span == other.this_span
        &&& (match self.type_ann { None => other.type_ann is None, Some(x0) => other.type_ann is Some && (*x0).same_as((*other.type_ann->Some_0)) })
    }

    /// Every tree is the same as itself.
    pub proof fn lemma_same_as_reflexive(&self)
        ensures
            self.same_as(*self),
        decreases self,
    {
        if let Some(x0) = &self.type_ann {
            x0.lemma_same_as_reflexive();
        }
    }
}

impl Clone for TsThisParam {
    fn clone(&self) -> (r: Self)
        ensures
            self.same_as(r),
        decreases self,
    {
        let type_ann = match &self.type_ann {
            None => None,
            Some(x) => Some(Box::new((**x).clone())),
        };
        TsThisParam { span: self.span, this_span: self.this_span, type_ann }
    }
}

impl TsTypeParamDecl {
    /// `self` and `other` are the same tree: equal leaves, and lists of
    /// the same length whose items are the same trees, in order.
    pub open spec fn same_as(self, other: Self) -> bool
        decreases self,
    {
        &&& self.span == other.span
        &&& (self.params@.len() == other.params@.len() && forall|i0: int| #![trigger self.params@[i0]] 0 <= i0 < self.params@.len() ==> self.params@[i0].same_as(other.params@[i0]))
    }

    /// Every tree is the same as itself.
    pub proof fn lemma_same_as_reflexive(&self)
        ensures
            self.same_as(*self),
        decreases self,
    {
        assert forall|i0: int| #![trigger self.params@[i0]] 0 <= i0 < self.params@.len() implies self.params@[i0].same_as(self.params@[i0]) by {
            assert(decreases_to!(self => self.params));
            assert(decreases_to!(self.params => self.params@));
            assert(decreases_to!(self.params@ => self.params@[i0]));
            self.params@[i0].lemma_same_as_reflexive();
        }
    }
}

impl Clone for TsTypeParamDecl {
    fn clone(&self) -> (r: Self)
        ensures
            self.same_as(r),
        decreases self,
    {
        let mut params: Vec<TsTypeParam> = Vec::new();
        let mut i: usize = 0;
        while i < self.params.len()
            invariant
                i <= self.params@.len(),
                params@.len() == i,
                forall|j: int| #![trigger params@[j]] 0 <= j < i ==> self.params@[j].same_as(params@[j]),
            decreases self.params@.len() - i,
        {
            proof {
                assert(decreases_to!(self => self.params));
                assert(decreases_to!(self.params => self.params@));
                assert(decreases_to!(self.params@ => self.params@[i as int]));
            }
            params.push(self.params[i].clone());
            i += 1;
        }
        TsTypeParamDecl { span: self.span, params }
    }
}

impl TsTypeParam {
    /// `self` and `other` are the same tree: equal leaves, and lists of
    /// the same length whose items are the same trees, in order.
    pub open spec fn same_as(self, other: Self) -> bool
        decreases self,
    {
        &&& self.span == other.span
        &&& self.name == other.name
        &&& self.is_in == other.is_in
        &&& self.is_out == other.is_out
        &&& self.is_const == other.is_const
        &&& (match self.constraint { None => other.constraint is None, Some(x0) => other.constraint is Some && (*x0).same_as((*other.constraint->Some_0)) })
        &&& (match self.default { None => other.default is None, Some(x0) => other.default is Some && (*x0).same_as((*other.default->Some_0)) })
    }

    /// Every tree is the same as itself.
    pub proof fn lemma_same_as_reflexive(&self)
        ensures
            self.same_as(*self),
        decreases self,
    {
        if let Some(x0) = &self.constraint {
            x0.lemma_same_as_reflexive();
        }
        if let Some(x0) = &self.default {
            x0.lemma_same_as_reflexive();
        }
    }
}

impl Clone for TsTypeParam {
    fn clone(&self) -> (r: Self)
        ensures
            self.same_as(r),
        decreases self,
    {
        let constraint = match &self.constraint {
            None => None,
            Some(x) => Some(Box::new((**x).clone())),
        };
        let default = match &self.default {
            None => None,
            Some(x) => Some(Box::new((**x).clone())),
        };
        TsTypeParam {
            span: self.span,
            name: self.name.clone(),
            is_in: self.is_in,
            is_out: self.is_out,
            is_const: self.is_const,
            constraint,
            default,
        }
    }
}

impl TsTypeParamInstantiation {
    /// `self` and `other` are the same tree: equal leaves, and lists of
    /// the same length whose items are the same trees, in order.
    pub open spec fn same_as(self, other: Self) -> bool
        decreases self,
    {
        &&& self.span == other.span
        &&& (self.params@.len() == other.params@.len() && forall|i0: int| #![trigger self.params@[i0]] 0 <= i0 < self.params@.len() ==> (*self.params@[i0]).same_as((*other.params@[i0])))
    }

    /// Every tree is the same as itself.
    pub proof fn lemma_same_as_reflexive(&self)
        ensures
            self.same_as(*self),
        decreases self,
    {
        assert forall|i0: int| #![trigger self.params@[i0]] 0 <= i0 < self.params@.len() implies (*self.params@[i0]).same_as((*self.params@[i0])) by {
            assert(decreases_to!(self => self.params));
            assert(decreases_to!(self.params => self.params@));
            assert(decreases_to!(self.params@ => self.params@[i0]));
            self.params@[i0].lemma_same_as_reflexive();
        }
    }
}

impl Clone for TsTypeParamInstantiation {
    fn clone(&self) -> (r: Self)
        ensures
            self.same_as(r),
        decreases self,
    {
        let mut params: Vec<Box<TsType>> = Vec::new();
        let mut i: usize = 0;
        while i < self.params.len()
            invariant
                i <= self.params@.len(),
                params@.len() == i,
                forall|j: int| #![trigger params@[j]] 0 <= j < i ==> (*self.params@[j]).same_as((*params@[j])),
            decreases self.params@.len() - i,
        {
            proof {
                assert(decreases_to!(self => self.params));
                assert(decreases_to!(self.params => self.params@));
                assert(decreases_to!(self.params@ => self.params@[i as int]));
            }
            params.push(Box::new((*self.params[i]).clone()));
            i += 1;
        }
        TsTypeParamInstantiation { span: self.span, params }
    }
}

impl TsParamProp {
    /// `self` and `other` are the same tree: equal leaves, and lists of
    /// the same length whose items are the same trees, in order.
    pub open spec fn same_as(self, other: Self) -> bool
        decreases self,
    {
        &&& self.span == other.span
        &&& (self.decorators@.len() == other.decorators@.len() && forall|i0: int| #![trigger self.decorators@[i0]] 0 <= i0 < self.decorators@.len() ==> self.decorators@[i0].same_as(other.decorators@[i0]))
        &&& self.accessibility == other.accessibility
        &&& self.is_override == other.is_override
        &&& self.readonly == other.readonly
        &&& self.param.same_as(other.param)
    }

    /// Every tree is the same as itself.
    pub proof fn lemma_same_as_reflexive(&self)
        ensures
            self.same_as(*self),
        decreases self,
    {
        assert forall|i0: int| #![trigger self.decorators@[i0]] 0 <= i0 < self.decorators@.len() implies self.decorators@[i0].same_as(self.decorators@[i0]) by {
            assert(decreases_to!(self => self.decorators));
            assert(decreases_to!(self.decorators => self.decorators@));
            assert(decreases_to!(self.decorators@ => self.decorators@[i0]));
            self.decorators@[i0].lemma_same_as_reflexive();
        }
        self.param.lemma_same_as_reflexive();
    }
}

impl Clone for TsParamProp {
    fn clone(&self) -> (r: Self)
        ensures
            self.same_as(r),
        decreases self,
    {
        let mut decorators: Vec<Decorator> = Vec::new();
        let mut i: usize = 0;
        while i < self.decorators.len()
            invariant
                i <= self.decorators@.len(),
                decorators@.len() == i,
                forall|j: int| #![trigger decorators@[j]] 0 <= j < i ==> self.decorators@[j].same_as(decorators@[j]),
            decreases self.decorators@.len() - i,
        {
            proof {
                assert(decreases_to!(self => self.decorators));
                assert(decreases_to!(self.decorators => self.decorators@));
                assert(decreases_to!(self.decorators@ => self.decorators@[i as int]));
            }
            decorators.push(self.decorators[i].clone());
            i += 1;
        }
        TsParamProp {
            span: self.span,
            decorators,
            accessibility: self.accessibility,
            is_override: self.is_override,
            readonly: self.readonly,
            param: self.param.clone(),
        }
    }
}

impl TsParamPropParam {
    /// `self` and `other` are the same tree: equal leaves, and lists of
    /// the same length whose items are the same trees, in order.
    pub open spec fn same_as(self, other: Self) -> bool
        decreases self,
    {
        match self {
            TsParamPropParam::Ident(x) => other is Ident && x.same_as(other->Ident_0),
            TsParamPropParam::Assign(x) => other is Assign && x.same_as(other->Assign_0),
        }
    }

    /// Every tree is the same as itself.
    pub proof fn lemma_same_as_reflexive(&self)
        ensures
            self.same_as(*self),
        decreases self,
    {
        match self {
            TsParamPropParam::Ident(x) => {
                x.lemma_same_as_reflexive();
            },
            TsParamPropParam::Assign(x) => {
                x.lemma_same_as_reflexive();
            },
        }
    }
}

impl Clone for TsParamPropParam {
    fn clone(&self) -> (r: Self)
        ensures
            self.same_as(r),
        decreases self,
    {
        match self {
            TsParamPropParam::Ident(x) => TsParamPropParam::Ident(x.clone()),
            TsParamPropParam::Assign(x) => TsParamPropParam::Assign(x.clone()),
        }
    }
}

impl Clone for TsQualifiedName {
    fn clone(&self) -> (r: Self)
        ensures
            r == *self,
        decreases self,
    {
        TsQualifiedName { span: self.span, left: self.left.clone(), right: self.right.clone() }
    }
}

impl Clone for TsEntityName {
    fn clone(&self) -> (r: Self)
        ensures
            r == *self,
        decreases self,
    {
        match self {
            TsEntityName::TsQualifiedName(x) => TsEntityName::TsQualifiedName(Box::new((**x).clone())),
            TsEntityName::Ident(x) => TsEntityName::Ident(x.clone()),
        }
    }
}

impl TsTypeElement {
    /// `self` and `other` are the same tree: equal leaves, and lists of
    /// the same length whose items are the same trees, in order.
    pub open spec fn same_as(self, other: Self) -> bool
        decreases self,
    {
        match self {
            TsTypeElement::TsCallSignatureDecl(x) => other is TsCallSignatureDecl && x.same_as(other->TsCallSignatureDecl_0),
            TsTypeElement::TsConstructSignatureDecl(x) => other is TsConstructSignatureDecl && x.same_as(other->TsConstructSignatureDecl_0),
            TsTypeElement::TsPropertySignature(x) => other is TsPropertySignature && x.same_as(other->TsPropertySignature_0),
            TsTypeElement::TsGetterSignature(x) => other is TsGetterSignature && x.same_as(other->TsGetterSignature_0),
            TsTypeElement::TsSetterSignature(x) => other is TsSetterSignature && x.same_as(other->TsSetterSignature_0),
            TsTypeElement::TsMethodSignature(x) => other is TsMethodSignature && x.same_as(other->TsMethodSignature_0),
            TsTypeElement::TsIndexSignature(x) => other is TsIndexSignature && x.same_as(other->TsIndexSignature_0),
        }
    }

    /// Every tree is the same as itself.
    pub proof fn lemma_same_as_reflexive(&self)
        ensures
            self.same_as(*self),
        decreases self,
    {
        match self {
            TsTypeElement::TsCallSignatureDecl(x) => {
                x.lemma_same_as_reflexive();
            },
            TsTypeElement::TsConstructSignatureDecl(x) => {
                x.lemma_same_as_reflexive();
            },
            TsTypeElement::TsPropertySignature(x) => {
                x.lemma_same_as_reflexive();
            },
            TsTypeElement::TsGetterSignature(x) => {
                x.lemma_same_as_reflexive();
            },
            TsTypeElement::TsSetterSignature(x) => {
                x.lemma_same_as_reflexive();
            },
            TsTypeElement::TsMethodSignature(x) => {
                x.lemma_same_as_reflexive();
            },
            TsTypeElement::TsIndexSignature(x) => {
                x.lemma_same_as_reflexive();
            },
        }
    }
}

impl Clone for TsTypeElement {
    fn clone(&self) -> (r: Self)
        ensures
            self.same_as(r),
        decreases self,
    {
        match self {
            TsTypeElement::TsCallSignatureDecl(x) => TsTypeElement::TsCallSignatureDecl(x.clone()),
            TsTypeElement::TsConstructSignatureDecl(x) => TsTypeElement::TsConstructSignatureDecl(x.clone()),
            TsTypeElement::TsPropertySignature(x) => TsTypeElement::TsPropertySignature(x.clone()),
            TsTypeElement::TsGetterSignature(x) => TsTypeElement::TsGetterSignature(x.clone()),
            TsTypeElement::TsSetterSignature(x) => TsTypeElement::TsSetterSignature(x.clone()),
            TsTypeElement::TsMethodSignature(x) => TsTypeElement::TsMethodSignature(x.clone()),
            TsTypeElement::TsIndexSignature(x) => TsTypeElement::TsIndexSignature(x.clone()),
        }
    }
}

impl TsCallSignatureDecl {
    /// `self` and `other` are the same tree: equal leaves, and lists of
    /// the same length whose items are the same trees, in order.
    pub open spec fn same_as(self, other: Self) -> bool
        decreases self,
    {
        &&& self.span == other.span
        &&& (self.params@.len() == other.params@.len() && forall|i0: int| #![trigger self.params@[i0]] 0 <= i0 < self.params@.len() ==> self.params@[i0].same_as(other.params@[i0]))
        &&& (match self.type_ann { None => other.type_ann is None, Some(x0) => other.type_ann is Some && (*x0).same_as((*other.type_ann->Some_0)) })
        &&& (match self.type_params { None => other.type_params is None, Some(x0) => other.type_params is Some && (*x0).same_as((*other.type_params->Some_0)) })
    }

    /// Every tree is the same as itself.
    pub proof fn lemma_same_as_reflexive(&self)
        ensures
            self.same_as(*self),
        decreases self,
    {
        assert forall|i0: int| #![trigger self.params@[i0]] 0 <= i0 < self.params@.len() implies self.params@[i0].same_as(self.params@[i0]) by {
            assert(decreases_to!(self => self.params));
            assert(decreases_to!(self.params => self.params@));
            assert(decreases_to!(self.params@ => self.params@[i0]));
            self.params@[i0].lemma_same_as_reflexive();
        }
        if let Some(x0) = &self.type_ann {
            x0.lemma_same_as_reflexive();
        }
        if let Some(x0) = &self.type_params {
            x0.lemma_same_as_reflexive();
        }
    }
}

impl Clone for TsCallSignatureDecl {
    fn clone(&self) -> (r: Self)
        ensures
            self.same_as(r),
        decreases self,
    {
        let mut params: Vec<TsFnParam> = Vec::new();
        let mut i: usize = 0;
        while i < self.params.len()
            invariant
                i <= self.params@.len(),
                params@.len() == i,
                forall|j: int| #![trigger params@[j]] 0 <= j < i ==> self.params@[j].same_as(params@[j]),
            decreases self.params@.len() - i,
        {
            proof {
                assert(decreases_to!(self => self.params));
                assert(decreases_to!(self.params => self.params@));
                assert(decreases_to!(self.params@ => self.params@[i as int]));
            }
            params.push(self.params[i].clone());
            i += 1;
        }
        let type_ann = match &self.type_ann {
            None => None,
            Some(x) => Some(Box::new((**x).clone())),
        };
        let type_params = match &self.type_params {
            None => None,
            Some(x) => Some(Box::new((**x).clone())),
        };
        TsCallSignatureDecl { span: self.span, params, type_ann, type_params }
    }
}

impl TsConstructSignatureDecl {
    /// `self` and `other` are the same tree: equal leaves, and lists of
    /// the same length whose items are the same trees, in order.
    pub open spec fn same_as(self, other: Self) -> bool
        decreases self,
    {
        &&& self.span == other.span
        &&& (self.params@.len() == other.params@.len() && forall|i0: int| #![trigger self.params@[i0]] 0 <= i0 < self.params@.len() ==> self.params@[i0].same_as(other.params@[i0]))
        &&& (match self.type_ann { None => other.type_ann is None, Some(x0) => other.type_ann is Some && (*x0).same_as((*other.type_ann->Some_0)) })
        &&& (match self.type_params { None => other.type_params is None, Some(x0) => other.type_params is Some && (*x0).same_as((*other.type_params->Some_0)) })
    }

    /// Every tree is the same as itself.
    pub proof fn lemma_same_as_reflexive(&self)
        ensures
            self.same_as(*self),
        decreases self,
    {
        assert forall|i0: int| #![trigger self.params@[i0]] 0 <= i0 < self.params@.len() implies self.params@[i0].same_as(self.params@[i0]) by {
            assert(decreases_to!(self => self.params));
            assert(decreases_to!(self.params => self.params@));
            assert(decreases_to!(self.params@ => self.params@[i0]));
            self.params@[i0].lemma_same_as_reflexive();
        }
        if let Some(x0) = &self.type_ann {
            x0.lemma_same_as_reflexive();
        }
        if let Some(x0) = &self.type_params {
            x0.lemma_same_as_reflexive();
        }
    }
}

impl Clone for TsConstructSignatureDecl {
    fn clone(&self) -> (r: Self)
        ensures
            self.same_as(r),
        decreases self,
    {
        let mut params: Vec<TsFnParam> = Vec::new();
        let mut i: usize = 0;
        while i < self.params.len()
            invariant
                i <= self.params@.len(),
                params@.len() == i,
                forall|j: int| #![trigger params@[j]] 0 <= j < i ==> self.params@[j].same_as(params@[j]),
            decreases self.params@.len() - i,
        {
            proof {
                assert(decreases_to!(self => self.params));
                assert(decreases_to!(self.params => self.params@));
                assert(decreases_to!(self.params@ => self.params@[i as int]));
            }
            params.push(self.params[i].clone());
            i += 1;
        }
        let type_ann = match &self.type_ann {
            None => None,
            Some(x) => Some(Box::new((**x).clone())),
        };
        let type_params = match &self.type_params {
            None => None,
            Some(x) => Some(Box::new((**x).clone())),
        };
        TsConstructSignatureDecl { span: self.span, params, type_ann, type_params }
    }
}

impl TsPropertySignature {
    /// `self` and `other` are the same tree: equal leaves, and lists of
    /// the same length whose items are the same trees, in order.
    pub open spec fn same_as(self, other: Self) -> bool
        decreases self,
    {
        &&& self.span == other.span
        &&& self.readonly == other.readonly
        &&& (*self.key).same_as((*other.key))
        &&& self.computed == other.computed
        &&& self.optional == other.optional
        &&& (match self.type_ann { None => other.type_ann is None, Some(x0) => other.type_ann is Some && (*x0).same_as((*other.type_ann->Some_0)) })
    }

    /// Every tree is the same as itself.
    pub proof fn lemma_same_as_reflexive(&self)
        ensures
            self.same_as(*self),
        decreases self,
    {
        self.key.lemma_same_as_reflexive();
        if let Some(x0) = &self.type_ann {
            x0.lemma_same_as_reflexive();
        }
    }
}

impl Clone for TsPropertySignature {
    fn clone(&self) -> (r: Self)
        ensures
            self.same_as(r),
        decreases self,
    {
        let type_ann = match &self.type_ann {
            None => None,
            Some(x) => Some(Box::new((**x).clone())),
        };
        TsPropertySignature {
            span: self.span,
            readonly: self.readonly,
            key: Box::new((*self.key).clone()),
            computed: self.computed,
            optional: self.optional,
            type_ann,
        }
    }
}

impl TsGetterSignature {
    /// `self` and `other` are the same tree: equal leaves, and lists of
    /// the same length whose items are the same trees, in order.
    pub open spec fn same_as(self, other: Self) -> bool
        decreases self,
    {
        &&& self.span == other.span
        &&& (*self.key).same_as((*other.key))
        &&& self.computed == other.computed
        &&& (match self.type_ann { None => other.type_ann is None, Some(x0) => other.type_ann is Some && (*x0).same_as((*other.type_ann->Some_0)) })
    }

    /// Every tree is the same as itself.
    pub proof fn lemma_same_as_reflexive(&self)
        ensures
            self.same_as(*self),
        decreases self,
    {
        self.key.lemma_same_as_reflexive();
        if let Some(x0) = &self.type_ann {
            x0.lemma_same_as_reflexive();
        }
    }
}

impl Clone for TsGetterSignature {
    fn clone(&self) -> (r: Self)
        ensures
            self.same_as(r),
        decreases self,
    {
        let type_ann = match &self.type_ann {
            None => None,
            Some(x) => Some(Box::new((**x).clone())),
        };
        TsGetterSignature {
            span: self.span,
            key: Box::new((*self.key).clone()),
            computed: self.computed,
            type_ann,
        }
    }
}

impl TsSetterSignature {
    /// `self` and `other` are the same tree: equal leaves, and lists of
    /// the same length whose items are the same trees, in order.
    pub open spec fn same_as(self, other: Self) -> bool
        decreases self,
    {
        &&& self.span == other.span
        &&& (*self.key).same_as((*other.key))
        &&& self.computed == other.computed
        &&& self.param.same_as(other.param)
    }

    /// Every tree is the same as itself.
    pub proof fn lemma_same_as_reflexive(&self)
        ensures
            self.same_as(*self),
        decreases self,
    {
        self.key.lemma_same_as_reflexive();
        self.param.lemma_same_as_reflexive();
    }
}

impl Clone for TsSetterSignature {
    fn clone(&self) -> (r: Self)
        ensures
            self.same_as(r),
        decreases self,
    {
        TsSetterSignature {
            span: self.span,
            key: Box::new((*self.key).clone()),
            computed: self.computed,
            param: self.param.clone(),
        }
    }
}

impl TsMethodSignature {
    /// `self` and `other` are the same tree: equal leaves, and lists of
    /// the same length whose items are the same trees, in order.
    pub open spec fn same_as(self, other: Self) -> bool
        decreases self,
    {
        &&& self.span == other.span
        &&& (*self.key).same_as((*other.key))
        &&& self.computed == other.computed
        &&& self.optional == other.optional
        &&& (self.params@.len() == other.params@.len() && forall|i0: int| #![trigger self.params@[i0]] 0 <= i0 < self.params@.len() ==> self.params@[i0].same_as(other.params@[i0]))
        &&& (match self.type_ann { None => other.type_ann is None, Some(x0) => other.type_ann is Some && (*x0).same_as((*other.type_ann->Some_0)) })
        &&& (match self.type_params { None => other.type_params is None, Some(x0) => other.type_params is Some && (*x0).same_as((*other.type_params->Some_0)) })
    }

    /// Every tree is the same as itself.
    pub proof fn lemma_same_as_reflexive(&self)
        ensures
            self.same_as(*self),
        decreases self,
    {
        self.key.lemma_same_as_reflexive();
        assert forall|i0: int| #![trigger self.params@[i0]] 0 <= i0 < self.params@.len() implies self.params@[i0].same_as(self.params@[i0]) by {
            assert(decreases_to!(self => self.params));
            assert(decreases_to!(self.params => self.params@));
            assert(decreases_to!(self.params@ => self.params@[i0]));
            self.params@[i0].lemma_same_as_reflexive();
        }
        if let Some(x0) = &self.type_ann {
            x0.lemma_same_as_reflexive();
        }
        if let Some(x0) = &self.type_params {
            x0.lemma_same_as_reflexive();
        }
    }
}

impl Clone for TsMethodSignature {
    fn clone(&self) -> (r: Self)
        ensures
            self.same_as(r),
        decreases self,
    {
        let mut params: Vec<TsFnParam> = Vec::new();
        let mut i: usize = 0;
        while i < self.params.len()
            invariant
                i <= self.params@.len(),
                params@.len() == i,
                forall|j: int| #![trigger params@[j]] 0 <= j < i ==> self.params@[j].same_as(params@[j]),
            decreases self.params@.len() - i,
        {
            proof {
                assert(decreases_to!(self => self.params));
                assert(decreases_to!(self.params => self.params@));
                assert(decreases_to!(self.params@ => self.params@[i as int]));
            }
            params.push(self.params[i].clone());
            i += 1;
        }
        let type_ann = match &self.type_ann {
            None => None,
            Some(x) => Some(Box::new((**x).clone())),
        };
        let type_params = match &self.type_params {
            None => None,
            Some(x) => Some(Box::new((**x).clone())),
        };
        TsMethodSignature {
            span: self.span,
            key: Box::new((*self.key).clone()),
            computed: self.computed,
            optional: self.optional,
            params,
            type_ann,
            type_params,
        }
    }
}

impl TsIndexSignature {
    /// `self` and `other` are the same tree: equal leaves, and lists of
    /// the same length whose items are the same trees, in order.
    pub open spec fn same_as(self, other: Self) -> bool
        decreases self,
    {
        &&& (self.params@.len() == other.params@.len() && forall|i0: int| #![trigger self.params@[i0]] 0 <= i0 < self.params@.len() ==> self.params@[i0].same_as(other.params@[i0]))
        &&& (match self.type_ann { None => other.type_ann is None, Some(x0) => other.type_ann is Some && (*x0).same_as((*other.type_ann->Some_0)) })
        &&& self.readonly == other.readonly
        &&& self.is_static == other.is_static
        &&& self.span == other.span
    }

    /// Every tree is the same as itself.
    pub proof fn lemma_same_as_reflexive(&self)
        ensures
            self.same_as(*self),
        decreases self,
    {
        assert forall|i0: int| #![trigger self.params@[i0]] 0 <= i0 < self.params@.len() implies self.params@[i0].same_as(self.params@[i0]) by {
            assert(decreases_to!(self => self.params));
            assert(decreases_to!(self.params => self.params@));
            assert(decreases_to!(self.params@ => self.params@[i0]));
            self.params@[i0].lemma_same_as_reflexive();
        }
        if let Some(x0) = &self.type_ann {
            x0.lemma_same_as_reflexive();
        }
    }
}

impl Clone for TsIndexSignature {
    fn clone(&self) -> (r: Self)
        ensures
            self.same_as(r),
        decreases self,
    {
        let mut params: Vec<TsFnParam> = Vec::new();
        let mut i: usize = 0;
        while i < self.params.len()
            invariant
                i <= self.params@.len(),
                params@.len() == i,
                forall|j: int| #![trigger params@[j]] 0 <= j < i ==> self.params@[j].same_as(params@[j]),
            decreases self.params@.len() - i,
        {
            proof {
                assert(decreases_to!(self => self.params));
                assert(decreases_to!(self.params => self.params@));
                assert(decreases_to!(self.params@ => self.params@[i as int]));
            }
            params.push(self.params[i].clone());
            i += 1;
        }
        let type_ann = match &self.type_ann {
            None => None,
            Some(x) => Some(Box::new((**x).clone())),
        };
        TsIndexSignature {
            params,
            type_ann,
            readonly: self.readonly,
            is_static: self.is_static,
            span: self.span,
        }
    }
}

impl TsType {
    /// `self` and `other` are the same tree: equal leaves, and lists of
    /// the same length whose items are the same trees, in order.
    pub open spec fn same_as(self, other: Self) -> bool
        decreases self,
    {
        match self {
            TsType::TsKeywordType(x) => other is TsKeywordType && x == other->TsKeywordType_0,
            TsType::TsThisType(x) => other is TsThisType && x == other->TsThisType_0,
            TsType::TsFnOrConstructorType(x) => other is TsFnOrConstructorType && x.same_as(other->TsFnOrConstructorType_0),
            TsType::TsTypeRef(x) => other is TsTypeRef && x.same_as(other->TsTypeRef_0),
            TsType::TsTypeQuery(x) => other is TsTypeQuery && x.same_as(other->TsTypeQuery_0),
            TsType::TsTypeLit(x) => other is TsTypeLit && x.same_as(other->TsTypeLit_0),
            TsType::TsArrayType(x) => other is TsArrayType && x.same_as(other->TsArrayType_0),
            TsType::TsTupleType(x) => other is TsTupleType && x.same_as(other->TsTupleType_0),
            TsType::TsOptionalType(x) => other is TsOptionalType && x.same_as(other->TsOptionalType_0),
            TsType::TsRestType(x) => other is TsRestType && x.same_as(other->TsRestType_0),
            TsType::TsUnionOrIntersectionType(x) => other is TsUnionOrIntersectionType && x.same_as(other->TsUnionOrIntersectionType_0),
            TsType::TsConditionalType(x) => other is TsConditionalType && x.same_as(other->TsConditionalType_0),
            TsType::TsInferType(x) => other is TsInferType && x.same_as(other->TsInferType_0),
            TsType::TsParenthesizedType(x) => other is TsParenthesizedType && x.same_as(other->TsParenthesizedType_0),
            TsType::TsTypeOperator(x) => other is TsTypeOperator && x.same_as(other->TsTypeOperator_0),
            TsType::TsIndexedAccessType(x) => other is TsIndexedAccessType && x.same_as(other->TsIndexedAccessType_0),
            TsType::TsMappedType(x) => other is TsMappedType && x.same_as(other->TsMappedType_0),
            TsType::TsLitType(x) => other is TsLitType && x.same_as(other->TsLitType_0),
            TsType::TsTypePredicate(x) => other is TsTypePredicate && x.same_as(other->TsTypePredicate_0),
            TsType::TsImportType(x) => other is TsImportType && x.same_as(other->TsImportType_0),
        }
    }

    /// Every tree is the same as itself.
    pub proof fn lemma_same_as_reflexive(&self)
        ensures
            self.same_as(*self),
        decreases self,
    {
        match self {
            TsType::TsKeywordType(x) => {
            },
            TsType::TsThisType(x) => {
            },
            TsType::TsFnOrConstructorType(x) => {
                x.lemma_same_as_reflexive();
            },
            TsType::TsTypeRef(x) => {
                x.lemma_same_as_reflexive();
            },
            TsType::TsTypeQuery(x) => {
                x.lemma_same_as_reflexive();
            },
            TsType::TsTypeLit(x) => {
                x.lemma_same_as_reflexive();
            },
            TsType::TsArrayType(x) => {
                x.lemma_same_as_reflexive();
            },
            TsType::TsTupleType(x) => {
                x.lemma_same_as_reflexive();
            },
            TsType::TsOptionalType(x) => {
                x.lemma_same_as_reflexive();
            },
            TsType::TsRestType(x) => {
                x.lemma_same_as_reflexive();
            },
            TsType::TsUnionOrIntersectionType(x) => {
                x.lemma_same_as_reflexive();
            },
            TsType::TsConditionalType(x) => {
                x.lemma_same_as_reflexive();
            },
            TsType::TsInferType(x) => {
                x.lemma_same_as_reflexive();
            },
            TsType::TsParenthesizedType(x) => {
                x.lemma_same_as_reflexive();
            },
            TsType::TsTypeOperator(x) => {
                x.lemma_same_as_reflexive();
            },
            TsType::TsIndexedAccessType(x) => {
                x.lemma_same_as_reflexive();
            },
            TsType::TsMappedType(x) => {
                x.lemma_same_as_reflexive();
            },
            TsType::TsLitType(x) => {
                x.lemma_same_as_reflexive();
            },
            TsType::TsTypePredicate(x) => {
                x.lemma_same_as_reflexive();
            },
            TsType::TsImportType(x) => {
                x.lemma_same_as_reflexive();
            },
        }
    }
}

impl Clone for TsType {
    fn clone(&self) -> (r: Self)
        ensures
            self.same_as(r),
        decreases self,
    {
        match self {
            TsType::TsKeywordType(x) => TsType::TsKeywordType(x.clone()),
            TsType::TsThisType(x) => TsType::TsThisType(x.clone()),
            TsType::TsFnOrConstructorType(x) => TsType::TsFnOrConstructorType(x.clone()),
            TsType::TsTypeRef(x) => TsType::TsTypeRef(x.clone()),
            TsType::TsTypeQuery(x) => TsType::TsTypeQuery(x.clone()),
            TsType::TsTypeLit(x) => TsType::TsTypeLit(x.clone()),
            TsType::TsArrayType(x) => TsType::TsArrayType(x.clone()),
            TsType::TsTupleType(x) => TsType::TsTupleType(x.clone()),
            TsType::TsOptionalType(x) => TsType::TsOptionalType(x.clone()),
            TsType::TsRestType(x) => TsType::TsRestType(x.clone()),
            TsType::TsUnionOrIntersectionType(x) => TsType::TsUnionOrIntersectionType(x.clone()),
            TsType::TsConditionalType(x) => TsType::TsConditionalType(x.clone()),
            TsType::TsInferType(x) => TsType::TsInferType(x.clone()),
            TsType::TsParenthesizedType(x) => TsType::TsParenthesizedType(x.clone()),
            TsType::TsTypeOperator(x) => TsType::TsTypeOperator(x.clone()),
            TsType::TsIndexedAccessType(x) => TsType::TsIndexedAccessType(x.clone()),
            TsType::TsMappedType(x) => TsType::TsMappedType(x.clone()),
            TsType::TsLitType(x) => TsType::TsLitType(x.clone()),
            TsType::TsTypePredicate(x) => TsType::TsTypePredicate(x.clone()),
            TsType::TsImportType(x) => TsType::TsImportType(x.clone()),
        }
    }
}

impl TsFnOrConstructorType {
    /// `self` and `other` are the same tree: equal leaves, and lists of
    /// the same length whose items are the same trees, in order.
    pub open spec fn same_as(self, other: Self) -> bool
        decreases self,
    {
        match self {
            TsFnOrConstructorType::TsFnType(x) => other is TsFnType && x.same_as(other->TsFnType_0),
            TsFnOrConstructorType::TsConstructorType(x) => other is TsConstructorType && x.same_as(other->TsConstructorType_0),
        }
    }

    /// Every tree is the same as itself.
    pub proof fn lemma_same_as_reflexive(&self)
        ensures
            self.same_as(*self),
        decreases self,
    {
        match self {
            TsFnOrConstructorType::TsFnType(x) => {
                x.lemma_same_as_reflexive();
            },
            TsFnOrConstructorType::TsConstructorType(x) => {
                x.lemma_same_as_reflexive();
            },
        }
    }
}

impl Clone for TsFnOrConstructorType {
    fn clone(&self) -> (r: Self)
        ensures
            self.same_as(r),
        decreases self,
    {
        match self {
            TsFnOrConstructorType::TsFnType(x) => TsFnOrConstructorType::TsFnType(x.clone()),
            TsFnOrConstructorType::TsConstructorType(x) => TsFnOrConstructorType::TsConstructorType(x.clone()),
        }
    }
}

impl Clone for TsKeywordType {
    fn clone(&self) -> (r: Self)
        ensures
            r == *self,
        decreases self,
    {
        TsKeywordType { span: self.span, kind: self.kind }
    }
}

impl Clone for TsThisType {
    fn clone(&self) -> (r: Self)
        ensures
            r == *self,
        decreases self,
    {
        TsThisType { span: self.span }
    }
}

impl TsFnParam {
    /// `self` and `other` are the same tree: equal leaves, and lists of
    /// the same length whose items are the same trees, in order.
    pub open spec fn same_as(self, other: Self) -> bool
        decreases self,
    {
        match self {
            TsFnParam::Ident(x) => other is Ident && x.same_as(other->Ident_0),
            TsFnParam::Array(x) => other is Array && x.same_as(other->Array_0),
            TsFnParam::Rest(x) => other is Rest && x.same_as(other->Rest_0),
            TsFnParam::Object(x) => other is Object && x.same_as(other->Object_0),
        }
    }

    /// Every tree is the same as itself.
    pub proof fn lemma_same_as_reflexive(&self)
        ensures
            self.same_as(*self),
        decreases self,
    {
        match self {
            TsFnParam::Ident(x) => {
                x.lemma_same_as_reflexive();
            },
            TsFnParam::Array(x) => {
                x.lemma_same_as_reflexive();
            },
            TsFnParam::Rest(x) => {
                x.lemma_same_as_reflexive();
            },
            TsFnParam::Object(x) => {
                x.lemma_same_as_reflexive();
            },
        }
    }
}

impl Clone for TsFnParam {
    fn clone(&self) -> (r: Self)
        ensures
            self.same_as(r),
        decreases self,
    {
        match self {
            TsFnParam::Ident(x) => TsFnParam::Ident(x.clone()),
            TsFnParam::Array(x) => TsFnParam::Array(x.clone()),
            TsFnParam::Rest(x) => TsFnParam::Rest(x.clone()),
            TsFnParam::Object(x) => TsFnParam::Object(x.clone()),
        }
    }
}

impl TsFnType {
    /// `self` and `other` are the same tree: equal leaves, and lists of
    /// the same length whose items are the same trees, in order.
    pub open spec fn same_as(self, other: Self) -> bool
        decreases self,
    {
        &&& self.span == other.span
        &&& (self.params@.len() == other.params@.len() && forall|i0: int| #![trigger self.params@[i0]] 0 <= i0 < self.params@.len() ==> self.params@[i0].same_as(other.params@[i0]))
        &&& (match self.type_params { None => other.type_params is None, Some(x0) => other.type_params is Some && (*x0).same_as((*other.type_params->Some_0)) })
        &&& (*self.type_ann).same_as((*other.type_ann))
    }

    /// Every tree is the same as itself.
    pub proof fn lemma_same_as_reflexive(&self)
        ensures
            self.same_as(*self),
        decreases self,
    {
        assert forall|i0: int| #![trigger self.params@[i0]] 0 <= i0 < self.params@.len() implies self.params@[i0].same_as(self.params@[i0]) by {
            assert(decreases_to!(self => self.params));
            assert(decreases_to!(self.params => self.params@));
            assert(decreases_to!(self.params@ => self.params@[i0]));
            self.params@[i0].lemma_same_as_reflexive();
        }
        if let Some(x0) = &self.type_params {
            x0.lemma_same_as_reflexive();
        }
        self.type_ann.lemma_same_as_reflexive();
    }
}

impl Clone for TsFnType {
    fn clone(&self) -> (r: Self)
        ensures
            self.same_as(r),
        decreases self,
    {
        let mut params: Vec<TsFnParam> = Vec::new();
        let mut i: usize = 0;
        while i < self.params.len()
            invariant
                i <= self.params@.len(),
                params@.len() == i,
                forall|j: int| #![trigger params@[j]] 0 <= j < i ==> self.params@[j].same_as(params@[j]),
            decreases self.params@.len() - i,
        {
            proof {
                assert(decreases_to!(self => self.params));
                assert(decreases_to!(self.params => self.params@));
                assert(decreases_to!(self.params@ => self.params@[i as int]));
            }
            params.push(self.params[i].clone());
            i += 1;
        }
        let type_params = match &self.type_params {
            None => None,
            Some(x) => Some(Box::new((**x).clone())),
        };
        TsFnType {
            span: self.span,
            params,
            type_params,
            type_ann: Box::new((*self.type_ann).clone()),
        }
    }
}

impl TsConstructorType {
    /// `self` and `other` are the same tree: equal leaves, and lists of
    /// the same length whose items are the same trees, in order.
    pub open spec fn same_as(self, other: Self) -> bool
        decreases self,
    {
        &&& self.span == other.span
        &&& (self.params@.len() == other.params@.len() && forall|i0: int| #![trigger self.params@[i0]] 0 <= i0 < self.params@.len() ==> self.params@[i0].same_as(other.params@[i0]))
        &&& (match self.type_params { None => other.type_params is None, Some(x0) => other.type_params is Some && (*x0).same_as((*other.type_params->Some_0)) })
        &&& (*self.type_ann).same_as((*other.type_ann))
        &&& self.is_abstract == other.is_abstract
    }

    /// Every tree is the same as itself.
    pub proof fn lemma_same_as_reflexive(&self)
        ensures
            self.same_as(*self),
        decreases self,
    {
        assert forall|i0: int| #![trigger self.params@[i0]] 0 <= i0 < self.params@.len() implies self.params@[i0].same_as(self.params@[i0]) by {
            assert(decreases_to!(self => self.params));
            assert(decreases_to!(self.params => self.params@));
            assert(decreases_to!(self.params@ => self.params@[i0]));
            self.params@[i0].lemma_same_as_reflexive();
        }
        if let Some(x0) = &self.type_params {
            x0.lemma_same_as_reflexive();
        }
        self.type_ann.lemma_same_as_reflexive();
    }
}

impl Clone for TsConstructorType {
    fn clone(&self) -> (r: Self)
        ensures
            self.same_as(r),
        decreases self,
    {
        let mut params: Vec<TsFnParam> = Vec::new();
        let mut i: usize = 0;
        while i < self.params.len()
            invariant
                i <= self.params@.len(),
                params@.len() == i,
                forall|j: int| #![trigger params@[j]] 0 <= j < i ==> self.params@[j].same_as(params@[j]),
            decreases self.params@.len() - i,
        {
            proof {
                assert(decreases_to!(self => self.params));
                assert(decreases_to!(self.params => self.params@));
                assert(decreases_to!(self.params@ => self.params@[i as int]));
            }
            params.push(self.params[i].clone());
            i += 1;
        }
        let type_params = match &self.type_params {
            None => None,
            Some(x) => Some(Box::new((**x).clone())),
        };
        TsConstructorType {
            span: self.span,
            params,
            type_params,
            type_ann: Box::new((*self.type_ann).clone()),
            is_abstract: self.is_abstract,
        }
    }
}

impl TsTypeRef {
    /// `self` and `other` are the same tree: equal leaves, and lists of
    /// the same length whose items are the same trees, in order.
    pub open spec fn same_as(self, other: Self) -> bool
        decreases self,
    {
        &&& self.span == other.span
        &&& self.type_ref_name == other.type_ref_name
        &&& (match self.type_params { None => other.type_params is None, Some(x0) => other.type_params is Some && (*x0).same_as((*other.type_params->Some_0)) })
    }

    /// Every tree is the same as itself.
    pub proof fn lemma_same_as_reflexive(&self)
        ensures
            self.same_as(*self),
        decreases self,
    {
        if let Some(x0) = &self.type_params {
            x0.lemma_same_as_reflexive();
        }
    }
}

impl Clone for TsTypeRef {
    fn clone(&self) -> (r: Self)
        ensures
            self.same_as(r),
        decreases self,
    {
        let type_params = match &self.type_params {
            None => None,
            Some(x) => Some(Box::new((**x).clone())),
        };
        TsTypeRef { span: self.span, type_ref_name: self.type_ref_name.clone(), type_params }
    }
}

impl TsTypePredicate {
    /// `self` and `other` are the same tree: equal leaves, and lists of
    /// the same length whose items are the same trees, in order.
    pub open spec fn same_as(self, other: Self) -> bool
        decreases self,
    {
        &&& self.span == other.span
        &&& self.asserts == other.asserts
        &&& self.param_name == other.param_name
        &&& (match self.type_ann { None => other.type_ann is None, Some(x0) => other.type_ann is Some && (*x0).same_as((*other.type_ann->Some_0)) })
    }

    /// Every tree is the same as itself.
    pub proof fn lemma_same_as_reflexive(&self)
        ensures
            self.same_as(*self),
        decreases self,
    {
        if let Some(x0) = &self.type_ann {
            x0.lemma_same_as_reflexive();
        }
    }
}

impl Clone for TsTypePredicate {
    fn clone(&self) -> (r: Self)
        ensures
            self.same_as(r),
        decreases self,
    {
        let type_ann = match &self.type_ann {
            None => None,
            Some(x) => Some(Box::new((**x).clone())),
        };
        TsTypePredicate {
            span: self.span,
            asserts: self.asserts,
            param_name: self.param_name.clone(),
            type_ann,
        }
    }
}

impl Clone for TsThisTypeOrIdent {
    fn clone(&self) -> (r: Self)
        ensures
            r == *self,
        decreases self,
    {
        match self {
            TsThisTypeOrIdent::TsThisType(x) => TsThisTypeOrIdent::TsThisType(x.clone()),
            TsThisTypeOrIdent::Ident(x) => TsThisTypeOrIdent::Ident(x.clone()),
        }
    }
}

impl TsTypeQuery {
    /// `self` and `other` are the same tree: equal leaves, and lists of
    /// the same length whose items are the same trees, in order.
    pub open spec fn same_as(self, other: Self) -> bool
        decreases self,
    {
        &&& self.span == other.span
        &&& self.expr_name.same_as(other.expr_name)
        &&& (match self.type_args { None => other.type_args is None, Some(x0) => other.type_args is Some && (*x0).same_as((*other.type_args->Some_0)) })
    }

    /// Every tree is the same as itself.
    pub proof fn lemma_same_as_reflexive(&self)
        ensures
            self.same_as(*self),
        decreases self,
    {
        self.expr_name.lemma_same_as_reflexive();
        if let Some(x0) = &self.type_args {
            x0.lemma_same_as_reflexive();
        }
    }
}

impl Clone for TsTypeQuery {
    fn clone(&self) -> (r: Self)
        ensures
            self.same_as(r),
        decreases self,
    {
        let type_args = match &self.type_args {
            None => None,
            Some(x) => Some(Box::new((**x).clone())),
        };
        TsTypeQuery { span: self.span, expr_name: self.expr_name.clone(), type_args }
    }
}

impl TsTypeQueryExpr {
    /// `self` and `other` are the same tree: equal leaves, and lists of
    /// the same length whose items are the same trees, in order.
    pub open spec fn same_as(self, other: Self) -> bool
        decreases self,
    {
        match self {
            TsTypeQueryExpr::TsEntityName(x) => other is TsEntityName && x == other->TsEntityName_0,
            TsTypeQueryExpr::Import(x) => other is Import && x.same_as(other->Import_0),
        }
    }

    /// Every tree is the same as itself.
    pub proof fn lemma_same_as_reflexive(&self)
        ensures
            self.same_as(*self),
        decreases self,
    {
        match self {
            TsTypeQueryExpr::TsEntityName(x) => {
            },
            TsTypeQueryExpr::Import(x) => {
                x.lemma_same_as_reflexive();
            },
        }
    }
}

impl Clone for TsTypeQueryExpr {
    fn clone(&self) -> (r: Self)
        ensures
            self.same_as(r),
        decreases self,
    {
        match self {
            TsTypeQueryExpr::TsEntityName(x) => TsTypeQueryExpr::TsEntityName(x.clone()),
            TsTypeQueryExpr::Import(x) => TsTypeQueryExpr::Import(x.clone()),
        }
    }
}

impl TsImportCallOptions {
    /// `self` and `other` are the same tree: equal leaves, and lists of
    /// the same length whose items are the same trees, in order.
    pub open spec fn same_as(self, other: Self) -> bool
        decreases self,
    {
        &&& self.span == other.span
        &&& (*self.with).same_as((*other.with))
    }

    /// Every tree is the same as itself.
    pub proof fn lemma_same_as_reflexive(&self)
        ensures
            self.same_as(*self),
        decreases self,
    {
        self.with.lemma_same_as_reflexive();
    }
}

impl Clone for TsImportCallOptions {
    fn clone(&self) -> (r: Self)
        ensures
            self.same_as(r),
        decreases self,
    {
        TsImportCallOptions { span: self.span, with: Box::new((*self.with).clone()) }
    }
}

impl TsImportType {
    /// `self` and `other` are the same tree: equal leaves, and lists of
    /// the same length whose items are the same trees, in order.
    pub open spec fn same_as(self, other: Self) -> bool
        decreases self,
    {
        &&& self.span == other.span
        &&& self.arg == other.arg
        &&& self.qualifier == other.qualifier
        &&& (match self.type_args { None => other.type_args is None, Some(x0) => other.type_args is Some && (*x0).same_as((*other.type_args->Some_0)) })
        &&& (match self.attributes { None => other.attributes is None, Some(x0) => other.attributes is Some && x0.same_as(other.attributes->Some_0) })
    }

    /// Every tree is the same as itself.
    pub proof fn lemma_same_as_reflexive(&self)
        ensures
            self.same_as(*self),
        decreases self,
    {
        if let Some(x0) = &self.type_args {
            x0.lemma_same_as_reflexive();
        }
        if let Some(x0) = &self.attributes {
            x0.lemma_same_as_reflexive();
        }
    }
}

impl Clone for TsImportType {
    fn clone(&self) -> (r: Self)
        ensures
            self.same_as(r),
        decreases self,
    {
        let qualifier = match &self.qualifier {
            None => None,
            Some(x) => Some(x.clone()),
        };
        let type_args = match &self.type_args {
            None => None,
            Some(x) => Some(Box::new((**x).clone())),
        };
        let attributes = match &self.attributes {
            None => None,
            Some(x) => Some(x.clone()),
        };
        TsImportType { span: self.span, arg: self.arg.clone(), qualifier, type_args, attributes }
    }
}

impl TsTypeLit {
    /// `self` and `other` are the same tree: equal leaves, and lists of
    /// the same length whose items are the same trees, in order.
    pub open spec fn same_as(self, other: Self) -> bool
        decreases self,
    {
        &&& self.span == other.span
        &&& (self.members@.len() == other.members@.len() && forall|i0: int| #![trigger self.members@[i0]] 0 <= i0 < self.members@.len() ==> self.members@[i0].same_as(other.members@[i0]))
    }

    /// Every tree is the same as itself.
    pub proof fn lemma_same_as_reflexive(&self)
        ensures
            self.same_as(*self),
        decreases self,
    {
        assert forall|i0: int| #![trigger self.members@[i0]] 0 <= i0 < self.members@.len() implies self.members@[i0].same_as(self.members@[i0]) by {
            assert(decreases_to!(self => self.members));
            assert(decreases_to!(self.members => self.members@));
            assert(decreases_to!(self.members@ => self.members@[i0]));
            self.members@[i0].lemma_same_as_reflexive();
        }
    }
}

impl Clone for TsTypeLit {
    fn clone(&self) -> (r: Self)
        ensures
            self.same_as(r),
        decreases self,
    {
        let mut members: Vec<TsTypeElement> = Vec::new();
        let mut i: usize = 0;
        while i < self.members.len()
            invariant
                i <= self.members@.len(),
                members@.len() == i,
                forall|j: int| #![trigger members@[j]] 0 <= j < i ==> self.members@[j].same_as(members@[j]),
            decreases self.members@.len() - i,
        {
            proof {
                assert(decreases_to!(self => self.members));
                assert(decreases_to!(self.members => self.members@));
                assert(decreases_to!(self.members@ => self.members@[i as int]));
            }
            members.push(self.members[i].clone());
            i += 1;
        }
        TsTypeLit { span: self.span, members }
    }
}

impl TsArrayType {
    /// `self` and `other` are the same tree: equal leaves, and lists of
    /// the same length whose items are the same trees, in order.
    pub open spec fn same_as(self, other: Self) -> bool
        decreases self,
    {
        &&& self.span == other.span
        &&& (*self.elem_type).same_as((*other.elem_type))
    }

    /// Every tree is the same as itself.
    pub proof fn lemma_same_as_reflexive(&self)
        ensures
            self.same_as(*self),
        decreases self,
    {
        self.elem_type.lemma_same_as_reflexive();
    }
}

impl Clone for TsArrayType {
    fn clone(&self) -> (r: Self)
        ensures
            self.same_as(r),
        decreases self,
    {
        TsArrayType { span: self.span, elem_type: Box::new((*self.elem_type).clone()) }
    }
}

impl TsTupleType {
    /// `self` and `other` are the same tree: equal leaves, and lists of
    /// the same length whose items are the same trees, in order.
    pub open spec fn same_as(self, other: Self) -> bool
        decreases self,
    {
        &&& self.span == other.span
        &&& (self.elem_types@.len() == other.elem_types@.len() && forall|i0: int| #![trigger self.elem_types@[i0]] 0 <= i0 < self.elem_types@.len() ==> self.elem_types@[i0].same_as(other.elem_types@[i0]))
    }

    /// Every tree is the same as itself.
    pub proof fn lemma_same_as_reflexive(&self)
        ensures
            self.same_as(*self),
        decreases self,
    {
        assert forall|i0: int| #![trigger self.elem_types@[i0]] 0 <= i0 < self.elem_types@.len() implies self.elem_types@[i0].same_as(self.elem_types@[i0]) by {
            assert(decreases_to!(self => self.elem_types));
            assert(decreases_to!(self.elem_types => self.elem_types@));
            assert(decreases_to!(self.elem_types@ => self.elem_types@[i0]));
            self.elem_types@[i0].lemma_same_as_reflexive();
        }
    }
}

impl Clone for TsTupleType {
    fn clone(&self) -> (r: Self)
        ensures
            self.same_as(r),
        decreases self,
    {
        let mut elem_types: Vec<TsTupleElement> = Vec::new();
        let mut i: usize = 0;
        while i < self.elem_types.len()
            invariant
                i <= self.elem_types@.len(),
                elem_types@.len() == i,
                forall|j: int| #![trigger elem_types@[j]] 0 <= j < i ==> self.elem_types@[j].same_as(elem_types@[j]),
            decreases self.elem_types@.len() - i,
        {
            proof {
                assert(decreases_to!(self => self.elem_types));
                assert(decreases_to!(self.elem_types => self.elem_types@));
                assert(decreases_to!(self.elem_types@ => self.elem_types@[i as int]));
            }
            elem_types.push(self.elem_types[i].clone());
            i += 1;
        }
        TsTupleType { span: self.span, elem_types }
    }
}

impl TsTupleElement {
    /// `self` and `other` are the same tree: equal leaves, and lists of
    /// the same length whose items are the same trees, in order.
    pub open spec fn same_as(self, other: Self) -> bool
        decreases self,
    {
        &&& self.span == other.span
        &&& (match self.label { None => other.label is None, Some(x0) => other.label is Some && x0.same_as(other.label->Some_0) })
        &&& (*self.ty).same_as((*other.ty))
    }

    /// Every tree is the same as itself.
    pub proof fn lemma_same_as_reflexive(&self)
        ensures
            self.same_as(*self),
        decreases self,
    {
        if let Some(x0) = &self.label {
            x0.lemma_same_as_reflexive();
        }
        self.ty.lemma_same_as_reflexive();
    }
}

impl Clone for TsTupleElement {
    fn clone(&self) -> (r: Self)
        ensures
            self.same_as(r),
        decreases self,
    {
        let label = match &self.label {
            None => None,
            Some(x) => Some(x.clone()),
        };
        TsTupleElement { span: self.span, label, ty: Box::new((*self.ty).clone()) }
    }
}

impl TsOptionalType {
    /// `self` and `other` are the same tree: equal leaves, and lists of
    /// the same length whose items are the same trees, in order.
    pub open spec fn same_as(self, other: Self) -> bool
        decreases self,
    {
        &&& self.span == other.span
        &&& (*self.type_ann).same_as((*other.type_ann))
    }

    /// Every tree is the same as itself.
    pub proof fn lemma_same_as_reflexive(&self)
        ensures
            self.same_as(*self),
        decreases self,
    {
        self.type_ann.lemma_same_as_reflexive();
    }
}

impl Clone for TsOptionalType {
    fn clone(&self) -> (r: Self)
        ensures
            self.same_as(r),
        decreases self,
    {
        TsOptionalType { span: self.span, type_ann: Box::new((*self.type_ann).clone()) }
    }
}

impl TsRestType {
    /// `self` and `other` are the same tree: equal leaves, and lists of
    /// the same length whose items are the same trees, in order.
    pub open spec fn same_as(self, other: Self) -> bool
        decreases self,
    {
        &&& self.span == other.span
        &&& (*self.type_ann).same_as((*other.type_ann))
    }

    /// Every tree is the same as itself.
    pub proof fn lemma_same_as_reflexive(&self)
        ensures
            self.same_as(*self),
        decreases self,
    {
        self.type_ann.lemma_same_as_reflexive();
    }
}

impl Clone for TsRestType {
    fn clone(&self) -> (r: Self)
        ensures
            self.same_as(r),
        decreases self,
    {
        TsRestType { span: self.span, type_ann: Box::new((*self.type_ann).clone()) }
    }
}

impl TsUnionOrIntersectionType {
    /// `self` and `other` are the same tree: equal leaves, and lists of
    /// the same length whose items are the same trees, in order.
    pub open spec fn same_as(self, other: Self) -> bool
        decreases self,
    {
        match self {
            TsUnionOrIntersectionType::TsUnionType(x) => other is TsUnionType && x.same_as(other->TsUnionType_0),
            TsUnionOrIntersectionType::TsIntersectionType(x) => other is TsIntersectionType && x.same_as(other->TsIntersectionType_0),
        }
    }

    /// Every tree is the same as itself.
    pub proof fn lemma_same_as_reflexive(&self)
        ensures
            self.same_as(*self),
        decreases self,
    {
        match self {
            TsUnionOrIntersectionType::TsUnionType(x) => {
                x.lemma_same_as_reflexive();
            },
            TsUnionOrIntersectionType::TsIntersectionType(x) => {
                x.lemma_same_as_reflexive();
            },
        }
    }
}

impl Clone for TsUnionOrIntersectionType {
    fn clone(&self) -> (r: Self)
        ensures
            self.same_as(r),
        decreases self,
    {
        match self {
            TsUnionOrIntersectionType::TsUnionType(x) => TsUnionOrIntersectionType::TsUnionType(x.clone()),
            TsUnionOrIntersectionType::TsIntersectionType(x) => TsUnionOrIntersectionType::TsIntersectionType(x.clone()),
        }
    }
}

impl TsUnionType {
    /// `self` and `other` are the same tree: equal leaves, and lists of
    /// the same length whose items are the same trees, in order.
    pub open spec fn same_as(self, other: Self) -> bool
        decreases self,
    {
        &&& self.span == other.span
        &&& (self.types@.len() == other.types@.len() && forall|i0: int| #![trigger self.types@[i0]] 0 <= i0 < self.types@.len() ==> (*self.types@[i0]).same_as((*other.types@[i0])))
    }

    /// Every tree is the same as itself.
    pub proof fn lemma_same_as_reflexive(&self)
        ensures
            self.same_as(*self),
        decreases self,
    {
        assert forall|i0: int| #![trigger self.types@[i0]] 0 <= i0 < self.types@.len() implies (*self.types@[i0]).same_as((*self.types@[i0])) by {
            assert(decreases_to!(self => self.types));
            assert(decreases_to!(self.types => self.types@));
            assert(decreases_to!(self.types@ => self.types@[i0]));
            self.types@[i0].lemma_same_as_reflexive();
        }
    }
}

impl Clone for TsUnionType {
    fn clone(&self) -> (r: Self)
        ensures
            self.same_as(r),
        decreases self,
    {
        let mut types: Vec<Box<TsType>> = Vec::new();
        let mut i: usize = 0;
        while i < self.types.len()
            invariant
                i <= self.types@.len(),
                types@.len() == i,
                forall|j: int| #![trigger types@[j]] 0 <= j < i ==> (*self.types@[j]).same_as((*types@[j])),
            decreases self.types@.len() - i,
        {
            proof {
                assert(decreases_to!(self => self.types));
                assert(decreases_to!(self.types => self.types@));
                assert(decreases_to!(self.types@ => self.types@[i as int]));
            }
            types.push(Box::new((*self.types[i]).clone()));
            i += 1;
        }
        TsUnionType { span: self.span, types }
    }
}

impl TsIntersectionType {
    /// `self` and `other` are the same tree: equal leaves, and lists of
    /// the same length whose items are the same trees, in order.
    pub open spec fn same_as(self, other: Self) -> bool
        decreases self,
    {
        &&& self.span == other.span
        &&& (self.types@.len() == other.types@.len() && forall|i0: int| #![trigger self.types@[i0]] 0 <= i0 < self.types@.len() ==> (*self.types@[i0]).same_as((*other.types@[i0])))
    }

    /// Every tree is the same as itself.
    pub proof fn lemma_same_as_reflexive(&self)
        ensures
            self.same_as(*self),
        decreases self,
    {
        assert forall|i0: int| #![trigger self.types@[i0]] 0 <= i0 < self.types@.len() implies (*self.types@[i0]).same_as((*self.types@[i0])) by {
            assert(decreases_to!(self => self.types));
            assert(decreases_to!(self.types => self.types@));
            assert(decreases_to!(self.types@ => self.types@[i0]));
            self.types@[i0].lemma_same_as_reflexive();
        }
    }
}

impl Clone for TsIntersectionType {
    fn clone(&self) -> (r: Self)
        ensures
            self.same_as(r),
        decreases self,
    {
        let mut types: Vec<Box<TsType>> = Vec::new();
        let mut i: usize = 0;
        while i < self.types.len()
            invariant
                i <= self.types@.len(),
                types@.len() == i,
                forall|j: int| #![trigger types@[j]] 0 <= j < i ==> (*self.types@[j]).same_as((*types@[j])),
            decreases self.types@.len() - i,
        {
            proof {
                assert(decreases_to!(self => self.types));
                assert(decreases_to!(self.types => self.types@));
                assert(decreases_to!(self.types@ => self.types@[i as int]));
            }
            types.push(Box::new((*self.types[i]).clone()));
            i += 1;
        }
        TsIntersectionType { span: self.span, types }
    }
}

impl TsConditionalType {
    /// `self` and `other` are the same tree: equal leaves, and lists of
    /// the same length whose items are the same trees, in order.
    pub open spec fn same_as(self, other: Self) -> bool
        decreases self,
    {
        &&& self.span == other.span
        &&& (*self.check_type).same_as((*other.check_type))
        &&& (*self.extends_type).same_as((*other.extends_type))
        &&& (*self.true_type).same_as((*other.true_type))
        &&& (*self.false_type).same_as((*other.false_type))
    }

    /// Every tree is the same as itself.
    pub proof fn lemma_same_as_reflexive(&self)
        ensures
            self.same_as(*self),
        decreases self,
    {
        self.check_type.lemma_same_as_reflexive();
        self.extends_type.lemma_same_as_reflexive();
        self.true_type.lemma_same_as_reflexive();
        self.false_type.lemma_same_as_reflexive();
    }
}

impl Clone for TsConditionalType {
    fn clone(&self) -> (r: Self)
        ensures
            self.same_as(r),
        decreases self,
    {
        TsConditionalType {
            span: self.span,
            check_type: Box::new((*self.check_type).clone()),
            extends_type: Box::new((*self.extends_type).clone()),
            true_type: Box::new((*self.true_type).clone()),
            false_type: Box::new((*self.false_type).clone()),
        }
    }
}

impl TsInferType {
    /// `self` and `other` are the same tree: equal leaves, and lists of
    /// the same length whose items are the same trees, in order.
    pub open spec fn same_as(self, other: Self) -> bool
        decreases self,
    {
        &&& self.span == other.span
        &&& self.type_param.same_as(other.type_param)
    }

    /// Every tree is the same as itself.
    pub proof fn lemma_same_as_reflexive(&self)
        ensures
            self.same_as(*self),
        decreases self,
    {
        self.type_param.lemma_same_as_reflexive();
    }
}

impl Clone for TsInferType {
    fn clone(&self) -> (r: Self)
        ensures
            self.same_as(r),
        decreases self,
    {
        TsInferType { span: self.span, type_param: self.type_param.clone() }
    }
}

impl TsParenthesizedType {
    /// `self` and `other` are the same tree: equal leaves, and lists of
    /// the same length whose items are the same trees, in order.
    pub open spec fn same_as(self, other: Self) -> bool
        decreases self,
    {
        &&& self.span == other.span
        &&& (*self.type_ann).same_as((*other.type_ann))
    }

    /// Every tree is the same as itself.
    pub proof fn lemma_same_as_reflexive(&self)
        ensures
            self.same_as(*self),
        decreases self,
    {
        self.type_ann.lemma_same_as_reflexive();
    }
}

impl Clone for TsParenthesizedType {
    fn clone(&self) -> (r: Self)
        ensures
            self.same_as(r),
        decreases self,
    {
        TsParenthesizedType { span: self.span, type_ann: Box::new((*self.type_ann).clone()) }
    }
}

impl TsTypeOperator {
    /// `self` and `other` are the same tree: equal leaves, and lists of
    /// the same length whose items are the same trees, in order.
    pub open spec fn same_as(self, other: Self) -> bool
        decreases self,
    {
        &&& self.span == other.span
        &&& self.op == other.op
        &&& (*self.type_ann).same_as((*other.type_ann))
    }

    /// Every tree is the same as itself.
    pub proof fn lemma_same_as_reflexive(&self)
        ensures
            self.same_as(*self),
        decreases self,
    {
        self.type_ann.lemma_same_as_reflexive();
    }
}

impl Clone for TsTypeOperator {
    fn clone(&self) -> (r: Self)
        ensures
            self.same_as(r),
        decreases self,
    {
        TsTypeOperator {
            span: self.span,
            op: self.op,
            type_ann: Box::new((*self.type_ann).clone()),
        }
    }
}

impl TsIndexedAccessType {
    /// `self` and `other` are the same tree: equal leaves, and lists of
    /// the same length whose items are the same trees, in order.
    pub open spec fn same_as(self, other: Self) -> bool
        decreases self,
    {
        &&& self.span == other.span
        &&& self.readonly == other.readonly
        &&& (*self.obj_type).same_as((*other.obj_type))
        &&& (*self.index_type).same_as((*other.index_type))
    }

    /// Every tree is the same as itself.
    pub proof fn lemma_same_as_reflexive(&self)
        ensures
            self.same_as(*self),
        decreases self,
    {
        self.obj_type.lemma_same_as_reflexive();
        self.index_type.lemma_same_as_reflexive();
    }
}

impl Clone for TsIndexedAccessType {
    fn clone(&self) -> (r: Self)
        ensures
            self.same_as(r),
        decreases self,
    {
        TsIndexedAccessType {
            span: self.span,
            readonly: self.readonly,
            obj_type: Box::new((*self.obj_type).clone()),
            index_type: Box::new((*self.index_type).clone()),
        }
    }
}

impl TsMappedType {
    /// `self` and `other` are the same tree: equal leaves, and lists of
    /// the same length whose items are the same trees, in order.
    pub open spec fn same_as(self, other: Self) -> bool
        decreases self,
    {
        &&& self.span == other.span
        &&& self.readonly == other.readonly
        &&& self.type_param.same_as(other.type_param)
        &&& (match self.name_type { None => other.name_type is None, Some(x0) => other.name_type is Some && (*x0).same_as((*other.name_type->Some_0)) })
        &&& self.optional == other.optional
        &&& (match self.type_ann { None => other.type_ann is None, Some(x0) => other.type_ann is Some && (*x0).same_as((*other.type_ann->Some_0)) })
    }

    /// Every tree is the same as itself.
    pub proof fn lemma_same_as_reflexive(&self)
        ensures
            self.same_as(*self),
        decreases self,
    {
        self.type_param.lemma_same_as_reflexive();
        if let Some(x0) = &self.name_type {
            x0.lemma_same_as_reflexive();
        }
        if let Some(x0) = &self.type_ann {
            x0.lemma_same_as_reflexive();
        }
    }
}

impl Clone for TsMappedType {
    fn clone(&self) -> (r: Self)
        ensures
            self.same_as(r),
        decreases self,
    {
        let name_type = match &self.name_type {
            None => None,
            Some(x) => Some(Box::new((**x).clone())),
        };
        let type_ann = match &self.type_ann {
            None => None,
            Some(x) => Some(Box::new((**x).clone())),
        };
        TsMappedType {
            span: self.span,
            readonly: self.readonly,
            type_param: self.type_param.clone(),
            name_type,
            optional: self.optional,
            type_ann,
        }
    }
}

impl TsLitType {
    /// `self` and `other` are the same tree: equal leaves, and lists of
    /// the same length whose items are the same trees, in order.
    pub open spec fn same_as(self, other: Self) -> bool
        decreases self,
    {
        &&& self.span == other.span
        &&& self.lit.same_as(other.lit)
    }

    /// Every tree is the same as itself.
    pub proof fn lemma_same_as_reflexive(&self)
        ensures
            self.same_as(*self),
        decreases self,
    {
        self.lit.lemma_same_as_reflexive();
    }
}

impl Clone for TsLitType {
    fn clone(&self) -> (r: Self)
        ensures
            self.same_as(r),
        decreases self,
    {
        TsLitType { span: self.span, lit: self.lit.clone() }
    }
}

impl TsLit {
    /// `self` and `other` are the same tree: equal leaves, and lists of
    /// the same length whose items are the same trees, in order.
    pub open spec fn same_as(self, other: Self) -> bool
        decreases self,
    {
        match self {
            TsLit::Number(x) => other is Number && x == other->Number_0,
            TsLit::Str(x) => other is Str && x == other->Str_0,
            TsLit::Bool(x) => other is Bool && x == other->Bool_0,
            TsLit::BigInt(x) => other is BigInt && x.same_as(other->BigInt_0),
            TsLit::Tpl(x) => other is Tpl && x.same_as(other->Tpl_0),
        }
    }

    /// Every tree is the same as itself.
    pub proof fn lemma_same_as_reflexive(&self)
        ensures
            self.same_as(*self),
        decreases self,
    {
        match self {
            TsLit::Number(x) => {
            },
            TsLit::Str(x) => {
            },
            TsLit::Bool(x) => {
            },
            TsLit::BigInt(x) => {
                x.lemma_same_as_reflexive();
            },
            TsLit::Tpl(x) => {
                x.lemma_same_as_reflexive();
            },
        }
    }
}

impl Clone for TsLit {
    fn clone(&self) -> (r: Self)
        ensures
            self.same_as(r),
        decreases self,
    {
        match self {
            TsLit::Number(x) => TsLit::Number(x.clone()),
            TsLit::Str(x) => TsLit::Str(x.clone()),
            TsLit::Bool(x) => TsLit::Bool(*x),
            TsLit::BigInt(x) => TsLit::BigInt(x.clone()),
            TsLit::Tpl(x) => TsLit::Tpl(x.clone()),
        }
    }
}

impl TsTplLitType {
    /// `self` and `other` are the same tree: equal leaves, and lists of
    /// the same length whose items are the same trees, in order.
    pub open spec fn same_as(self, other: Self) -> bool
        decreases self,
    {
        &&& self.span == other.span
        &&& (self.types@.len() == other.types@.len() && forall|i0: int| #![trigger self.types@[i0]] 0 <= i0 < self.types@.len() ==> (*self.types@[i0]).same_as((*other.types@[i0])))
        &&& self.quasis@ == other.quasis@
    }

    /// Every tree is the same as itself.
    pub proof fn lemma_same_as_reflexive(&self)
        ensures
            self.same_as(*self),
        decreases self,
    {
        assert forall|i0: int| #![trigger self.types@[i0]] 0 <= i0 < self.types@.len() implies (*self.types@[i0]).same_as((*self.types@[i0])) by {
            assert(decreases_to!(self => self.types));
            assert(decreases_to!(self.types => self.types@));
            assert(decreases_to!(self.types@ => self.types@[i0]));
            self.types@[i0].lemma_same_as_reflexive();
        }
    }
}

impl Clone for TsTplLitType {
    fn clone(&self) -> (r: Self)
        ensures
            self.same_as(r),
        decreases self,
    {
        let mut types: Vec<Box<TsType>> = Vec::new();
        let mut i: usize = 0;
        while i < self.types.len()
            invariant
                i <= self.types@.len(),
                types@.len() == i,
                forall|j: int| #![trigger types@[j]] 0 <= j < i ==> (*self.types@[j]).same_as((*types@[j])),
            decreases self.types@.len() - i,
        {
            proof {
                assert(decreases_to!(self => self.types));
                assert(decreases_to!(self.types => self.types@));
                assert(decreases_to!(self.types@ => self.types@[i as int]));
            }
            types.push(Box::new((*self.types[i]).clone()));
            i += 1;
        }
        let mut quasis: Vec<TplElement> = Vec::new();
        let mut i: usize = 0;
        while i < self.quasis.len()
            invariant
                i <= self.quasis@.len(),
                quasis@.len() == i,
                forall|j: int| #![trigger quasis@[j]] 0 <= j < i ==> quasis@[j] == self.quasis@[j],
            decreases self.quasis@.len() - i,
        {
            quasis.push(self.quasis[i].clone());
            i += 1;
        }
        proof {
            assert(quasis@ =~= self.quasis@);
        }
        TsTplLitType { span: self.span, types, quasis }
    }
}

impl TsInterfaceDecl {
    /// `self` and `other` are the same tree: equal leaves, and lists of
    /// the same length whose items are the same trees, in order.
    pub open spec fn same_as(self, other: Self) -> bool
        decreases self,
    {
        &&& self.span == other.span
        &&& self.id == other.id
        &&& self.declare == other.declare
        &&& (match self.type_params { None => other.type_params is None, Some(x0) => other.type_params is Some && (*x0).same_as((*other.type_params->Some_0)) })
        &&& (self.extends@.len() == other.extends@.len() && forall|i0: int| #![trigger self.extends@[i0]] 0 <= i0 < self.extends@.len() ==> self.extends@[i0].same_as(other.extends@[i0]))
        &&& self.body.same_as(other.body)
    }

    /// Every tree is the same as itself.
    pub proof fn lemma_same_as_reflexive(&self)
        ensures
            self.same_as(*self),
        decreases self,
    {
        if let Some(x0) = &self.type_params {
            x0.lemma_same_as_reflexive();
        }
        assert forall|i0: int| #![trigger self.extends@[i0]] 0 <= i0 < self.extends@.len() implies self.extends@[i0].same_as(self.extends@[i0]) by {
            assert(decreases_to!(self => self.extends));
            assert(decreases_to!(self.extends => self.extends@));
            assert(decreases_to!(self.extends@ => self.extends@[i0]));
            self.extends@[i0].lemma_same_as_reflexive();
        }
        self.body.lemma_same_as_reflexive();
    }
}

impl Clone for TsInterfaceDecl {
    fn clone(&self) -> (r: Self)
        ensures
            self.same_as(r),
        decreases self,
    {
        let type_params = match &self.type_params {
            None => None,
            Some(x) => Some(Box::new((**x).clone())),
        };
        let mut extends: Vec<TsExprWithTypeArgs> = Vec::new();
        let mut i: usize = 0;
        while i < self.extends.len()
            invariant
                i <= self.extends@.len(),
                extends@.len() == i,
                forall|j: int| #![trigger extends@[j]] 0 <= j < i ==> self.extends@[j].same_as(extends@[j]),
            decreases self.extends@.len() - i,
        {
            proof {
                assert(decreases_to!(self => self.extends));
                assert(decreases_to!(self.extends => self.extends@));
                assert(decreases_to!(self.extends@ => self.extends@[i as int]));
            }
            extends.push(self.extends[i].clone());
            i += 1;
        }
        TsInterfaceDecl {
            span: self.span,
            id: self.id.clone(),
            declare: self.declare,
            type_params,
            extends,
            body: self.body.clone(),
        }
    }
}

impl TsInterfaceBody {
    /// `self` and `other` are the same tree: equal leaves, and lists of
    /// the same length whose items are the same trees, in order.
    pub open spec fn same_as(self, other: Self) -> bool
        decreases self,
    {
        &&& self.span == other.span
        &&& (self.body@.len() == other.body@.len() && forall|i0: int| #![trigger self.body@[i0]] 0 <= i0 < self.body@.len() ==> self.body@[i0].same_as(other.body@[i0]))
    }

    /// Every tree is the same as itself.
    pub proof fn lemma_same_as_reflexive(&self)
        ensures
            self.same_as(*self),
        decreases self,
    {
        assert forall|i0: int| #![trigger self.body@[i0]] 0 <= i0 < self.body@.len() implies self.body@[i0].same_as(self.body@[i0]) by {
            assert(decreases_to!(self => self.body));
            assert(decreases_to!(self.body => self.body@));
            assert(decreases_to!(self.body@ => self.body@[i0]));
            self.body@[i0].lemma_same_as_reflexive();
        }
    }
}

impl Clone for TsInterfaceBody {
    fn clone(&self) -> (r: Self)
        ensures
            self.same_as(r),
        decreases self,
    {
        let mut body: Vec<TsTypeElement> = Vec::new();
        let mut i: usize = 0;
        while i < self.body.len()
            invariant
                i <= self.body@.len(),
                body@.len() == i,
                forall|j: int| #![trigger body@[j]] 0 <= j < i ==> self.body@[j].same_as(body@[j]),
            decreases self.body@.len() - i,
        {
            proof {
                assert(decreases_to!(self => self.body));
                assert(decreases_to!(self.body => self.body@));
                assert(decreases_to!(self.body@ => self.body@[i as int]));
            }
            body.push(self.body[i].clone());
            i += 1;
        }
        TsInterfaceBody { span: self.span, body }
    }
}

impl TsExprWithTypeArgs {
    /// `self` and `other` are the same tree: equal leaves, and lists of
    /// the same length whose items are the same trees, in order.
    pub open spec fn same_as(self, other: Self) -> bool
        decreases self,
    {
        &&& self.span == other.span
        &&& (*self.expr).same_as((*other.expr))
        &&& (match self.type_args { None => other.type_args is None, Some(x0) => other.type_args is Some && (*x0).same_as((*other.type_args->Some_0)) })
    }

    /// Every tree is the same as itself.
    pub proof fn lemma_same_as_reflexive(&self)
        ensures
            self.same_as(*self),
        decreases self,
    {
        self.expr.lemma_same_as_reflexive();
        if let Some(x0) = &self.type_args {
            x0.lemma_same_as_reflexive();
        }
    }
}

impl Clone for TsExprWithTypeArgs {
    fn clone(&self) -> (r: Self)
        ensures
            self.same_as(r),
        decreases self,
    {
        let type_args = match &self.type_args {
            None => None,
            Some(x) => Some(Box::new((**x).clone())),
        };
        TsExprWithTypeArgs { span: self.span, expr: Box::new((*self.expr).clone()), type_args }
    }
}

impl TsTypeAliasDecl {
    /// `self` and `other` are the same tree: equal leaves, and lists of
    /// the same length whose items are the same trees, in order.
    pub open spec fn same_as(self, other: Self) -> bool
        decreases self,
    {
        &&& self.span == other.span
        &&& self.declare == other.declare
        &&& self.id == other.id
        &&& (match self.type_params { None => other.type_params is None, Some(x0) => other.type_params is Some && (*x0).same_as((*other.type_params->Some_0)) })
        &&& (*self.type_ann).same_as((*other.type_ann))
    }

    /// Every tree is the same as itself.
    pub proof fn lemma_same_as_reflexive(&self)
        ensures
            self.same_as(*self),
        decreases self,
    {
        if let Some(x0) = &self.type_params {
            x0.lemma_same_as_reflexive();
        }
        self.type_ann.lemma_same_as_reflexive();
    }
}

impl Clone for TsTypeAliasDecl {
    fn clone(&self) -> (r: Self)
        ensures
            self.same_as(r),
        decreases self,
    {
        let type_params = match &self.type_params {
            None => None,
            Some(x) => Some(Box::new((**x).clone())),
        };
        TsTypeAliasDecl {
            span: self.span,
            declare: self.declare,
            id: self.id.clone(),
            type_params,
            type_ann: Box::new((*self.type_ann).clone()),
        }
    }
}

impl TsEnumDecl {
    /// `self` and `other` are the same tree: equal leaves, and lists of
    /// the same length whose items are the same trees, in order.
    pub open spec fn same_as(self, other: Self) -> bool
        decreases self,
    {
        &&& self.span == other.span
        &&& self.declare == other.declare
        &&& self.is_const == other.is_const
        &&& self.id == other.id
        &&& (self.members@.len() == other.members@.len() && forall|i0: int| #![trigger self.members@[i0]] 0 <= i0 < self.members@.len() ==> self.members@[i0].same_as(other.members@[i0]))
    }

    /// Every tree is the same as itself.
    pub proof fn lemma_same_as_reflexive(&self)
        ensures
            self.same_as(*self),
        decreases self,
    {
        assert forall|i0: int| #![trigger self.members@[i0]] 0 <= i0 < self.members@.len() implies self.members@[i0].same_as(self.members@[i0]) by {
            assert(decreases_to!(self => self.members));
            assert(decreases_to!(self.members => self.members@));
            assert(decreases_to!(self.members@ => self.members@[i0]));
            self.members@[i0].lemma_same_as_reflexive();
        }
    }
}

impl Clone for TsEnumDecl {
    fn clone(&self) -> (r: Self)
        ensures
            self.same_as(r),
        decreases self,
    {
        let mut members: Vec<TsEnumMember> = Vec::new();
        let mut i: usize = 0;
        while i < self.members.len()
            invariant
                i <= self.members@.len(),
                members@.len() == i,
                forall|j: int| #![trigger members@[j]] 0 <= j < i ==> self.members@[j].same_as(members@[j]),
            decreases self.members@.len() - i,
        {
            proof {
                assert(decreases_to!(self => self.members));
                assert(decreases_to!(self.members => self.members@));
                assert(decreases_to!(self.members@ => self.members@[i as int]));
            }
            members.push(self.members[i].clone());
            i += 1;
        }
        TsEnumDecl {
            span: self.span,
            declare: self.declare,
            is_const: self.is_const,
            id: self.id.clone(),
            members,
        }
    }
}

impl TsEnumMember {
    /// `self` and `other` are the same tree: equal leaves, and lists of
    /// the same length whose items are the same trees, in order.
    pub open spec fn same_as(self, other: Self) -> bool
        decreases self,
    {
        &&& self.span == other.span
        &&& self.id == other.id
        &&& (match self.init { None => other.init is None, Some(x0) => other.init is Some && (*x0).same_as((*other.init->Some_0)) })
    }

    /// Every tree is the same as itself.
    pub proof fn lemma_same_as_reflexive(&self)
        ensures
            self.same_as(*self),
        decreases self,
    {
        if let Some(x0) = &self.init {
            x0.lemma_same_as_reflexive();
        }
    }
}

impl Clone for TsEnumMember {
    fn clone(&self) -> (r: Self)
        ensures
            self.same_as(r),
        decreases self,
    {
        let init = match &self.init {
            None => None,
            Some(x) => Some(Box::new((**x).clone())),
        };
        TsEnumMember { span: self.span, id: self.id.clone(), init }
    }
}

impl Clone for TsEnumMemberId {
    fn clone(&self) -> (r: Self)
        ensures
            r == *self,
        decreases self,
    {
        match self {
            TsEnumMemberId::Ident(x) => TsEnumMemberId::Ident(x.clone()),
            TsEnumMemberId::Str(x) => TsEnumMemberId::Str(x.clone()),
        }
    }
}

impl TsModuleDecl {
    /// `self` and `other` are the same tree: equal leaves, and lists of
    /// the same length whose items are the same trees, in order.
    pub open spec fn same_as(self, other: Self) -> bool
        decreases self,
    {
        &&& self.span == other.span
        &&& self.declare == other.declare
        &&& self.global == other.global
        &&& self.namespace == other.namespace
        &&& self.id == other.id
        &&& (match self.body { None => other.body is None, Some(x0) => other.body is Some && x0.same_as(other.body->Some_0) })
    }

    /// Every tree is the same as itself.
    pub proof fn lemma_same_as_reflexive(&self)
        ensures
            self.same_as(*self),
        decreases self,
    {
        if let Some(x0) = &self.body {
            x0.lemma_same_as_reflexive();
        }
    }
}

impl Clone for TsModuleDecl {
    fn clone(&self) -> (r: Self)
        ensures
            self.same_as(r),
        decreases self,
    {
        let body = match &self.body {
            None => None,
            Some(x) => Some(x.clone()),
        };
        TsModuleDecl {
            span: self.span,
            declare: self.declare,
            global: self.global,
            namespace: self.namespace,
            id: self.id.clone(),
            body,
        }
    }
}

impl TsNamespaceBody {
    /// `self` and `other` are the same tree: equal leaves, and lists of
    /// the same length whose items are the same trees, in order.
    pub open spec fn same_as(self, other: Self) -> bool
        decreases self,
    {
        match self {
            TsNamespaceBody::TsModuleBlock(x) => other is TsModuleBlock && x.same_as(other->TsModuleBlock_0),
            TsNamespaceBody::TsNamespaceDecl(x) => other is TsNamespaceDecl && x.same_as(other->TsNamespaceDecl_0),
        }
    }

    /// Every tree is the same as itself.
    pub proof fn lemma_same_as_reflexive(&self)
        ensures
            self.same_as(*self),
        decreases self,
    {
        match self {
            TsNamespaceBody::TsModuleBlock(x) => {
                x.lemma_same_as_reflexive();
            },
            TsNamespaceBody::TsNamespaceDecl(x) => {
                x.lemma_same_as_reflexive();
            },
        }
    }
}

impl Clone for TsNamespaceBody {
    fn clone(&self) -> (r: Self)
        ensures
            self.same_as(r),
        decreases self,
    {
        match self {
            TsNamespaceBody::TsModuleBlock(x) => TsNamespaceBody::TsModuleBlock(x.clone()),
            TsNamespaceBody::TsNamespaceDecl(x) => TsNamespaceBody::TsNamespaceDecl(x.clone()),
        }
    }
}

impl TsModuleBlock {
    /// `self` and `other` are the same tree: equal leaves, and lists of
    /// the same length whose items are the same trees, in order.
    pub open spec fn same_as(self, other: Self) -> bool
        decreases self,
    {
        &&& self.span == other.span
        &&& (self.body@.len() == other.body@.len() && forall|i0: int| #![trigger self.body@[i0]] 0 <= i0 < self.body@.len() ==> self.body@[i0].same_as(other.body@[i0]))
    }

    /// Every tree is the same as itself.
    pub proof fn lemma_same_as_reflexive(&self)
        ensures
            self.same_as(*self),
        decreases self,
    {
        assert forall|i0: int| #![trigger self.body@[i0]] 0 <= i0 < self.body@.len() implies self.body@[i0].same_as(self.body@[i0]) by {
            assert(decreases_to!(self => self.body));
            assert(decreases_to!(self.body => self.body@));
            assert(decreases_to!(self.body@ => self.body@[i0]));
            self.body@[i0].lemma_same_as_reflexive();
        }
    }
}

impl Clone for TsModuleBlock {
    fn clone(&self) -> (r: Self)
        ensures
            self.same_as(r),
        decreases self,
    {
        let mut body: Vec<ModuleItem> = Vec::new();
        let mut i: usize = 0;
        while i < self.body.len()
            invariant
                i <= self.body@.len(),
                body@.len() == i,
                forall|j: int| #![trigger body@[j]] 0 <= j < i ==> self.body@[j].same_as(body@[j]),
            decreases self.body@.len() - i,
        {
            proof {
                assert(decreases_to!(self => self.body));
                assert(decreases_to!(self.body => self.body@));
                assert(decreases_to!(self.body@ => self.body@[i as int]));
            }
            body.push(self.body[i].clone());
            i += 1;
        }
        TsModuleBlock { span: self.span, body }
    }
}

impl TsNamespaceDecl {
    /// `self` and `other` are the same tree: equal leaves, and lists of
    /// the same length whose items are the same trees, in order.
    pub open spec fn same_as(self, other: Self) -> bool
        decreases self,
    {
        &&& self.span == other.span
        &&& self.declare == other.declare
        &&& self.global == other.global
        &&& self.id == other.id
        &&& (*self.body).same_as((*other.body))
    }

    /// Every tree is the same as itself.
    pub proof fn lemma_same_as_reflexive(&self)
        ensures
            self.same_as(*self),
        decreases self,
    {
        self.body.lemma_same_as_reflexive();
    }
}

impl Clone for TsNamespaceDecl {
    fn clone(&self) -> (r: Self)
        ensures
            self.same_as(r),
        decreases self,
    {
        TsNamespaceDecl {
            span: self.span,
            declare: self.declare,
            global: self.global,
            id: self.id.clone(),
            body: Box::new((*self.body).clone()),
        }
    }
}

impl Clone for TsModuleName {
    fn clone(&self) -> (r: Self)
        ensures
            r == *self,
        decreases self,
    {
        match self {
            TsModuleName::Ident(x) => TsModuleName::Ident(x.clone()),
            TsModuleName::Str(x) => TsModuleName::Str(x.clone()),
        }
    }
}

impl Clone for TsImportEqualsDecl {
    fn clone(&self) -> (r: Self)
        ensures
            r == *self,
        decreases self,
    {
        TsImportEqualsDecl {
            span: self.span,
            is_export: self.is_export,
            is_type_only: self.is_type_only,
            id: self.id.clone(),
            module_ref: self.module_ref.clone(),
        }
    }
}

impl Clone for TsModuleRef {
    fn clone(&self) -> (r: Self)
        ensures
            r == *self,
        decreases self,
    {
        match self {
            TsModuleRef::TsEntityName(x) => TsModuleRef::TsEntityName(x.clone()),
            TsModuleRef::TsExternalModuleRef(x) => TsModuleRef::TsExternalModuleRef(x.clone()),
        }
    }
}

impl Clone for TsExternalModuleRef {
    fn clone(&self) -> (r: Self)
        ensures
            r == *self,
        decreases self,
    {
        TsExternalModuleRef { span: self.span, expr: self.expr.clone() }
    }
}

impl TsExportAssignment {
    /// `self` and `other` are the same tree: equal leaves, and lists of
    /// the same length whose items are the same trees, in order.
    pub open spec fn same_as(self, other: Self) -> bool
        decreases self,
    {
        &&& self.span == other.span
        &&& (*self.expr).same_as((*other.expr))
    }

    /// Every tree is the same as itself.
    pub proof fn lemma_same_as_reflexive(&self)
        ensures
            self.same_as(*self),
        decreases self,
    {
        self.expr.lemma_same_as_reflexive();
    }
}

impl Clone for TsExportAssignment {
    fn clone(&self) -> (r: Self)
        ensures
            self.same_as(r),
        decreases self,
    {
        TsExportAssignment { span: self.span, expr: Box::new((*self.expr).clone()) }
    }
}

impl Clone for TsNamespaceExportDecl {
    fn clone(&self) -> (r: Self)
        ensures
            r == *self,
        decreases self,
    {
        TsNamespaceExportDecl { span: self.span, id: self.id.clone() }
    }
}

impl TsAsExpr {
    /// `self` and `other` are the same tree: equal leaves, and lists of
    /// the same length whose items are the same trees, in order.
    pub open spec fn same_as(self, other: Self) -> bool
        decreases self,
    {
        &&& self.span == other.span
        &&& (*self.expr).same_as((*other.expr))
        &&& (*self.type_ann).same_as((*other.type_ann))
    }

    /// Every tree is the same as itself.
    pub proof fn lemma_same_as_reflexive(&self)
        ensures
            self.same_as(*self),
        decreases self,
    {
        self.expr.lemma_same_as_reflexive();
        self.type_ann.lemma_same_as_reflexive();
    }
}

impl Clone for TsAsExpr {
    fn clone(&self) -> (r: Self)
        ensures
            self.same_as(r),
        decreases self,
    {
        TsAsExpr {
            span: self.span,
            expr: Box::new((*self.expr).clone()),
            type_ann: Box::new((*self.type_ann).clone()),
        }
    }
}

impl TsTypeAssertion {
    /// `self` and `other` are the same tree: equal leaves, and lists of
    /// the same length whose items are the same trees, in order.
    pub open spec fn same_as(self, other: Self) -> bool
        decreases self,
    {
        &&& self.span == other.span
        &&& (*self.expr).same_as((*other.expr))
        &&& (*self.type_ann).same_as((*other.type_ann))
    }

    /// Every tree is the same as itself.
    pub proof fn lemma_same_as_reflexive(&self)
        ensures
            self.same_as(*self),
        decreases self,
    {
        self.expr.lemma_same_as_reflexive();
        self.type_ann.lemma_same_as_reflexive();
    }
}

impl Clone for TsTypeAssertion {
    fn clone(&self) -> (r: Self)
        ensures
            self.same_as(r),
        decreases self,
    {
        TsTypeAssertion {
            span: self.span,
            expr: Box::new((*self.expr).clone()),
            type_ann: Box::new((*self.type_ann).clone()),
        }
    }
}

impl TsNonNullExpr {
    /// `self` and `other` are the same tree: equal leaves, and lists of
    /// the same length whose items are the same trees, in order.
    pub open spec fn same_as(self, other: Self) -> bool
        decreases self,
    {
        &&& self.span == other.span
        &&& (*self.expr).same_as((*other.expr))
    }

    /// Every tree is the same as itself.
    pub proof fn lemma_same_as_reflexive(&self)
        ensures
            self.same_as(*self),
        decreases self,
    {
        self.expr.lemma_same_as_reflexive();
    }
}

impl Clone for TsNonNullExpr {
    fn clone(&self) -> (r: Self)
        ensures
            self.same_as(r),
        decreases self,
    {
        TsNonNullExpr { span: self.span, expr: Box::new((*self.expr).clone()) }
    }
}

impl TsSatisfiesExpr {
    /// `self` and `other` are the same tree: equal leaves, and lists of
    /// the same length whose items are the same trees, in order.
    pub open spec fn same_as(self, other: Self) -> bool
        decreases self,
    {
        &&& self.span == other.span
        &&& (*self.expr).same_as((*other.expr))
        &&& (*self.type_ann).same_as((*other.type_ann))
    }

    /// Every tree is the same as itself.
    pub proof fn lemma_same_as_reflexive(&self)
        ensures
            self.same_as(*self),
        decreases self,
    {
        self.expr.lemma_same_as_reflexive();
        self.type_ann.lemma_same_as_reflexive();
    }
}

impl Clone for TsSatisfiesExpr {
    fn clone(&self) -> (r: Self)
        ensures
            self.same_as(r),
        decreases self,
    {
        TsSatisfiesExpr {
            span: self.span,
            expr: Box::new((*self.expr).clone()),
            type_ann: Box::new((*self.type_ann).clone()),
        }
    }
}

impl TsConstAssertion {
    /// `self` and `other` are the same tree: equal leaves, and lists of
    /// the same length whose items are the same trees, in order.
    pub open spec fn same_as(self, other: Self) -> bool
        decreases self,
    {
        &&& self.span == other.span
        &&& (*self.expr).same_as((*other.expr))
    }

    /// Every tree is the same as itself.
    pub proof fn lemma_same_as_reflexive(&self)
        ensures
            self.same_as(*self),
        decreases self,
    {
        self.expr.lemma_same_as_reflexive();
    }
}

impl Clone for TsConstAssertion {
    fn clone(&self) -> (r: Self)
        ensures
            self.same_as(r),
        decreases self,
    {
        TsConstAssertion { span: self.span, expr: Box::new((*self.expr).clone()) }
    }
}

impl TsInstantiation {
    /// `self` and `other` are the same tree: equal leaves, and lists of
    /// the same length whose items are the same trees, in order.
    pub open spec fn same_as(self, other: Self) -> bool
        decreases self,
    {
        &&& self.span == other.span
        &&& (*self.expr).same_as((*other.expr))
        &&& (*self.type_args).same_as((*other.type_args))
    }

    /// Every tree is the same as itself.
    pub proof fn lemma_same_as_reflexive(&self)
        ensures
            self.same_as(*self),
        decreases self,
    {
        self.expr.lemma_same_as_reflexive();
        self.type_args.lemma_same_as_reflexive();
    }
}

impl Clone for TsInstantiation {
    fn clone(&self) -> (r: Self)
        ensures
            self.same_as(r),
        decreases self,
    {
        TsInstantiation {
            span: self.span,
            expr: Box::new((*self.expr).clone()),
            type_args: Box::new((*self.type_args).clone()),
        }
    }
}
} // verus!
