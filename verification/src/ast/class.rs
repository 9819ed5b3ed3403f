use vstd::prelude::*;

use crate::ast::common::PrivateName;
use crate::ast::common::Span;
use crate::enums::Accessibility;
use crate::enums::MethodKind;
use crate::ast::expr::Expr;
use crate::ast::function::Function;
use crate::ast::function::FunctionBody;
use crate::ast::function::ParamOrTsParamProp;
use crate::ast::prop::PropName;
use crate::ast::stmt::BlockStmt;
use crate::ast::stmt::EmptyStmt;
use crate::ast::typescript::TsExprWithTypeArgs;
use crate::ast::typescript::TsIndexSignature;
use crate::ast::typescript::TsTypeAnn;
use crate::ast::typescript::TsTypeParamDecl;
use crate::ast::typescript::TsTypeParamInstantiation;

verus! {

#[derive(Debug, PartialEq, Eq)]
pub struct Class {
    pub span: Span,
    pub ctxt: u32,
    pub decorators: Vec<Decorator>,
    pub body: Vec<ClassMember>,
    pub super_class: Option<Box<Expr>>,
    pub is_abstract: bool,
    pub type_params: Option<Box<TsTypeParamDecl>>,
    pub super_type_params: Option<Box<TsTypeParamInstantiation>>,
    pub implements: Vec<TsExprWithTypeArgs>,
}

#[derive(Debug, PartialEq, Eq)]
pub enum ClassMember {
    Constructor(Constructor),
    Method(ClassMethod),
    PrivateMethod(PrivateMethod),
    ClassProp(ClassProp),
    PrivateProp(PrivateProp),
    TsIndexSignature(TsIndexSignature),
    Empty(EmptyStmt),
    StaticBlock(StaticBlock),
    AutoAccessor(AutoAccessor),
}

#[derive(Debug, PartialEq, Eq)]
pub struct ClassProp {
    pub span: Span,
    pub key: PropName,
    pub value: Option<Box<Expr>>,
    pub type_ann: Option<Box<TsTypeAnn>>,
    pub is_static: bool,
    pub decorators: Vec<Decorator>,
    pub accessibility: Option<Accessibility>,
    pub is_abstract: bool,
    pub is_optional: bool,
    pub is_override: bool,
    pub readonly: bool,
    pub declare: bool,
    pub definite: bool,
}

#[derive(Debug, PartialEq, Eq)]
pub struct PrivateProp {
    pub span: Span,
    pub ctxt: u32,
    pub key: PrivateName,
    pub value: Option<Box<Expr>>,
    pub type_ann: Option<Box<TsTypeAnn>>,
    pub is_static: bool,
    pub decorators: Vec<Decorator>,
    pub accessibility: Option<Accessibility>,
    pub is_optional: bool,
    pub is_override: bool,
    pub readonly: bool,
    pub definite: bool,
}

#[derive(Debug, PartialEq, Eq)]
pub struct ClassMethod {
    pub span: Span,
    pub key: PropName,
    pub function: Box<Function>,
    pub kind: MethodKind,
    pub is_static: bool,
    pub accessibility: Option<Accessibility>,
    pub is_abstract: bool,
    pub is_optional: bool,
    pub is_override: bool,
}

#[derive(Debug, PartialEq, Eq)]
pub struct PrivateMethod {
    pub span: Span,
    pub key: PrivateName,
    pub function: Box<Function>,
    pub kind: MethodKind,
    pub is_static: bool,
    pub accessibility: Option<Accessibility>,
    pub is_abstract: bool,
    pub is_optional: bool,
    pub is_override: bool,
}

#[derive(Debug, PartialEq, Eq)]
pub struct Constructor {
    pub span: Span,
    pub ctxt: u32,
    pub key: PropName,
    pub params: Vec<ParamOrTsParamProp>,
    pub body: Option<FunctionBody>,
    pub accessibility: Option<Accessibility>,
    pub is_optional: bool,
}

#[derive(Debug, PartialEq, Eq)]
pub struct Decorator {
    pub span: Span,
    pub expr: Box<Expr>,
}

#[derive(Debug, PartialEq, Eq)]
pub struct StaticBlock {
    pub span: Span,
    pub body: BlockStmt,
}

#[derive(Debug, PartialEq, Eq)]
pub enum Key {
    Private(PrivateName),
    Public(PropName),
}

#[derive(Debug, PartialEq, Eq)]
pub struct AutoAccessor {
    pub span: Span,
    pub key: Key,
    pub value: Option<Box<Expr>>,
    pub type_ann: Option<Box<TsTypeAnn>>,
    pub is_static: bool,
    pub decorators: Vec<Decorator>,
    pub accessibility: Option<Accessibility>,
    pub is_abstract: bool,
    pub is_override: bool,
    pub definite: bool,
}


impl Class {
    /// `self` and `other` are the same tree: equal leaves, and lists of
    /// the same length whose items are the same trees, in order.
    pub open spec fn same_as(self, other: Self) -> bool
        decreases self,
    {
        &&& self.span == other.span
        &&& self.ctxt == other.ctxt
        &&& (self.decorators@.len() == other.decorators@.len() && forall|i0: int| #![trigger self.decorators@[i0]] 0 <= i0 < self.decorators@.len() ==> self.decorators@[i0].same_as(other.decorators@[i0]))
        &&& (self.body@.len() == other.body@.len() && forall|i0: int| #![trigger self.body@[i0]] 0 <= i0 < self.body@.len() ==> self.body@[i0].same_as(other.body@[i0]))
        &&& (match self.super_class { None => other.super_class is None, Some(x0) => other.super_class is Some && (*x0).same_as((*other.super_class->Some_0)) })
        &&& self.is_abstract == other.is_abstract
        &&& (match self.type_params { None => other.type_params is None, Some(x0) => other.type_params is Some && (*x0).same_as((*other.type_params->Some_0)) })
        &&& (match self.super_type_params { None => other.super_type_params is None, Some(x0) => other.super_type_params is Some && (*x0).same_as((*other.super_type_params->Some_0)) })
        &&& (self.implements@.len() == other.implements@.len() && forall|i0: int| #![trigger self.implements@[i0]] 0 <= i0 < self.implements@.len() ==> self.implements@[i0].same_as(other.implements@[i0]))
    }

    /// Every tree is the same as itself.
    pub proof fn lemma_same_as_reflexive(&self)
        ensures
            self.same_as(*self),
        decreases self,
    {
        assert forall|i0: int| #![trigger self.decorators@[i0]] 0 <= i0 < self.decorators@.len() implies self.decorators@[i0].same_as(self.decorators@[i0]) by {
            assert(decreases_to!(self => self.decorators));
            assert(decreases_to!(self.decorators => self.decorators@));
            assert(decreases_to!(self.decorators@ => self.decorators@[i0]));
            self.decorators@[i0].lemma_same_as_reflexive();
        }
        assert forall|i0: int| #![trigger self.body@[i0]] 0 <= i0 < self.body@.len() implies self.body@[i0].same_as(self.body@[i0]) by {
            assert(decreases_to!(self => self.body));
            assert(decreases_to!(self.body => self.body@));
            assert(decreases_to!(self.body@ => self.body@[i0]));
            self.body@[i0].lemma_same_as_reflexive();
        }
        if let Some(x0) = &self.super_class {
            x0.lemma_same_as_reflexive();
        }
        if let Some(x0) = &self.type_params {
            x0.lemma_same_as_reflexive();
        }
        if let Some(x0) = &self.super_type_params {
            x0.lemma_same_as_reflexive();
        }
        assert forall|i0: int| #![trigger self.implements@[i0]] 0 <= i0 < self.implements@.len() implies self.implements@[i0].same_as(self.implements@[i0]) by {
            assert(decreases_to!(self => self.implements));
            assert(decreases_to!(self.implements => self.implements@));
            assert(decreases_to!(self.implements@ => self.implements@[i0]));
            self.implements@[i0].lemma_same_as_reflexive();
        }
    }
}

impl Clone for Class {
    fn clone(&self) -> (r: Self)
        ensures
            self.same_as(r),
        decreases self,
    {
        let mut decorators: Vec<Decorator> = Vec::new();
        let mut i: usize = 0;
        while i < self.decorators.len()
            invariant
                i <= self.decorators@.len(),
                decorators@.len() == i,
                forall|j: int| #![trigger decorators@[j]] 0 <= j < i ==> self.decorators@[j].same_as(decorators@[j]),
            decreases self.decorators@.len() - i,
        {
            proof {
                assert(decreases_to!(self => self.decorators));
                assert(decreases_to!(self.decorators => self.decorators@));
                assert(decreases_to!(self.decorators@ => self.decorators@[i as int]));
            }
            decorators.push(self.decorators[i].clone());
            i += 1;
        }
        let mut body: Vec<ClassMember> = Vec::new();
        let mut i: usize = 0;
        while i < self.body.len()
            invariant
                i <= self.body@.len(),
                body@.len() == i,
                forall|j: int| #![trigger body@[j]] 0 <= j < i ==> self.body@[j].same_as(body@[j]),
            decreases self.body@.len() - i,
        {
            proof {
                assert(decreases_to!(self => self.body));
                assert(decreases_to!(self.body => self.body@));
                assert(decreases_to!(self.body@ => self.body@[i as int]));
            }
            body.push(self.body[i].clone());
            i += 1;
        }
        let super_class = match &self.super_class {
            None => None,
            Some(x) => Some(Box::new((**x).clone())),
        };
        let type_params = match &self.type_params {
            None => None,
            Some(x) => Some(Box::new((**x).clone())),
        };
        let super_type_params = match &self.super_type_params {
            None => None,
            Some(x) => Some(Box::new((**x).clone())),
        };
        let mut implements: Vec<TsExprWithTypeArgs> = Vec::new();
        let mut i: usize = 0;
        while i < self.implements.len()
            invariant
                i <= self.implements@.len(),
                implements@.len() == i,
                forall|j: int| #![trigger implements@[j]] 0 <= j < i ==> self.implements@[j].same_as(implements@[j]),
            decreases self.implements@.len() - i,
        {
            proof {
                assert(decreases_to!(self => self.implements));
                assert(decreases_to!(self.implements => self.implements@));
                assert(decreases_to!(self.implements@ => self.implements@[i as int]));
            }
            implements.push(self.implements[i].clone());
            i += 1;
        }
        Class {
            span: self.span,
            ctxt: self.ctxt,
            decorators,
            body,
            super_class,
            is_abstract: self.is_abstract,
            type_params,
            super_type_params,
            implements,
        }
    }
}

impl ClassMember {
    /// `self` and `other` are the same tree: equal leaves, and lists of
    /// the same length whose items are the same trees, in order.
    pub open spec fn same_as(self, other: Self) -> bool
        decreases self,
    {
        match self {
            ClassMember::Constructor(x) => other is Constructor && x.same_as(other->Constructor_0),
            ClassMember::Method(x) => other is Method && x.same_as(other->Method_0),
            ClassMember::PrivateMethod(x) => other is PrivateMethod && x.same_as(other->PrivateMethod_0),
            ClassMember::ClassProp(x) => other is ClassProp && x.same_as(other->ClassProp_0),
            ClassMember::PrivateProp(x) => other is PrivateProp && x.same_as(other->PrivateProp_0),
            ClassMember::TsIndexSignature(x) => other is TsIndexSignature && x.same_as(other->TsIndexSignature_0),
            ClassMember::Empty(x) => other is Empty && x == other->Empty_0,
            ClassMember::StaticBlock(x) => other is StaticBlock && x.same_as(other->StaticBlock_0),
            ClassMember::AutoAccessor(x) => other is AutoAccessor && x.same_as(other->AutoAccessor_0),
        }
    }

    /// Every tree is the same as itself.
    pub proof fn lemma_same_as_reflexive(&self)
        ensures
            self.same_as(*self),
        decreases self,
    {
        match self {
            ClassMember::Constructor(x) => {
                x.lemma_same_as_reflexive();
            },
            ClassMember::Method(x) => {
                x.lemma_same_as_reflexive();
            },
            ClassMember::PrivateMethod(x) => {
                x.lemma_same_as_reflexive();
            },
            ClassMember::ClassProp(x) => {
                x.lemma_same_as_reflexive();
            },
            ClassMember::PrivateProp(x) => {
                x.lemma_same_as_reflexive();
            },
            ClassMember::TsIndexSignature(x) => {
                x.lemma_same_as_reflexive();
            },
            ClassMember::Empty(x) => {
            },
            ClassMember::StaticBlock(x) => {
                x.lemma_same_as_reflexive();
            },
            ClassMember::AutoAccessor(x) => {
                x.lemma_same_as_reflexive();
            },
        }
    }
}

impl Clone for ClassMember {
    fn clone(&self) -> (r: Self)
        ensures
            self.same_as(r),
        decreases self,
    {
        match self {
            ClassMember::Constructor(x) => ClassMember::Constructor(x.clone()),
            ClassMember::Method(x) => ClassMember::Method(x.clone()),
            ClassMember::PrivateMethod(x) => ClassMember::PrivateMethod(x.clone()),
            ClassMember::ClassProp(x) => ClassMember::ClassProp(x.clone()),
            ClassMember::PrivateProp(x) => ClassMember::PrivateProp(x.clone()),
            ClassMember::TsIndexSignature(x) => ClassMember::TsIndexSignature(x.clone()),
            ClassMember::Empty(x) => ClassMember::Empty(x.clone()),
            ClassMember::StaticBlock(x) => ClassMember::StaticBlock(x.clone()),
            ClassMember::AutoAccessor(x) => ClassMember::AutoAccessor(x.clone()),
        }
    }
}

impl ClassProp {
    /// `self` and `other` are the same tree: equal leaves, and lists of
    /// the same length whose items are the same trees, in order.
    pub open spec fn same_as(self, other: Self) -> bool
        decreases self,
    {
        &&& self.span == other.span
        &&& self.key.same_as(other.key)
        &&& (match self.value { None => other.value is None, Some(x0) => other.value is Some && (*x0).same_as((*other.value->Some_0)) })
        &&& (match self.type_ann { None => other.type_ann is None, Some(x0) => other.type_ann is Some && (*x0).same_as((*other.type_ann->Some_0)) })
        &&& self.is_static == other.is_static
        &&& (self.decorators@.len() == other.decorators@.len() && forall|i0: int| #![trigger self.decorators@[i0]] 0 <= i0 < self.decorators@.len() ==> self.decorators@[i0].same_as(other.decorators@[i0]))
        &&& self.accessibility == other.accessibility
        &&& self.is_abstract == other.is_abstract
        &&& self.is_optional == other.is_optional
        &&& self.is_override == other.is_override
        &&& self.readonly == other.readonly
        &&& self.declare == other.declare
        &&& self.definite == other.definite
    }

    /// Every tree is the same as itself.
    pub proof fn lemma_same_as_reflexive(&self)
        ensures
            self.same_as(*self),
        decreases self,
    {
        self.key.lemma_same_as_reflexive();
        if let Some(x0) = &self.value {
            x0.lemma_same_as_reflexive();
        }
        if let Some(x0) = &self.type_ann {
            x0.lemma_same_as_reflexive();
        }
        assert forall|i0: int| #![trigger self.decorators@[i0]] 0 <= i0 < self.decorators@.len() implies self.decorators@[i0].same_as(self.decorators@[i0]) by {
            assert(decreases_to!(self => self.decorators));
            assert(decreases_to!(self.decorators => self.decorators@));
            assert(decreases_to!(self.decorators@ => self.decorators@[i0]));
            self.decorators@[i0].lemma_same_as_reflexive();
        }
    }
}

impl Clone for ClassProp {
    fn clone(&self) -> (r: Self)
        ensures
            self.same_as(r),
        decreases self,
    {
        let value = match &self.value {
            None => None,
            Some(x) => Some(Box::new((**x).clone())),
        };
        let type_ann = match &self.type_ann {
            None => None,
            Some(x) => Some(Box::new((**x).clone())),
        };
        let mut decorators: Vec<Decorator> = Vec::new();
        let mut i: usize = 0;
        while i < self.decorators.len()
            invariant
                i <= self.decorators@.len(),
                decorators@.len() == i,
                forall|j: int| #![trigger decorators@[j]] 0 <= j < i ==> self.decorators@[j].same_as(decorators@[j]),
            decreases self.decorators@.len() - i,
        {
            proof {
                assert(decreases_to!(self => self.decorators));
                assert(decreases_to!(self.decorators => self.decorators@));
                assert(decreases_to!(self.decorators@ => self.decorators@[i as int]));
            }
            decorators.push(self.decorators[i].clone());
            i += 1;
        }
        ClassProp {
            span: self.span,
            key: self.key.clone(),
            value,
            type_ann,
            is_static: self.is_static,
            decorators,
            accessibility: self.accessibility,
            is_abstract: self.is_abstract,
            is_optional: self.is_optional,
            is_override: self.is_override,
            readonly: self.readonly,
            declare: self.declare,
            definite: self.definite,
        }
    }
}

impl PrivateProp {
    /// `self` and `other` are the same tree: equal leaves, and lists of
    /// the same length whose items are the same trees, in order.
    pub open spec fn same_as(self, other: Self) -> bool
        decreases self,
    {
        &&& self.span == other.span
        &&& self.ctxt == other.ctxt
        &&& self.key == other.key
        &&& (match self.value { None => other.value is None, Some(x0) => other.value is Some && (*x0).same_as((*other.value->Some_0)) })
        &&& (match self.type_ann { None => other.type_ann is None, Some(x0) => other.type_ann is Some && (*x0).same_as((*other.type_ann->Some_0)) })
        &&& self.is_static == other.is_static
        &&& (self.decorators@.len() == other.decorators@.len() && forall|i0: int| #![trigger self.decorators@[i0]] 0 <= i0 < self.decorators@.len() ==> self.decorators@[i0].same_as(other.decorators@[i0]))
        &&& self.accessibility == other.accessibility
        &&& self.is_optional == other.is_optional
        &&& self.is_override == other.is_override
        &&& self.readonly == other.readonly
        &&& self.definite == other.definite
    }

    /// Every tree is the same as itself.
    pub proof fn lemma_same_as_reflexive(&self)
        ensures
            self.same_as(*self),
        decreases self,
    {
        if let Some(x0) = &self.value {
            x0.lemma_same_as_reflexive();
        }
        if let Some(x0) = &self.type_ann {
            x0.lemma_same_as_reflexive();
        }
        assert forall|i0: int| #![trigger self.decorators@[i0]] 0 <= i0 < self.decorators@.len() implies self.decorators@[i0].same_as(self.decorators@[i0]) by {
            assert(decreases_to!(self => self.decorators));
            assert(decreases_to!(self.decorators => self.decorators@));
            assert(decreases_to!(self.decorators@ => self.decorators@[i0]));
            self.decorators@[i0].lemma_same_as_reflexive();
        }
    }
}

impl Clone for PrivateProp {
    fn clone(&self) -> (r: Self)
        ensures
            self.same_as(r),
        decreases self,
    {
        let value = match &self.value {
            None => None,
            Some(x) => Some(Box::new((**x).clone())),
        };
        let type_ann = match &self.type_ann {
            None => None,
            Some(x) => Some(Box::new((**x).clone())),
        };
        let mut decorators: Vec<Decorator> = Vec::new();
        let mut i: usize = 0;
        while i < self.decorators.len()
            invariant
                i <= self.decorators@.len(),
                decorators@.len() == i,
                forall|j: int| #![trigger decorators@[j]] 0 <= j < i ==> self.decorators@[j].same_as(decorators@[j]),
            decreases self.decorators@.len() - i,
        {
            proof {
                assert(decreases_to!(self => self.decorators));
                assert(decreases_to!(self.decorators => self.decorators@));
                assert(decreases_to!(self.decorators@ => self.decorators@[i as int]));
            }
            decorators.push(self.decorators[i].clone());
            i += 1;
        }
        PrivateProp {
            span: self.span,
            ctxt: self.ctxt,
            key: self.key.clone(),
            value,
            type_ann,
            is_static: self.is_static,
            decorators,
            accessibility: self.accessibility,
            is_optional: self.is_optional,
            is_override: self.is_override,
            readonly: self.readonly,
            definite: self.definite,
        }
    }
}

impl ClassMethod {
    /// `self` and `other` are the same tree: equal leaves, and lists of
    /// the same length whose items are the same trees, in order.
    pub open spec fn same_as(self, other: Self) -> bool
        decreases self,
    {
        &&& self.span == other.span
        &&& self.key.same_as(other.key)
        &&& (*self.function).same_as((*other.function))
        &&& self.kind == other.kind
        &&& self.is_static == other.is_static
        &&& self.accessibility == other.accessibility
        &&& self.is_abstract == other.is_abstract
        &&& self.is_optional == other.is_optional
        &&& self.is_override == other.is_override
    }

    /// Every tree is the same as itself.
    pub proof fn lemma_same_as_reflexive(&self)
        ensures
            self.same_as(*self),
        decreases self,
    {
        self.key.lemma_same_as_reflexive();
        self.function.lemma_same_as_reflexive();
    }
}

impl Clone for ClassMethod {
    fn clone(&self) -> (r: Self)
        ensures
            self.same_as(r),
        decreases self,
    {
        ClassMethod {
            span: self.span,
            key: self.key.clone(),
            function: Box::new((*self.function).clone()),
            kind: self.kind,
            is_static: self.is_static,
            accessibility: self.accessibility,
            is_abstract: self.is_abstract,
            is_optional: self.is_optional,
            is_override: self.is_override,
        }
    }
}

impl PrivateMethod {
    /// `self` and `other` are the same tree: equal leaves, and lists of
    /// the same length whose items are the same trees, in order.
    pub open spec fn same_as(self, other: Self) -> bool
        decreases self,
    {
        &&& self.span == other.span
        &&& self.key == other.key
        &&& (*self.function).same_as((*other.function))
        &&& self.kind == other.kind
        &&& self.is_static == other.is_static
        &&& self.accessibility == other.accessibility
        &&& self.is_abstract == other.is_abstract
        &&& self.is_optional == other.is_optional
        &&& self.is_override == other.is_override
    }

    /// Every tree is the same as itself.
    pub proof fn lemma_same_as_reflexive(&self)
        ensures
            self.same_as(*self),
        decreases self,
    {
        self.function.lemma_same_as_reflexive();
    }
}

impl Clone for PrivateMethod {
    fn clone(&self) -> (r: Self)
        ensures
            self.same_as(r),
        decreases self,
    {
        PrivateMethod {
            span: self.span,
            key: self.key.clone(),
            function: Box::new((*self.function).clone()),
            kind: self.kind,
            is_static: self.is_static,
            accessibility: self.accessibility,
            is_abstract: self.is_abstract,
            is_optional: self.is_optional,
            is_override: self.is_override,
        }
    }
}

impl Constructor {
    /// `self` and `other` are the same tree: equal leaves, and lists of
    /// the same length whose items are the same trees, in order.
    pub open spec fn same_as(self, other: Self) -> bool
        decreases self,
    {
        &&& self.span == other.span
        &&& self.ctxt == other.ctxt
        &&& self.key.same_as(other.key)
        &&& (self.params@.len() == other.params@.len() && forall|i0: int| #![trigger self.params@[i0]] 0 <= i0 < self.params@.len() ==> self.params@[i0].same_as(other.params@[i0]))
        &&& (match self.body { None => other.body is None, Some(x0) => other.body is Some && x0.same_as(other.body->Some_0) })
        &&& self.accessibility == other.accessibility
        &&& self.is_optional == other.is_optional
    }

    /// Every tree is the same as itself.
    pub proof fn lemma_same_as_reflexive(&self)
        ensures
            self.same_as(*self),
        decreases self,
    {
        self.key.lemma_same_as_reflexive();
        assert forall|i0: int| #![trigger self.params@[i0]] 0 <= i0 < self.params@.len() implies self.params@[i0].same_as(self.params@[i0]) by {
            assert(decreases_to!(self => self.params));
            assert(decreases_to!(self.params => self.params@));
            assert(decreases_to!(self.params@ => self.params@[i0]));
            self.params@[i0].lemma_same_as_reflexive();
        }
        if let Some(x0) = &self.body {
            x0.lemma_same_as_reflexive();
        }
    }
}

impl Clone for Constructor {
    fn clone(&self) -> (r: Self)
        ensures
            self.same_as(r),
        decreases self,
    {
        let mut params: Vec<ParamOrTsParamProp> = Vec::new();
        let mut i: usize = 0;
        while i < self.params.len()
            invariant
                i <= self.params@.len(),
                params@.len() == i,
                forall|j: int| #![trigger params@[j]] 0 <= j < i ==> self.params@[j].same_as(params@[j]),
            decreases self.params@.len() - i,
        {
            proof {
                assert(decreases_to!(self => self.params));
                assert(decreases_to!(self.params => self.params@));
                assert(decreases_to!(self.params@ => self.params@[i as int]));
            }
            params.push(self.params[i].clone());
            i += 1;
        }
        let body = match &self.body {
            None => None,
            Some(x) => Some(x.clone()),
        };
        Constructor {
            span: self.span,
            ctxt: self.ctxt,
            key: self.key.clone(),
            params,
            body,
            accessibility: self.accessibility,
            is_optional: self.is_optional,
        }
    }
}

impl Decorator {
    /// `self` and `other` are the same tree: equal leaves, and lists of
    /// the same length whose items are the same trees, in order.
    pub open spec fn same_as(self, other: Self) -> bool
        decreases self,
    {
        &&& self.span == other.span
        &&& (*self.expr).same_as((*other.expr))
    }

    /// Every tree is the same as itself.
    pub proof fn lemma_same_as_reflexive(&self)
        ensures
            self.same_as(*self),
        decreases self,
    {
        self.expr.lemma_same_as_reflexive();
    }
}

impl Clone for Decorator {
    fn clone(&self) -> (r: Self)
        ensures
            self.same_as(r),
        decreases self,
    {
        Decorator { span: self.span, expr: Box::new((*self.expr).clone()) }
    }
}

impl StaticBlock {
    /// `self` and `other` are the same tree: equal leaves, and lists of
    /// the same length whose items are the same trees, in order.
    pub open spec fn same_as(self, other: Self) -> bool
        decreases self,
    {
        &&& self.span == other.span
        &&& self.body.same_as(other.body)
    }

    /// Every tree is the same as itself.
    pub proof fn lemma_same_as_reflexive(&self)
        ensures
            self.same_as(*self),
        decreases self,
    {
        self.body.lemma_same_as_reflexive();
    }
}

impl Clone for StaticBlock {
    fn clone(&self) -> (r: Self)
        ensures
            self.same_as(r),
        decreases self,
    {
        StaticBlock { span: self.span, body: self.body.clone() }
    }
}

impl Key {
    /// `self` and `other` are the same tree: equal leaves, and lists of
    /// the same length whose items are the same trees, in order.
    pub open spec fn same_as(self, other: Self) -> bool
        decreases self,
    {
        match self {
            Key::Private(x) => other is Private && x == other->Private_0,
            Key::Public(x) => other is Public && x.same_as(other->Public_0),
        }
    }

    /// Every tree is the same as itself.
    pub proof fn lemma_same_as_reflexive(&self)
        ensures
            self.same_as(*self),
        decreases self,
    {
        match self {
            Key::Private(x) => {
            },
            Key::Public(x) => {
                x.lemma_same_as_reflexive();
            },
        }
    }
}

impl Clone for Key {
    fn clone(&self) -> (r: Self)
        ensures
            self.same_as(r),
        decreases self,
    {
        match self {
            Key::Private(x) => Key::Private(x.clone()),
            Key::Public(x) => Key::Public(x.clone()),
        }
    }
}

impl AutoAccessor {
    /// `self` and `other` are the same tree: equal leaves, and lists of
    /// the same length whose items are the same trees, in order.
    pub open spec fn same_as(self, other: Self) -> bool
        decreases self,
    {
        &&& self.span == other.span
        &&& self.key.same_as(other.key)
        &&& (match self.value { None => other.value is None, Some(x0) => other.value is Some && (*x0).same_as((*other.value->Some_0)) })
        &&& (match self.type_ann { None => other.type_ann is None, Some(x0) => other.type_ann is Some && (*x0).same_as((*other.type_ann->Some_0)) })
        &&& self.is_static == other.is_static
        &&& (self.decorators@.len() == other.decorators@.len() && forall|i0: int| #![trigger self.decorators@[i0]] 0 <= i0 < self.decorators@.len() ==> self.decorators@[i0].same_as(other.decorators@[i0]))
        &&& self.accessibility == other.accessibility
        &&& self.is_abstract == other.is_abstract
        &&& self.is_override == other.is_override
        &&& self.definite == other.definite
    }

    /// Every tree is the same as itself.
    pub proof fn lemma_same_as_reflexive(&self)
        ensures
            self.same_as(*self),
        decreases self,
    {
        self.key.lemma_same_as_reflexive();
        if let Some(x0) = &self.value {
            x0.lemma_same_as_reflexive();
        }
        if let Some(x0) = &self.type_ann {
            x0.lemma_same_as_reflexive();
        }
        assert forall|i0: int| #![trigger self.decorators@[i0]] 0 <= i0 < self.decorators@.len() implies self.decorators@[i0].same_as(self.decorators@[i0]) by {
            assert(decreases_to!(self => self.decorators));
            assert(decreases_to!(self.decorators => self.decorators@));
            assert(decreases_to!(self.decorators@ => self.decorators@[i0]));
            self.decorators@[i0].lemma_same_as_reflexive();
        }
    }
}

impl Clone for AutoAccessor {
    fn clone(&self) -> (r: Self)
        ensures
            self.same_as(r),
        decreases self,
    {
        let value = match &self.value {
            None => None,
            Some(x) => Some(Box::new((**x).clone())),
        };
        let type_ann = match &self.type_ann {
            None => None,
            Some(x) => Some(Box::new((**x).clone())),
        };
        let mut decorators: Vec<Decorator> = Vec::new();
        let mut i: usize = 0;
        while i < self.decorators.len()
            invariant
                i <= self.decorators@.len(),
                decorators@.len() == i,
                forall|j: int| #![trigger decorators@[j]] 0 <= j < i ==> self.decorators@[j].same_as(decorators@[j]),
            decreases self.decorators@.len() - i,
        {
            proof {
                assert(decreases_to!(self => self.decorators));
                assert(decreases_to!(self.decorators => self.decorators@));
                assert(decreases_to!(self.decorators@ => self.decorators@[i as int]));
            }
            decorators.push(self.decorators[i].clone());
            i += 1;
        }
        AutoAccessor {
            span: self.span,
            key: self.key.clone(),
            value,
            type_ann,
            is_static: self.is_static,
            decorators,
            accessibility: self.accessibility,
            is_abstract: self.is_abstract,
            is_override: self.is_override,
            definite: self.definite,
        }
    }
}
} // verus!
