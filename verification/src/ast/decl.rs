use vstd::prelude::*;

use crate::ast::class::Class;
use crate::ast::common::Ident;
use crate::ast::common::Span;
use crate::enums::VarDeclKind;
use crate::ast::expr::Expr;
use crate::ast::function::Function;
use crate::ast::pat::Pat;
use crate::ast::typescript::TsEnumDecl;
use crate::ast::typescript::TsInterfaceDecl;
use crate::ast::typescript::TsModuleDecl;
use crate::ast::typescript::TsTypeAliasDecl;

verus! {

#[derive(Debug, PartialEq, Eq)]
pub enum Decl {
    Class(ClassDecl),
    Fn(FnDecl),
    Var(Box<VarDecl>),
    Using(Box<UsingDecl>),
    TsInterface(Box<TsInterfaceDecl>),
    TsTypeAlias(Box<TsTypeAliasDecl>),
    TsEnum(Box<TsEnumDecl>),
    TsModule(Box<TsModuleDecl>),
}

#[derive(Debug, PartialEq, Eq)]
pub struct FnDecl {
    pub ident: Ident,
    pub declare: bool,
    pub function: Box<Function>,
}

#[derive(Debug, PartialEq, Eq)]
pub struct ClassDecl {
    pub ident: Ident,
    pub declare: bool,
    pub class: Box<Class>,
}

#[derive(Debug, PartialEq, Eq)]
pub struct VarDecl {
    pub span: Span,
    pub ctxt: u32,
    pub kind: VarDeclKind,
    pub declare: bool,
    pub decls: Vec<VarDeclarator>,
}

#[derive(Debug, PartialEq, Eq)]
pub struct VarDeclarator {
    pub span: Span,
    pub name: Pat,
    pub init: Option<Box<Expr>>,
    pub definite: bool,
}

#[derive(Debug, PartialEq, Eq)]
pub struct UsingDecl {
    pub span: Span,
    pub is_await: bool,
    pub decls: Vec<VarDeclarator>,
}


impl Decl {
    /// `self` and `other` are the same tree: equal leaves, and lists of
    /// the same length whose items are the same trees, in order.
    pub open spec fn same_as(self, other: Self) -> bool
        decreases self,
    {
        match self {
            Decl::Class(x) => other is Class && x.same_as(other->Class_0),
            Decl::Fn(x) => other is Fn && x.same_as(other->Fn_0),
            Decl::Var(x) => other is Var && (*x).same_as((*other->Var_0)),
            Decl::Using(x) => other is Using && (*x).same_as((*other->Using_0)),
            Decl::TsInterface(x) => other is TsInterface && (*x).same_as((*other->TsInterface_0)),
            Decl::TsTypeAlias(x) => other is TsTypeAlias && (*x).same_as((*other->TsTypeAlias_0)),
            Decl::TsEnum(x) => other is TsEnum && (*x).same_as((*other->TsEnum_0)),
            Decl::TsModule(x) => other is TsModule && (*x).same_as((*other->TsModule_0)),
        }
    }

    /// Every tree is the same as itself.
    pub proof fn lemma_same_as_reflexive(&self)
        ensures
            self.same_as(*self),
        decreases self,
    {
        match self {
            Decl::Class(x) => {
                x.lemma_same_as_reflexive();
            },
            Decl::Fn(x) => {
                x.lemma_same_as_reflexive();
            },
            Decl::Var(x) => {
                x.lemma_same_as_reflexive();
            },
            Decl::Using(x) => {
                x.lemma_same_as_reflexive();
            },
            Decl::TsInterface(x) => {
                x.lemma_same_as_reflexive();
            },
            Decl::TsTypeAlias(x) => {
                x.lemma_same_as_reflexive();
            },
            Decl::TsEnum(x) => {
                x.lemma_same_as_reflexive();
            },
            Decl::TsModule(x) => {
                x.lemma_same_as_reflexive();
            },
        }
    }
}

impl Clone for Decl {
    fn clone(&self) -> (r: Self)
        ensures
            self.same_as(r),
        decreases self,
    {
        match self {
            Decl::Class(x) => Decl::Class(x.clone()),
            Decl::Fn(x) => Decl::Fn(x.clone()),
            Decl::Var(x) => Decl::Var(Box::new((**x).clone())),
            Decl::Using(x) => Decl::Using(Box::new((**x).clone())),
            Decl::TsInterface(x) => Decl::TsInterface(Box::new((**x).clone())),
            Decl::TsTypeAlias(x) => Decl::TsTypeAlias(Box::new((**x).clone())),
            Decl::TsEnum(x) => Decl::TsEnum(Box::new((**x).clone())),
            Decl::TsModule(x) => Decl::TsModule(Box::new((**x).clone())),
        }
    }
}

impl FnDecl {
    /// `self` and `other` are the same tree: equal leaves, and lists of
    /// the same length whose items are the same trees, in order.
    pub open spec fn same_as(self, other: Self) -> bool
        decreases self,
    {
        &&& self.ident == other.ident
        &&& self.declare == other.declare
        &&& (*self.function).same_as((*other.function))
    }

    /// Every tree is the same as itself.
    pub proof fn lemma_same_as_reflexive(&self)
        ensures
            self.same_as(*self),
        decreases self,
    {
        self.function.lemma_same_as_reflexive();
    }
}

impl Clone for FnDecl {
    fn clone(&self) -> (r: Self)
        ensures
            self.same_as(r),
        decreases self,
    {
        FnDecl {
            ident: self.ident.clone(),
            declare: self.declare,
            function: Box::new((*self.function).clone()),
        }
    }
}

impl ClassDecl {
    /// `self` and `other` are the same tree: equal leaves, and lists of
    /// the same length whose items are the same trees, in order.
    pub open spec fn same_as(self, other: Self) -> bool
        decreases self,
    {
        &&& self.ident == other.ident
        &&& self.declare == other.declare
        &&& (*self.class).same_as((*other.class))
    }

    /// Every tree is the same as itself.
    pub proof fn lemma_same_as_reflexive(&self)
        ensures
            self.same_as(*self),
        decreases self,
    {
        self.class.lemma_same_as_reflexive();
    }
}

impl Clone for ClassDecl {
    fn clone(&self) -> (r: Self)
        ensures
            self.same_as(r),
        decreases self,
    {
        ClassDecl {
            ident: self.ident.clone(),
            declare: self.declare,
            class: Box::new((*self.class).clone()),
        }
    }
}

impl VarDecl {
    /// `self` and `other` are the same tree: equal leaves, and lists of
    /// the same length whose items are the same trees, in order.
    pub open spec fn same_as(self, other: Self) -> bool
        decreases self,
    {
        &&& self.span == other.span
        &&& self.ctxt == other.ctxt
        &&& self.kind == other.kind
        &&& self.declare == other.declare
        &&& (self.decls@.len() == other.decls@.len() && forall|i0: int| #![trigger self.decls@[i0]] 0 <= i0 < self.decls@.len() ==> self.decls@[i0].same_as(other.decls@[i0]))
    }

    /// Every tree is the same as itself.
    pub proof fn lemma_same_as_reflexive(&self)
        ensures
            self.same_as(*self),
        decreases self,
    {
        assert forall|i0: int| #![trigger self.decls@[i0]] 0 <= i0 < self.decls@.len() implies self.decls@[i0].same_as(self.decls@[i0]) by {
            assert(decreases_to!(self => self.decls));
            assert(decreases_to!(self.decls => self.decls@));
            assert(decreases_to!(self.decls@ => self.decls@[i0]));
            self.decls@[i0].lemma_same_as_reflexive();
        }
    }
}

impl Clone for VarDecl {
    fn clone(&self) -> (r: Self)
        ensures
            self.same_as(r),
        decreases self,
    {
        let mut decls: Vec<VarDeclarator> = Vec::new();
        let mut i: usize = 0;
        while i < self.decls.len()
            invariant
                i <= self.decls@.len(),
                decls@.len() == i,
                forall|j: int| #![trigger decls@[j]] 0 <= j < i ==> self.decls@[j].same_as(decls@[j]),
            decreases self.decls@.len() - i,
        {
            proof {
                assert(decreases_to!(self => self.decls));
                assert(decreases_to!(self.decls => self.decls@));
                assert(decreases_to!(self.decls@ => self.decls@[i as int]));
            }
            decls.push(self.decls[i].clone());
            i += 1;
        }
        VarDecl { span: self.span, ctxt: self.ctxt, kind: self.kind, declare: self.declare, decls }
    }
}

impl VarDeclarator {
    /// `self` and `other` are the same tree: equal leaves, and lists of
    /// the same length whose items are the same trees, in order.
    pub open spec fn same_as(self, other: Self) -> bool
        decreases self,
    {
        &&& self.span == other.span
        &&& self.name.same_as(other.name)
        &&& (match self.init { None => other.init is None, Some(x0) => other.init is Some && (*x0).same_as((*other.init->Some_0)) })
        &&& self.definite == other.definite
    }

    /// Every tree is the same as itself.
    pub proof fn lemma_same_as_reflexive(&self)
        ensures
            self.same_as(*self),
        decreases self,
    {
        self.name.lemma_same_as_reflexive();
        if let Some(x0) = &self.init {
            x0.lemma_same_as_reflexive();
        }
    }
}

impl Clone for VarDeclarator {
    fn clone(&self) -> (r: Self)
        ensures
            self.same_as(r),
        decreases self,
    {
        let init = match &self.init {
            None => None,
            Some(x) => Some(Box::new((**x).clone())),
        };
        VarDeclarator { span: self.span, name: self.name.clone(), init, definite: self.definite }
    }
}

impl UsingDecl {
    /// `self` and `other` are the same tree: equal leaves, and lists of
    /// the same length whose items are the same trees, in order.
    pub open spec fn same_as(self, other: Self) -> bool
        decreases self,
    {
        &&& self.span == other.span
        &&& self.is_await == other.is_await
        &&& (self.decls@.len() == other.decls@.len() && forall|i0: int| #![trigger self.decls@[i0]] 0 <= i0 < self.decls@.len() ==> self.decls@[i0].same_as(other.decls@[i0]))
    }

    /// Every tree is the same as itself.
    pub proof fn lemma_same_as_reflexive(&self)
        ensures
            self.same_as(*self),
        decreases self,
    {
        assert forall|i0: int| #![trigger self.decls@[i0]] 0 <= i0 < self.decls@.len() implies self.decls@[i0].same_as(self.decls@[i0]) by {
            assert(decreases_to!(self => self.decls));
            assert(decreases_to!(self.decls => self.decls@));
            assert(decreases_to!(self.decls@ => self.decls@[i0]));
            self.decls@[i0].lemma_same_as_reflexive();
        }
    }
}

impl Clone for UsingDecl {
    fn clone(&self) -> (r: Self)
        ensures
            self.same_as(r),
        decreases self,
    {
        let mut decls: Vec<VarDeclarator> = Vec::new();
        let mut i: usize = 0;
        while i < self.decls.len()
            invariant
                i <= self.decls@.len(),
                decls@.len() == i,
                forall|j: int| #![trigger decls@[j]] 0 <= j < i ==> self.decls@[j].same_as(decls@[j]),
            decreases self.decls@.len() - i,
        {
            proof {
                assert(decreases_to!(self => self.decls));
                assert(decreases_to!(self.decls => self.decls@));
                assert(decreases_to!(self.decls@ => self.decls@[i as int]));
            }
            decls.push(self.decls[i].clone());
            i += 1;
        }
        UsingDecl { span: self.span, is_await: self.is_await, decls }
    }
}
} // verus!
