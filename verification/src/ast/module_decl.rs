use vstd::prelude::*;

use crate::ast::class::Class;
use crate::ast::common::Ident;
use crate::ast::common::Span;
use crate::ast::decl::Decl;
use crate::enums::ImportPhase;
use crate::ast::expr::ClassExpr;
use crate::ast::expr::Expr;
use crate::ast::expr::FnExpr;
use crate::ast::expr::Import;
use crate::ast::expr::ObjectLit;
use crate::ast::lit::Str;
use crate::ast::typescript::TsExportAssignment;
use crate::ast::typescript::TsImportEqualsDecl;
use crate::ast::typescript::TsInterfaceDecl;
use crate::ast::typescript::TsNamespaceExportDecl;

verus! {

#[derive(Debug, PartialEq, Eq)]
pub enum ModuleDecl {
    Import(ImportDecl),
    ExportDecl(ExportDecl),
    ExportNamed(NamedExport),
    ExportDefaultDecl(ExportDefaultDecl),
    ExportDefaultExpr(ExportDefaultExpr),
    ExportAll(ExportAll),
    TsImportEquals(Box<TsImportEqualsDecl>),
    TsExportAssignment(TsExportAssignment),
    TsNamespaceExport(TsNamespaceExportDecl),
}

#[derive(Debug, PartialEq, Eq)]
pub struct ExportDefaultExpr {
    pub span: Span,
    pub expr: Box<Expr>,
}

#[derive(Debug, PartialEq, Eq)]
pub struct ExportDecl {
    pub span: Span,
    pub decl: Decl,
}

#[derive(Debug, PartialEq, Eq)]
pub struct ImportDecl {
    pub span: Span,
    pub specifiers: Vec<ImportSpecifier>,
    pub src: Box<Str>,
    pub type_only: bool,
    pub with: Option<Box<ObjectLit>>,
    pub phase: ImportPhase,
}

#[derive(Debug, PartialEq, Eq)]
pub struct ExportAll {
    pub span: Span,
    pub src: Box<Str>,
    pub type_only: bool,
    pub with: Option<Box<ObjectLit>>,
}

#[derive(Debug, PartialEq, Eq)]
pub struct NamedExport {
    pub span: Span,
    pub specifiers: Vec<ExportSpecifier>,
    pub src: Option<Box<Str>>,
    pub type_only: bool,
    pub with: Option<Box<ObjectLit>>,
}

#[derive(Debug, PartialEq, Eq)]
pub struct ExportDefaultDecl {
    pub span: Span,
    pub decl: DefaultDecl,
}

#[derive(Debug, PartialEq, Eq)]
pub enum DefaultDecl {
    Class(ClassExpr),
    Fn(FnExpr),
    TsInterfaceDecl(Box<TsInterfaceDecl>),
}

#[derive(Debug, PartialEq, Eq)]
pub enum ImportSpecifier {
    Named(ImportNamedSpecifier),
    Default(ImportDefaultSpecifier),
    Namespace(ImportStarAsSpecifier),
}

#[derive(Debug, PartialEq, Eq)]
pub struct ImportDefaultSpecifier {
    pub span: Span,
    pub local: Ident,
}

#[derive(Debug, PartialEq, Eq)]
pub struct ImportStarAsSpecifier {
    pub span: Span,
    pub local: Ident,
}

#[derive(Debug, PartialEq, Eq)]
pub struct ImportNamedSpecifier {
    pub span: Span,
    pub local: Ident,
    pub imported: Option<ModuleExportName>,
    pub is_type_only: bool,
}

#[derive(Debug, PartialEq, Eq)]
pub enum ExportSpecifier {
    Namespace(ExportNamespaceSpecifier),
    Default(ExportDefaultSpecifier),
    Named(ExportNamedSpecifier),
}

#[derive(Debug, PartialEq, Eq)]
pub struct ExportNamespaceSpecifier {
    pub span: Span,
    pub name: ModuleExportName,
}

#[derive(Debug, PartialEq, Eq)]
pub struct ExportDefaultSpecifier {
    pub exported: Ident,
}

#[derive(Debug, PartialEq, Eq)]
pub struct ExportNamedSpecifier {
    pub span: Span,
    pub orig: ModuleExportName,
    pub exported: Option<ModuleExportName>,
    pub is_type_only: bool,
}

#[derive(Debug, PartialEq, Eq)]
pub enum ModuleExportName {
    Ident(Ident),
    Str(Str),
}


impl ModuleDecl {
    /// `self` and `other` are the same tree: equal leaves, and lists of
    /// the same length whose items are the same trees, in order.
    pub open spec fn same_as(self, other: Self) -> bool
        decreases self,
    {
        match self {
            ModuleDecl::Import(x) => other is Import && x.same_as(other->Import_0),
            ModuleDecl::ExportDecl(x) => other is ExportDecl && x.same_as(other->ExportDecl_0),
            ModuleDecl::ExportNamed(x) => other is ExportNamed && x.same_as(other->ExportNamed_0),
            ModuleDecl::ExportDefaultDecl(x) => other is ExportDefaultDecl && x.same_as(other->ExportDefaultDecl_0),
            ModuleDecl::ExportDefaultExpr(x) => other is ExportDefaultExpr && x.same_as(other->ExportDefaultExpr_0),
            ModuleDecl::ExportAll(x) => other is ExportAll && x.same_as(other->ExportAll_0),
            ModuleDecl::TsImportEquals(x) => other is TsImportEquals && x == other->TsImportEquals_0,
            ModuleDecl::TsExportAssignment(x) => other is TsExportAssignment && x.same_as(other->TsExportAssignment_0),
            ModuleDecl::TsNamespaceExport(x) => other is TsNamespaceExport && x == other->TsNamespaceExport_0,
        }
    }

    /// Every tree is the same as itself.
    pub proof fn lemma_same_as_reflexive(&self)
        ensures
            self.same_as(*self),
        decreases self,
    {
        match self {
            ModuleDecl::Import(x) => {
                x.lemma_same_as_reflexive();
            },
            ModuleDecl::ExportDecl(x) => {
                x.lemma_same_as_reflexive();
            },
            ModuleDecl::ExportNamed(x) => {
                x.lemma_same_as_reflexive();
            },
            ModuleDecl::ExportDefaultDecl(x) => {
                x.lemma_same_as_reflexive();
            },
            ModuleDecl::ExportDefaultExpr(x) => {
                x.lemma_same_as_reflexive();
            },
            ModuleDecl::ExportAll(x) => {
                x.lemma_same_as_reflexive();
            },
            ModuleDecl::TsImportEquals(x) => {
            },
            ModuleDecl::TsExportAssignment(x) => {
                x.lemma_same_as_reflexive();
            },
            ModuleDecl::TsNamespaceExport(x) => {
            },
        }
    }
}

impl Clone for ModuleDecl {
    fn clone(&self) -> (r: Self)
        ensures
            self.same_as(r),
        decreases self,
    {
        match self {
            ModuleDecl::Import(x) => ModuleDecl::Import(x.clone()),
            ModuleDecl::ExportDecl(x) => ModuleDecl::ExportDecl(x.clone()),
            ModuleDecl::ExportNamed(x) => ModuleDecl::ExportNamed(x.clone()),
            ModuleDecl::ExportDefaultDecl(x) => ModuleDecl::ExportDefaultDecl(x.clone()),
            ModuleDecl::ExportDefaultExpr(x) => ModuleDecl::ExportDefaultExpr(x.clone()),
            ModuleDecl::ExportAll(x) => ModuleDecl::ExportAll(x.clone()),
            ModuleDecl::TsImportEquals(x) => ModuleDecl::TsImportEquals(Box::new((**x).clone())),
            ModuleDecl::TsExportAssignment(x) => ModuleDecl::TsExportAssignment(x.clone()),
            ModuleDecl::TsNamespaceExport(x) => ModuleDecl::TsNamespaceExport(x.clone()),
        }
    }
}

impl ExportDefaultExpr {
    /// `self` and `other` are the same tree: equal leaves, and lists of
    /// the same length whose items are the same trees, in order.
    pub open spec fn same_as(self, other: Self) -> bool
        decreases self,
    {
        &&& self.span == other.span
        &&& (*self.expr).same_as((*other.expr))
    }

    /// Every tree is the same as itself.
    pub proof fn lemma_same_as_reflexive(&self)
        ensures
            self.same_as(*self),
        decreases self,
    {
        self.expr.lemma_same_as_reflexive();
    }
}

impl Clone for ExportDefaultExpr {
    fn clone(&self) -> (r: Self)
        ensures
            self.same_as(r),
        decreases self,
    {
        ExportDefaultExpr { span: self.span, expr: Box::new((*self.expr).clone()) }
    }
}

impl ExportDecl {
    /// `self` and `other` are the same tree: equal leaves, and lists of
    /// the same length whose items are the same trees, in order.
    pub open spec fn same_as(self, other: Self) -> bool
        decreases self,
    {
        &&& self.span == other.span
        &&& self.decl.same_as(other.decl)
    }

    /// Every tree is the same as itself.
    pub proof fn lemma_same_as_reflexive(&self)
        ensures
            self.same_as(*self),
        decreases self,
    {
        self.decl.lemma_same_as_reflexive();
    }
}

impl Clone for ExportDecl {
    fn clone(&self) -> (r: Self)
        ensures
            self.same_as(r),
        decreases self,
    {
        ExportDecl { span: self.span, decl: self.decl.clone() }
    }
}

impl ImportDecl {
    /// `self` and `other` are the same tree: equal leaves, and lists of
    /// the same length whose items are the same trees, in order.
    pub open spec fn same_as(self, other: Self) -> bool
        decreases self,
    {
        &&& self.span == other.span
        &&& self.specifiers@ == other.specifiers@
        &&& self.src == other.src
        &&& self.type_only == other.type_only
        &&& (match self.with { None => other.with is None, Some(x0) => other.with is Some && (*x0).same_as((*other.with->Some_0)) })
        &&& self.phase == other.phase
    }

    /// Every tree is the same as itself.
    pub proof fn lemma_same_as_reflexive(&self)
        ensures
            self.same_as(*self),
        decreases self,
    {
        if let Some(x0) = &self.with {
            x0.lemma_same_as_reflexive();
        }
    }
}

impl Clone for ImportDecl {
    fn clone(&self) -> (r: Self)
        ensures
            self.same_as(r),
        decreases self,
    {
        let mut specifiers: Vec<ImportSpecifier> = Vec::new();
        let mut i: usize = 0;
        while i < self.specifiers.len()
            invariant
                i <= self.specifiers@.len(),
                specifiers@.len() == i,
                forall|j: int| #![trigger specifiers@[j]] 0 <= j < i ==> specifiers@[j] == self.specifiers@[j],
            decreases self.specifiers@.len() - i,
        {
            specifiers.push(self.specifiers[i].clone());
            i += 1;
        }
        proof {
            assert(specifiers@ =~= self.specifiers@);
        }
        let with = match &self.with {
            None => None,
            Some(x) => Some(Box::new((**x).clone())),
        };
        ImportDecl {
            span: self.span,
            specifiers,
            src: Box::new((*self.src).clone()),
            type_only: self.type_only,
            with,
            phase: self.phase,
        }
    }
}

impl ExportAll {
    /// `self` and `other` are the same tree: equal leaves, and lists of
    /// the same length whose items are the same trees, in order.
    pub open spec fn same_as(self, other: Self) -> bool
        decreases self,
    {
        &&& self.span == other.span
        &&& self.src == other.src
        &&& self.type_only == other.type_only
        &&& (match self.with { None => other.with is None, Some(x0) => other.with is Some && (*x0).same_as((*other.with->Some_0)) })
    }

    /// Every tree is the same as itself.
    pub proof fn lemma_same_as_reflexive(&self)
        ensures
            self.same_as(*self),
        decreases self,
    {
        if let Some(x0) = &self.with {
            x0.lemma_same_as_reflexive();
        }
    }
}

impl Clone for ExportAll {
    fn clone(&self) -> (r: Self)
        ensures
            self.same_as(r),
        decreases self,
    {
        let with = match &self.with {
            None => None,
            Some(x) => Some(Box::new((**x).clone())),
        };
        ExportAll {
            span: self.span,
            src: Box::new((*self.src).clone()),
            type_only: self.type_only,
            with,
        }
    }
}

impl NamedExport {
    /// `self` and `other` are the same tree: equal leaves, and lists of
    /// the same length whose items are the same trees, in order.
    pub open spec fn same_as(self, other: Self) -> bool
        decreases self,
    {
        &&& self.span == other.span
        &&& self.specifiers@ == other.specifiers@
        &&& self.src == other.src
        &&& self.type_only == other.type_only
        &&& (match self.with { None => other.with is None, Some(x0) => other.with is Some && (*x0).same_as((*other.with->Some_0)) })
    }

    /// Every tree is the same as itself.
    pub proof fn lemma_same_as_reflexive(&self)
        ensures
            self.same_as(*self),
        decreases self,
    {
        if let Some(x0) = &self.with {
            x0.lemma_same_as_reflexive();
        }
    }
}

impl Clone for NamedExport {
    fn clone(&self) -> (r: Self)
        ensures
            self.same_as(r),
        decreases self,
    {
        let mut specifiers: Vec<ExportSpecifier> = Vec::new();
        let mut i: usize = 0;
        while i < self.specifiers.len()
            invariant
                i <= self.specifiers@.len(),
                specifiers@.len() == i,
                forall|j: int| #![trigger specifiers@[j]] 0 <= j < i ==> specifiers@[j] == self.specifiers@[j],
            decreases self.specifiers@.len() - i,
        {
            specifiers.push(self.specifiers[i].clone());
            i += 1;
        }
        proof {
            assert(specifiers@ =~= self.specifiers@);
        }
        let src = match &self.src {
            None => None,
            Some(x) => Some(Box::new((**x).clone())),
        };
        let with = match &self.with {
            None => None,
            Some(x) => Some(Box::new((**x).clone())),
        };
        NamedExport { span: self.span, specifiers, src, type_only: self.type_only, with }
    }
}

impl ExportDefaultDecl {
    /// `self` and `other` are the same tree: equal leaves, and lists of
    /// the same length whose items are the same trees, in order.
    pub open spec fn same_as(self, other: Self) -> bool
        decreases self,
    {
        &&& self.span == other.span
        &&& self.decl.same_as(other.decl)
    }

    /// Every tree is the same as itself.
    pub proof fn lemma_same_as_reflexive(&self)
        ensures
            self.same_as(*self),
        decreases self,
    {
        self.decl.lemma_same_as_reflexive();
    }
}

impl Clone for ExportDefaultDecl {
    fn clone(&self) -> (r: Self)
        ensures
            self.same_as(r),
        decreases self,
    {
        ExportDefaultDecl { span: self.span, decl: self.decl.clone() }
    }
}

impl DefaultDecl {
    /// `self` and `other` are the same tree: equal leaves, and lists of
    /// the same length whose items are the same trees, in order.
    pub open spec fn same_as(self, other: Self) -> bool
        decreases self,
    {
        match self {
            DefaultDecl::Class(x) => other is Class && x.same_as(other->Class_0),
            DefaultDecl::Fn(x) => other is Fn && x.same_as(other->Fn_0),
            DefaultDecl::TsInterfaceDecl(x) => other is TsInterfaceDecl && (*x).same_as((*other->TsInterfaceDecl_0)),
        }
    }

    /// Every tree is the same as itself.
    pub proof fn lemma_same_as_reflexive(&self)
        ensures
            self.same_as(*self),
        decreases self,
    {
        match self {
            DefaultDecl::Class(x) => {
                x.lemma_same_as_reflexive();
            },
            DefaultDecl::Fn(x) => {
                x.lemma_same_as_reflexive();
            },
            DefaultDecl::TsInterfaceDecl(x) => {
                x.lemma_same_as_reflexive();
            },
        }
    }
}

impl Clone for DefaultDecl {
    fn clone(&self) -> (r: Self)
        ensures
            self.same_as(r),
        decreases self,
    {
        match self {
            DefaultDecl::Class(x) => DefaultDecl::Class(x.clone()),
            DefaultDecl::Fn(x) => DefaultDecl::Fn(x.clone()),
            DefaultDecl::TsInterfaceDecl(x) => DefaultDecl::TsInterfaceDecl(Box::new((**x).clone())),
        }
    }
}

impl Clone for ImportSpecifier {
    fn clone(&self) -> (r: Self)
        ensures
            r == *self,
        decreases self,
    {
        match self {
            ImportSpecifier::Named(x) => ImportSpecifier::Named(x.clone()),
            ImportSpecifier::Default(x) => ImportSpecifier::Default(x.clone()),
            ImportSpecifier::Namespace(x) => ImportSpecifier::Namespace(x.clone()),
        }
    }
}

impl Clone for ImportDefaultSpecifier {
    fn clone(&self) -> (r: Self)
        ensures
            r == *self,
        decreases self,
    {
        ImportDefaultSpecifier { span: self.span, local: self.local.clone() }
    }
}

impl Clone for ImportStarAsSpecifier {
    fn clone(&self) -> (r: Self)
        ensures
            r == *self,
        decreases self,
    {
        ImportStarAsSpecifier { span: self.span, local: self.local.clone() }
    }
}

impl Clone for ImportNamedSpecifier {
    fn clone(&self) -> (r: Self)
        ensures
            r == *self,
        decreases self,
    {
        let imported = match &self.imported {
            None => None,
            Some(x) => Some(x.clone()),
        };
        ImportNamedSpecifier {
            span: self.span,
            local: self.local.clone(),
            imported,
            is_type_only: self.is_type_only,
        }
    }
}

impl Clone for ExportSpecifier {
    fn clone(&self) -> (r: Self)
        ensures
            r == *self,
        decreases self,
    {
        match self {
            ExportSpecifier::Namespace(x) => ExportSpecifier::Namespace(x.clone()),
            ExportSpecifier::Default(x) => ExportSpecifier::Default(x.clone()),
            ExportSpecifier::Named(x) => ExportSpecifier::Named(x.clone()),
        }
    }
}

impl Clone for ExportNamespaceSpecifier {
    fn clone(&self) -> (r: Self)
        ensures
            r == *self,
        decreases self,
    {
        ExportNamespaceSpecifier { span: self.span, name: self.name.clone() }
    }
}

impl Clone for ExportDefaultSpecifier {
    fn clone(&self) -> (r: Self)
        ensures
            r == *self,
        decreases self,
    {
        ExportDefaultSpecifier { exported: self.exported.clone() }
    }
}

impl Clone for ExportNamedSpecifier {
    fn clone(&self) -> (r: Self)
        ensures
            r == *self,
        decreases self,
    {
        let exported = match &self.exported {
            None => None,
            Some(x) => Some(x.clone()),
        };
        ExportNamedSpecifier {
            span: self.span,
            orig: self.orig.clone(),
            exported,
            is_type_only: self.is_type_only,
        }
    }
}

impl Clone for ModuleExportName {
    fn clone(&self) -> (r: Self)
        ensures
            r == *self,
        decreases self,
    {
        match self {
            ModuleExportName::Ident(x) => ModuleExportName::Ident(x.clone()),
            ModuleExportName::Str(x) => ModuleExportName::Str(x.clone()),
        }
    }
}
} // verus!
