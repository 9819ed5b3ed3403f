use vstd::prelude::*;

use crate::ast::common::Span;
use crate::ast::module_decl::ModuleDecl;
use crate::ast::stmt::Stmt;

verus! {

#[derive(Debug, PartialEq, Eq)]
pub struct EsModule {
    pub span: Span,
    pub body: Vec<ModuleItem>,
    pub shebang: Option<String>,
}

#[derive(Debug, PartialEq, Eq)]
pub enum ModuleItem {
    ModuleDecl(ModuleDecl),
    Stmt(Stmt),
}


impl EsModule {
    /// `self` and `other` are the same tree: equal leaves, and lists of
    /// the same length whose items are the same trees, in order.
    pub open spec fn same_as(self, other: Self) -> bool
        decreases self,
    {
        &&& self.span == other.span
        &&& (self.body@.len() == other.body@.len() && forall|i0: int| #![trigger self.body@[i0]] 0 <= i0 < self.body@.len() ==> self.body@[i0].same_as(other.body@[i0]))
        &&& self.shebang == other.shebang
    }

    /// Every tree is the same as itself.
    pub proof fn lemma_same_as_reflexive(&self)
        ensures
            self.same_as(*self),
        decreases self,
    {
        assert forall|i0: int| #![trigger self.body@[i0]] 0 <= i0 < self.body@.len() implies self.body@[i0].same_as(self.body@[i0]) by {
            self.body@[i0].lemma_same_as_reflexive();
        }
    }
}

impl Clone for EsModule {
    fn clone(&self) -> (r: Self)
        ensures
            self.same_as(r),
        decreases self,
    {
        let mut body: Vec<ModuleItem> = Vec::new();
        let mut i: usize = 0;
        while i < self.body.len()
            invariant
                i <= self.body@.len(),
                body@.len() == i,
                forall|j: int| #![trigger body@[j]] 0 <= j < i ==> self.body@[j].same_as(body@[j]),
            decreases self.body@.len() - i,
        {
            body.push(self.body[i].clone());
            i += 1;
        }
        let shebang = match &self.shebang {
            None => None,
            Some(x) => Some(x.clone()),
        };
        EsModule { span: self.span, body, shebang }
    }
}

impl ModuleItem {
    /// `self` and `other` are the same tree: equal leaves, and lists of
    /// the same length whose items are the same trees, in order.
    pub open spec fn same_as(self, other: Self) -> bool
        decreases self,
    {
        match self {
            ModuleItem::ModuleDecl(x) => other is ModuleDecl && x.same_as(other->ModuleDecl_0),
            ModuleItem::Stmt(x) => other is Stmt && x.same_as(other->Stmt_0),
        }
    }

    /// Every tree is the same as itself.
    pub proof fn lemma_same_as_reflexive(&self)
        ensures
            self.same_as(*self),
        decreases self,
    {
        match self {
            ModuleItem::ModuleDecl(x) => {
                x.lemma_same_as_reflexive();
            },
            ModuleItem::Stmt(x) => {
                x.lemma_same_as_reflexive();
            },
        }
    }
}

impl Clone for ModuleItem {
    fn clone(&self) -> (r: Self)
        ensures
            self.same_as(r),
        decreases self,
    {
        match self {
            ModuleItem::ModuleDecl(x) => ModuleItem::ModuleDecl(x.clone()),
            ModuleItem::Stmt(x) => ModuleItem::Stmt(x.clone()),
        }
    }
}
} // verus!
