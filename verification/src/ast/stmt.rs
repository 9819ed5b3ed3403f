use vstd::prelude::*;

use crate::ast::common::Ident;
use crate::ast::common::Span;
use crate::ast::decl::Decl;
use crate::ast::decl::UsingDecl;
use crate::ast::decl::VarDecl;
use crate::ast::expr::Expr;
use crate::ast::pat::Pat;

verus! {

#[derive(Debug, PartialEq, Eq)]
pub struct BlockStmt {
    pub span: Span,
    pub ctxt: u32,
    pub stmts: Vec<Stmt>,
}

#[derive(Debug, PartialEq, Eq)]
pub enum Stmt {
    Block(BlockStmt),
    Empty(EmptyStmt),
    Debugger(DebuggerStmt),
    With(WithStmt),
    Return(ReturnStmt),
    Labeled(LabeledStmt),
    Break(BreakStmt),
    Continue(ContinueStmt),
    If(IfStmt),
    Switch(SwitchStmt),
    Throw(ThrowStmt),
    Try(Box<TryStmt>),
    While(WhileStmt),
    DoWhile(DoWhileStmt),
    For(ForStmt),
    ForIn(ForInStmt),
    ForOf(ForOfStmt),
    Decl(Decl),
    Expr(ExprStmt),
}

#[derive(Debug, PartialEq, Eq)]
pub struct ExprStmt {
    pub span: Span,
    pub expr: Box<Expr>,
}

#[derive(Debug, PartialEq, Eq)]
pub struct EmptyStmt {
    pub span: Span,
}

#[derive(Debug, PartialEq, Eq)]
pub struct DebuggerStmt {
    pub span: Span,
}

#[derive(Debug, PartialEq, Eq)]
pub struct WithStmt {
    pub span: Span,
    pub obj: Box<Expr>,
    pub body: Box<Stmt>,
}

#[derive(Debug, PartialEq, Eq)]
pub struct ReturnStmt {
    pub span: Span,
    pub arg: Option<Box<Expr>>,
}

#[derive(Debug, PartialEq, Eq)]
pub struct LabeledStmt {
    pub span: Span,
    pub label: Ident,
    pub body: Box<Stmt>,
}

#[derive(Debug, PartialEq, Eq)]
pub struct BreakStmt {
    pub span: Span,
    pub label: Option<Ident>,
}

#[derive(Debug, PartialEq, Eq)]
pub struct ContinueStmt {
    pub span: Span,
    pub label: Option<Ident>,
}

#[derive(Debug, PartialEq, Eq)]
pub struct IfStmt {
    pub span: Span,
    pub test: Box<Expr>,
    pub cons: Box<Stmt>,
    pub alt: Option<Box<Stmt>>,
}

#[derive(Debug, PartialEq, Eq)]
pub struct SwitchStmt {
    pub span: Span,
    pub body_ctxt: u32,
    pub discriminant: Box<Expr>,
    pub cases: Vec<SwitchCase>,
}

#[derive(Debug, PartialEq, Eq)]
pub struct ThrowStmt {
    pub span: Span,
    pub arg: Box<Expr>,
}

#[derive(Debug, PartialEq, Eq)]
pub struct TryStmt {
    pub span: Span,
    pub block: BlockStmt,
    pub handler: Option<CatchClause>,
    pub finalizer: Option<BlockStmt>,
}

#[derive(Debug, PartialEq, Eq)]
pub struct WhileStmt {
    pub span: Span,
    pub test: Box<Expr>,
    pub body: Box<Stmt>,
}

#[derive(Debug, PartialEq, Eq)]
pub struct DoWhileStmt {
    pub span: Span,
    pub test: Box<Expr>,
    pub body: Box<Stmt>,
}

#[derive(Debug, PartialEq, Eq)]
pub struct ForStmt {
    pub span: Span,
    pub init: Option<VarDeclOrExpr>,
    pub test: Option<Box<Expr>>,
    pub update: Option<Box<Expr>>,
    pub body: Box<Stmt>,
}

#[derive(Debug, PartialEq, Eq)]
pub struct ForInStmt {
    pub span: Span,
    pub left: ForHead,
    pub right: Box<Expr>,
    pub body: Box<Stmt>,
}

#[derive(Debug, PartialEq, Eq)]
pub struct ForOfStmt {
    pub span: Span,
    pub is_await: bool,
    pub left: ForHead,
    pub right: Box<Expr>,
    pub body: Box<Stmt>,
}

#[derive(Debug, PartialEq, Eq)]
pub struct SwitchCase {
    pub span: Span,
    pub test: Option<Box<Expr>>,
    pub cons: Vec<Stmt>,
}

#[derive(Debug, PartialEq, Eq)]
pub struct CatchClause {
    pub span: Span,
    pub param: Option<Pat>,
    pub body: BlockStmt,
}

#[derive(Debug, PartialEq, Eq)]
pub enum ForHead {
    VarDecl(Box<VarDecl>),
    UsingDecl(Box<UsingDecl>),
    Pat(Box<Pat>),
}

#[derive(Debug, PartialEq, Eq)]
pub enum VarDeclOrExpr {
    VarDecl(Box<VarDecl>),
    Expr(Box<Expr>),
}


impl BlockStmt {
    /// `self` and `other` are the same tree: equal leaves, and lists of
    /// the same length whose items are the same trees, in order.
    pub open spec fn same_as(self, other: Self) -> bool
        decreases self,
    {
        &&& self.span == other.span
        &&& self.ctxt == other.ctxt
        &&& (self.stmts@.len() == other.stmts@.len() && forall|i0: int| #![trigger self.stmts@[i0]] 0 <= i0 < self.stmts@.len() ==> self.stmts@[i0].same_as(other.stmts@[i0]))
    }

    /// Every tree is the same as itself.
    pub proof fn lemma_same_as_reflexive(&self)
        ensures
            self.same_as(*self),
        decreases self,
    {
        assert forall|i0: int| #![trigger self.stmts@[i0]] 0 <= i0 < self.stmts@.len() implies self.stmts@[i0].same_as(self.stmts@[i0]) by {
            assert(decreases_to!(self => self.stmts));
            assert(decreases_to!(self.stmts => self.stmts@));
            assert(decreases_to!(self.stmts@ => self.stmts@[i0]));
            self.stmts@[i0].lemma_same_as_reflexive();
        }
    }
}

impl Clone for BlockStmt {
    fn clone(&self) -> (r: Self)
        ensures
            self.same_as(r),
        decreases self,
    {
        let mut stmts: Vec<Stmt> = Vec::new();
        let mut i: usize = 0;
        while i < self.stmts.len()
            invariant
                i <= self.stmts@.len(),
                stmts@.len() == i,
                forall|j: int| #![trigger stmts@[j]] 0 <= j < i ==> self.stmts@[j].same_as(stmts@[j]),
            decreases self.stmts@.len() - i,
        {
            proof {
                assert(decreases_to!(self => self.stmts));
                assert(decreases_to!(self.stmts => self.stmts@));
                assert(decreases_to!(self.stmts@ => self.stmts@[i as int]));
            }
            stmts.push(self.stmts[i].clone());
            i += 1;
        }
        BlockStmt { span: self.span, ctxt: self.ctxt, stmts }
    }
}

impl Stmt {
    /// `self` and `other` are the same tree: equal leaves, and lists of
    /// the same length whose items are the same trees, in order.
    pub open spec fn same_as(self, other: Self) -> bool
        decreases self,
    {
        match self {
            Stmt::Block(x) => other is Block && x.same_as(other->Block_0),
            Stmt::Empty(x) => other is Empty && x == other->Empty_0,
            Stmt::Debugger(x) => other is Debugger && x == other->Debugger_0,
            Stmt::With(x) => other is With && x.same_as(other->With_0),
            Stmt::Return(x) => other is Return && x.same_as(other->Return_0),
            Stmt::Labeled(x) => other is Labeled && x.same_as(other->Labeled_0),
            Stmt::Break(x) => other is Break && x == other->Break_0,
            Stmt::Continue(x) => other is Continue && x == other->Continue_0,
            Stmt::If(x) => other is If && x.same_as(other->If_0),
            Stmt::Switch(x) => other is Switch && x.same_as(other->Switch_0),
            Stmt::Throw(x) => other is Throw && x.same_as(other->Throw_0),
            Stmt::Try(x) => other is Try && (*x).same_as((*other->Try_0)),
            Stmt::While(x) => other is While && x.same_as(other->While_0),
            Stmt::DoWhile(x) => other is DoWhile && x.same_as(other->DoWhile_0),
            Stmt::For(x) => other is For && x.same_as(other->For_0),
            Stmt::ForIn(x) => other is ForIn && x.same_as(other->ForIn_0),
            Stmt::ForOf(x) => other is ForOf && x.same_as(other->ForOf_0),
            Stmt::Decl(x) => other is Decl && x.same_as(other->Decl_0),
            Stmt::Expr(x) => other is Expr && x.same_as(other->Expr_0),
        }
    }

    /// Every tree is the same as itself.
    pub proof fn lemma_same_as_reflexive(&self)
        ensures
            self.same_as(*self),
        decreases self,
    {
        match self {
            Stmt::Block(x) => {
                x.lemma_same_as_reflexive();
            },
            Stmt::Empty(x) => {
            },
            Stmt::Debugger(x) => {
            },
            Stmt::With(x) => {
                x.lemma_same_as_reflexive();
            },
            Stmt::Return(x) => {
                x.lemma_same_as_reflexive();
            },
            Stmt::Labeled(x) => {
                x.lemma_same_as_reflexive();
            },
            Stmt::Break(x) => {
            },
            Stmt::Continue(x) => {
            },
            Stmt::If(x) => {
                x.lemma_same_as_reflexive();
            },
            Stmt::Switch(x) => {
                x.lemma_same_as_reflexive();
            },
            Stmt::Throw(x) => {
                x.lemma_same_as_reflexive();
            },
            Stmt::Try(x) => {
                x.lemma_same_as_reflexive();
            },
            Stmt::While(x) => {
                x.lemma_same_as_reflexive();
            },
            Stmt::DoWhile(x) => {
                x.lemma_same_as_reflexive();
            },
            Stmt::For(x) => {
                x.lemma_same_as_reflexive();
            },
            Stmt::ForIn(x) => {
                x.lemma_same_as_reflexive();
            },
            Stmt::ForOf(x) => {
                x.lemma_same_as_reflexive();
            },
            Stmt::Decl(x) => {
                x.lemma_same_as_reflexive();
            },
            Stmt::Expr(x) => {
                x.lemma_same_as_reflexive();
            },
        }
    }
}

impl Clone for Stmt {
    fn clone(&self) -> (r: Self)
        ensures
            self.same_as(r),
        decreases self,
    {
        match self {
            Stmt::Block(x) => Stmt::Block(x.clone()),
            Stmt::Empty(x) => Stmt::Empty(x.clone()),
            Stmt::Debugger(x) => Stmt::Debugger(x.clone()),
            Stmt::With(x) => Stmt::With(x.clone()),
            Stmt::Return(x) => Stmt::Return(x.clone()),
            Stmt::Labeled(x) => Stmt::Labeled(x.clone()),
            Stmt::Break(x) => Stmt::Break(x.clone()),
            Stmt::Continue(x) => Stmt::Continue(x.clone()),
            Stmt::If(x) => Stmt::If(x.clone()),
            Stmt::Switch(x) => Stmt::Switch(x.clone()),
            Stmt::Throw(x) => Stmt::Throw(x.clone()),
            Stmt::Try(x) => Stmt::Try(Box::new((**x).clone())),
            Stmt::While(x) => Stmt::While(x.clone()),
            Stmt::DoWhile(x) => Stmt::DoWhile(x.clone()),
            Stmt::For(x) => Stmt::For(x.clone()),
            Stmt::ForIn(x) => Stmt::ForIn(x.clone()),
            Stmt::ForOf(x) => Stmt::ForOf(x.clone()),
            Stmt::Decl(x) => Stmt::Decl(x.clone()),
            Stmt::Expr(x) => Stmt::Expr(x.clone()),
        }
    }
}

impl ExprStmt {
    /// `self` and `other` are the same tree: equal leaves, and lists of
    /// the same length whose items are the same trees, in order.
    pub open spec fn same_as(self, other: Self) -> bool
        decreases self,
    {
        &&& self.span == other.span
        &&& (*self.expr).same_as((*other.expr))
    }

    /// Every tree is the same as itself.
    pub proof fn lemma_same_as_reflexive(&self)
        ensures
            self.same_as(*self),
        decreases self,
    {
        self.expr.lemma_same_as_reflexive();
    }
}

impl Clone for ExprStmt {
    fn clone(&self) -> (r: Self)
        ensures
            self.same_as(r),
        decreases self,
    {
        ExprStmt { span: self.span, expr: Box::new((*self.expr).clone()) }
    }
}

impl Clone for EmptyStmt {
    fn clone(&self) -> (r: Self)
        ensures
            r == *self,
        decreases self,
    {
        EmptyStmt { span: self.span }
    }
}

impl Clone for DebuggerStmt {
    fn clone(&self) -> (r: Self)
        ensures
            r == *self,
        decreases self,
    {
        DebuggerStmt { span: self.span }
    }
}

impl WithStmt {
    /// `self` and `other` are the same tree: equal leaves, and lists of
    /// the same length whose items are the same trees, in order.
    pub open spec fn same_as(self, other: Self) -> bool
        decreases self,
    {
        &&& self.span == other.span
        &&& (*self.obj).same_as((*other.obj))
        &&& (*self.body).same_as((*other.body))
    }

    /// Every tree is the same as itself.
    pub proof fn lemma_same_as_reflexive(&self)
        ensures
            self.same_as(*self),
        decreases self,
    {
        self.obj.lemma_same_as_reflexive();
        self.body.lemma_same_as_reflexive();
    }
}

impl Clone for WithStmt {
    fn clone(&self) -> (r: Self)
        ensures
            self.same_as(r),
        decreases self,
    {
        WithStmt {
            span: self.span,
            obj: Box::new((*self.obj).clone()),
            body: Box::new((*self.body).clone()),
        }
    }
}

impl ReturnStmt {
    /// `self` and `other` are the same tree: equal leaves, and lists of
    /// the same length whose items are the same trees, in order.
    pub open spec fn same_as(self, other: Self) -> bool
        decreases self,
    {
        &&& self.span == other.span
        &&& (match self.arg { None => other.arg is None, Some(x0) => other.arg is Some && (*x0).same_as((*other.arg->Some_0)) })
    }

    /// Every tree is the same as itself.
    pub proof fn lemma_same_as_reflexive(&self)
        ensures
            self.same_as(*self),
        decreases self,
    {
        if let Some(x0) = &self.arg {
            x0.lemma_same_as_reflexive();
        }
    }
}

impl Clone for ReturnStmt {
    fn clone(&self) -> (r: Self)
        ensures
            self.same_as(r),
        decreases self,
    {
        let arg = match &self.arg {
            None => None,
            Some(x) => Some(Box::new((**x).clone())),
        };
        ReturnStmt { span: self.span, arg }
    }
}

impl LabeledStmt {
    /// `self` and `other` are the same tree: equal leaves, and lists of
    /// the same length whose items are the same trees, in order.
    pub open spec fn same_as(self, other: Self) -> bool
        decreases self,
    {
        &&& self.span == other.span
        &&& self.label == other.label
        &&& (*self.body).same_as((*other.body))
    }

    /// Every tree is the same as itself.
    pub proof fn lemma_same_as_reflexive(&self)
        ensures
            self.same_as(*self),
        decreases self,
    {
        self.body.lemma_same_as_reflexive();
    }
}

impl Clone for LabeledStmt {
    fn clone(&self) -> (r: Self)
        ensures
            self.same_as(r),
        decreases self,
    {
        LabeledStmt {
            span: self.span,
            label: self.label.clone(),
            body: Box::new((*self.body).clone()),
        }
    }
}

impl Clone for BreakStmt {
    fn clone(&self) -> (r: Self)
        ensures
            r == *self,
        decreases self,
    {
        let label = match &self.label {
            None => None,
            Some(x) => Some(x.clone()),
        };
        BreakStmt { span: self.span, label }
    }
}

impl Clone for ContinueStmt {
    fn clone(&self) -> (r: Self)
        ensures
            r == *self,
        decreases self,
    {
        let label = match &self.label {
            None => None,
            Some(x) => Some(x.clone()),
        };
        ContinueStmt { span: self.span, label }
    }
}

impl IfStmt {
    /// `self` and `other` are the same tree: equal leaves, and lists of
    /// the same length whose items are the same trees, in order.
    pub open spec fn same_as(self, other: Self) -> bool
        decreases self,
    {
        &&& self.span == other.span
        &&& (*self.test).same_as((*other.test))
        &&& (*self.cons).same_as((*other.cons))
        &&& (match self.alt { None => other.alt is None, Some(x0) => other.alt is Some && (*x0).same_as((*other.alt->Some_0)) })
    }

    /// Every tree is the same as itself.
    pub proof fn lemma_same_as_reflexive(&self)
        ensures
            self.same_as(*self),
        decreases self,
    {
        self.test.lemma_same_as_reflexive();
        self.cons.lemma_same_as_reflexive();
        if let Some(x0) = &self.alt {
            x0.lemma_same_as_reflexive();
        }
    }
}

impl Clone for IfStmt {
    fn clone(&self) -> (r: Self)
        ensures
            self.same_as(r),
        decreases self,
    {
        let alt = match &self.alt {
            None => None,
            Some(x) => Some(Box::new((**x).clone())),
        };
        IfStmt {
            span: self.span,
            test: Box::new((*self.test).clone()),
            cons: Box::new((*self.cons).clone()),
            alt,
        }
    }
}

impl SwitchStmt {
    /// `self` and `other` are the same tree: equal leaves, and lists of
    /// the same length whose items are the same trees, in order.
    pub open spec fn same_as(self, other: Self) -> bool
        decreases self,
    {
        &&& self.span == other.span
        &&& self.body_ctxt == other.body_ctxt
        &&& (*self.discriminant).same_as((*other.discriminant))
        &&& (self.cases@.len() == other.cases@.len() && forall|i0: int| #![trigger self.cases@[i0]] 0 <= i0 < self.cases@.len() ==> self.cases@[i0].same_as(other.cases@[i0]))
    }

    /// Every tree is the same as itself.
    pub proof fn lemma_same_as_reflexive(&self)
        ensures
            self.same_as(*self),
        decreases self,
    {
        self.discriminant.lemma_same_as_reflexive();
        assert forall|i0: int| #![trigger self.cases@[i0]] 0 <= i0 < self.cases@.len() implies self.cases@[i0].same_as(self.cases@[i0]) by {
            assert(decreases_to!(self => self.cases));
            assert(decreases_to!(self.cases => self.cases@));
            assert(decreases_to!(self.cases@ => self.cases@[i0]));
            self.cases@[i0].lemma_same_as_reflexive();
        }
    }
}

impl Clone for SwitchStmt {
    fn clone(&self) -> (r: Self)
        ensures
            self.same_as(r),
        decreases self,
    {
        let mut cases: Vec<SwitchCase> = Vec::new();
        let mut i: usize = 0;
        while i < self.cases.len()
            invariant
                i <= self.cases@.len(),
                cases@.len() == i,
                forall|j: int| #![trigger cases@[j]] 0 <= j < i ==> self.cases@[j].same_as(cases@[j]),
            decreases self.cases@.len() - i,
        {
            proof {
                assert(decreases_to!(self => self.cases));
                assert(decreases_to!(self.cases => self.cases@));
                assert(decreases_to!(self.cases@ => self.cases@[i as int]));
            }
            cases.push(self.cases[i].clone());
            i += 1;
        }
        SwitchStmt {
            span: self.span,
            body_ctxt: self.body_ctxt,
            discriminant: Box::new((*self.discriminant).clone()),
            cases,
        }
    }
}

impl ThrowStmt {
    /// `self` and `other` are the same tree: equal leaves, and lists of
    /// the same length whose items are the same trees, in order.
    pub open spec fn same_as(self, other: Self) -> bool
        decreases self,
    {
        &&& self.span == other.span
        &&& (*self.arg).same_as((*other.arg))
    }

    /// Every tree is the same as itself.
    pub proof fn lemma_same_as_reflexive(&self)
        ensures
            self.same_as(*self),
        decreases self,
    {
        self.arg.lemma_same_as_reflexive();
    }
}

impl Clone for ThrowStmt {
    fn clone(&self) -> (r: Self)
        ensures
            self.same_as(r),
        decreases self,
    {
        ThrowStmt { span: self.span, arg: Box::new((*self.arg).clone()) }
    }
}

impl TryStmt {
    /// `self` and `other` are the same tree: equal leaves, and lists of
    /// the same length whose items are the same trees, in order.
    pub open spec fn same_as(self, other: Self) -> bool
        decreases self,
    {
        &&& self.span == other.span
        &&& self.block.same_as(other.block)
        &&& (match self.handler { None => other.handler is None, Some(x0) => other.handler is Some && x0.same_as(other.handler->Some_0) })
        &&& (match self.finalizer { None => other.finalizer is None, Some(x0) => other.finalizer is Some && x0.same_as(other.finalizer->Some_0) })
    }

    /// Every tree is the same as itself.
    pub proof fn lemma_same_as_reflexive(&self)
        ensures
            self.same_as(*self),
        decreases self,
    {
        self.block.lemma_same_as_reflexive();
        if let Some(x0) = &self.handler {
            x0.lemma_same_as_reflexive();
        }
        if let Some(x0) = &self.finalizer {
            x0.lemma_same_as_reflexive();
        }
    }
}

impl Clone for TryStmt {
    fn clone(&self) -> (r: Self)
        ensures
            self.same_as(r),
        decreases self,
    {
        let handler = match &self.handler {
            None => None,
            Some(x) => Some(x.clone()),
        };
        let finalizer = match &self.finalizer {
            None => None,
            Some(x) => Some(x.clone()),
        };
        TryStmt { span: self.span, block: self.block.clone(), handler, finalizer }
    }
}

impl WhileStmt {
    /// `self` and `other` are the same tree: equal leaves, and lists of
    /// the same length whose items are the same trees, in order.
    pub open spec fn same_as(self, other: Self) -> bool
        decreases self,
    {
        &&& self.span == other.span
        &&& (*self.test).same_as((*other.test))
        &&& (*self.body).same_as((*other.body))
    }

    /// Every tree is the same as itself.
    pub proof fn lemma_same_as_reflexive(&self)
        ensures
            self.same_as(*self),
        decreases self,
    {
        self.test.lemma_same_as_reflexive();
        self.body.lemma_same_as_reflexive();
    }
}

impl Clone for WhileStmt {
    fn clone(&self) -> (r: Self)
        ensures
            self.same_as(r),
        decreases self,
    {
        WhileStmt {
            span: self.span,
            test: Box::new((*self.test).clone()),
            body: Box::new((*self.body).clone()),
        }
    }
}

impl DoWhileStmt {
    /// `self` and `other` are the same tree: equal leaves, and lists of
    /// the same length whose items are the same trees, in order.
    pub open spec fn same_as(self, other: Self) -> bool
        decreases self,
    {
        &&& self.span == other.span
        &&& (*self.test).same_as((*other.test))
        &&& (*self.body).same_as((*other.body))
    }

    /// Every tree is the same as itself.
    pub proof fn lemma_same_as_reflexive(&self)
        ensures
            self.same_as(*self),
        decreases self,
    {
        self.test.lemma_same_as_reflexive();
        self.body.lemma_same_as_reflexive();
    }
}

impl Clone for DoWhileStmt {
    fn clone(&self) -> (r: Self)
        ensures
            self.same_as(r),
        decreases self,
    {
        DoWhileStmt {
            span: self.span,
            test: Box::new((*self.test).clone()),
            body: Box::new((*self.body).clone()),
        }
    }
}

impl ForStmt {
    /// `self` and `other` are the same tree: equal leaves, and lists of
    /// the same length whose items are the same trees, in order.
    pub open spec fn same_as(self, other: Self) -> bool
        decreases self,
    {
        &&& self.span == other.span
        &&& (match self.init { None => other.init is None, Some(x0) => other.init is Some && x0.same_as(other.init->Some_0) })
        &&& (match self.test { None => other.test is None, Some(x0) => other.test is Some && (*x0).same_as((*other.test->Some_0)) })
        &&& (match self.update { None => other.update is None, Some(x0) => other.update is Some && (*x0).same_as((*other.update->Some_0)) })
        &&& (*self.body).same_as((*other.body))
    }

    /// Every tree is the same as itself.
    pub proof fn lemma_same_as_reflexive(&self)
        ensures
            self.same_as(*self),
        decreases self,
    {
        if let Some(x0) = &self.init {
            x0.lemma_same_as_reflexive();
        }
        if let Some(x0) = &self.test {
            x0.lemma_same_as_reflexive();
        }
        if let Some(x0) = &self.update {
            x0.lemma_same_as_reflexive();
        }
        self.body.lemma_same_as_reflexive();
    }
}

impl Clone for ForStmt {
    fn clone(&self) -> (r: Self)
        ensures
            self.same_as(r),
        decreases self,
    {
        let init = match &self.init {
            None => None,
            Some(x) => Some(x.clone()),
        };
        let test = match &self.test {
            None => None,
            Some(x) => Some(Box::new((**x).clone())),
        };
        let update = match &self.update {
            None => None,
            Some(x) => Some(Box::new((**x).clone())),
        };
        ForStmt { span: self.span, init, test, update, body: Box::new((*self.body).clone()) }
    }
}

impl ForInStmt {
    /// `self` and `other` are the same tree: equal leaves, and lists of
    /// the same length whose items are the same trees, in order.
    pub open spec fn same_as(self, other: Self) -> bool
        decreases self,
    {
        &&& self.span == other.span
        &&& self.left.same_as(other.left)
        &&& (*self.right).same_as((*other.right))
        &&& (*self.body).same_as((*other.body))
    }

    /// Every tree is the same as itself.
    pub proof fn lemma_same_as_reflexive(&self)
        ensures
            self.same_as(*self),
        decreases self,
    {
        self.left.lemma_same_as_reflexive();
        self.right.lemma_same_as_reflexive();
        self.body.lemma_same_as_reflexive();
    }
}

impl Clone for ForInStmt {
    fn clone(&self) -> (r: Self)
        ensures
            self.same_as(r),
        decreases self,
    {
        ForInStmt {
            span: self.span,
            left: self.left.clone(),
            right: Box::new((*self.right).clone()),
            body: Box::new((*self.body).clone()),
        }
    }
}

impl ForOfStmt {
    /// `self` and `other` are the same tree: equal leaves, and lists of
    /// the same length whose items are the same trees, in order.
    pub open spec fn same_as(self, other: Self) -> bool
        decreases self,
    {
        &&& self.span == other.span
        &&& self.is_await == other.is_await
        &&& self.left.same_as(other.left)
        &&& (*self.right).same_as((*other.right))
        &&& (*self.body).same_as((*other.body))
    }

    /// Every tree is the same as itself.
    pub proof fn lemma_same_as_reflexive(&self)
        ensures
            self.same_as(*self),
        decreases self,
    {
        self.left.lemma_same_as_reflexive();
        self.right.lemma_same_as_reflexive();
        self.body.lemma_same_as_reflexive();
    }
}

impl Clone for ForOfStmt {
    fn clone(&self) -> (r: Self)
        ensures
            self.same_as(r),
        decreases self,
    {
        ForOfStmt {
            span: self.span,
            is_await: self.is_await,
            left: self.left.clone(),
            right: Box::new((*self.right).clone()),
            body: Box::new((*self.body).clone()),
        }
    }
}

impl SwitchCase {
    /// `self` and `other` are the same tree: equal leaves, and lists of
    /// the same length whose items are the same trees, in order.
    pub open spec fn same_as(self, other: Self) -> bool
        decreases self,
    {
        &&& self.span == other.span
        &&& (match self.test { None => other.test is None, Some(x0) => other.test is Some && (*x0).same_as((*other.test->Some_0)) })
        &&& (self.cons@.len() == other.cons@.len() && forall|i0: int| #![trigger self.cons@[i0]] 0 <= i0 < self.cons@.len() ==> self.cons@[i0].same_as(other.cons@[i0]))
    }

    /// Every tree is the same as itself.
    pub proof fn lemma_same_as_reflexive(&self)
        ensures
            self.same_as(*self),
        decreases self,
    {
        if let Some(x0) = &self.test {
            x0.lemma_same_as_reflexive();
        }
        assert forall|i0: int| #![trigger self.cons@[i0]] 0 <= i0 < self.cons@.len() implies self.cons@[i0].same_as(self.cons@[i0]) by {
            assert(decreases_to!(self => self.cons));
            assert(decreases_to!(self.cons => self.cons@));
            assert(decreases_to!(self.cons@ => self.cons@[i0]));
            self.cons@[i0].lemma_same_as_reflexive();
        }
    }
}

impl Clone for SwitchCase {
    fn clone(&self) -> (r: Self)
        ensures
            self.same_as(r),
        decreases self,
    {
        let test = match &self.test {
            None => None,
            Some(x) => Some(Box::new((**x).clone())),
        };
        let mut cons: Vec<Stmt> = Vec::new();
        let mut i: usize = 0;
        while i < self.cons.len()
            invariant
                i <= self.cons@.len(),
                cons@.len() == i,
                forall|j: int| #![trigger cons@[j]] 0 <= j < i ==> self.cons@[j].same_as(cons@[j]),
            decreases self.cons@.len() - i,
        {
            proof {
                assert(decreases_to!(self => self.cons));
                assert(decreases_to!(self.cons => self.cons@));
                assert(decreases_to!(self.cons@ => self.cons@[i as int]));
            }
            cons.push(self.cons[i].clone());
            i += 1;
        }
        SwitchCase { span: self.span, test, cons }
    }
}

impl CatchClause {
    /// `self` and `other` are the same tree: equal leaves, and lists of
    /// the same length whose items are the same trees, in order.
    pub open spec fn same_as(self, other: Self) -> bool
        decreases self,
    {
        &&& self.span == other.span
        &&& (match self.param { None => other.param is None, Some(x0) => other.param is Some && x0.same_as(other.param->Some_0) })
        &&& self.body.same_as(other.body)
    }

    /// Every tree is the same as itself.
    pub proof fn lemma_same_as_reflexive(&self)
        ensures
            self.same_as(*self),
        decreases self,
    {
        if let Some(x0) = &self.param {
            x0.lemma_same_as_reflexive();
        }
        self.body.lemma_same_as_reflexive();
    }
}

impl Clone for CatchClause {
    fn clone(&self) -> (r: Self)
        ensures
            self.same_as(r),
        decreases self,
    {
        let param = match &self.param {
            None => None,
            Some(x) => Some(x.clone()),
        };
        CatchClause { span: self.span, param, body: self.body.clone() }
    }
}

impl ForHead {
    /// `self` and `other` are the same tree: equal leaves, and lists of
    /// the same length whose items are the same trees, in order.
    pub open spec fn same_as(self, other: Self) -> bool
        decreases self,
    {
        match self {
            ForHead::VarDecl(x) => other is VarDecl && (*x).same_as((*other->VarDecl_0)),
            ForHead::UsingDecl(x) => other is UsingDecl && (*x).same_as((*other->UsingDecl_0)),
            ForHead::Pat(x) => other is Pat && (*x).same_as((*other->Pat_0)),
        }
    }

    /// Every tree is the same as itself.
    pub proof fn lemma_same_as_reflexive(&self)
        ensures
            self.same_as(*self),
        decreases self,
    {
        match self {
            ForHead::VarDecl(x) => {
                x.lemma_same_as_reflexive();
            },
            ForHead::UsingDecl(x) => {
                x.lemma_same_as_reflexive();
            },
            ForHead::Pat(x) => {
                x.lemma_same_as_reflexive();
            },
        }
    }
}

impl Clone for ForHead {
    fn clone(&self) -> (r: Self)
        ensures
            self.same_as(r),
        decreases self,
    {
        match self {
            ForHead::VarDecl(x) => ForHead::VarDecl(Box::new((**x).clone())),
            ForHead::UsingDecl(x) => ForHead::UsingDecl(Box::new((**x).clone())),
            ForHead::Pat(x) => ForHead::Pat(Box::new((**x).clone())),
        }
    }
}

impl VarDeclOrExpr {
    /// `self` and `other` are the same tree: equal leaves, and lists of
    /// the same length whose items are the same trees, in order.
    pub open spec fn same_as(self, other: Self) -> bool
        decreases self,
    {
        match self {
            VarDeclOrExpr::VarDecl(x) => other is VarDecl && (*x).same_as((*other->VarDecl_0)),
            VarDeclOrExpr::Expr(x) => other is Expr && (*x).same_as((*other->Expr_0)),
        }
    }

    /// Every tree is the same as itself.
    pub proof fn lemma_same_as_reflexive(&self)
        ensures
            self.same_as(*self),
        decreases self,
    {
        match self {
            VarDeclOrExpr::VarDecl(x) => {
                x.lemma_same_as_reflexive();
            },
            VarDeclOrExpr::Expr(x) => {
                x.lemma_same_as_reflexive();
            },
        }
    }
}

impl Clone for VarDeclOrExpr {
    fn clone(&self) -> (r: Self)
        ensures
            self.same_as(r),
        decreases self,
    {
        match self {
            VarDeclOrExpr::VarDecl(x) => VarDeclOrExpr::VarDecl(Box::new((**x).clone())),
            VarDeclOrExpr::Expr(x) => VarDeclOrExpr::Expr(Box::new((**x).clone())),
        }
    }
}
} // verus!
