//! Statements in lowered form.
use std::sync::Arc;
use vstd::prelude::*;

use crate::ast::common::{Ident, Span};
use crate::ast::stmt::{
    BlockStmt, BreakStmt, CatchClause, ContinueStmt, DebuggerStmt, EmptyStmt, ForHead, Stmt,
    SwitchCase, SwitchStmt, VarDeclOrExpr,
};
use crate::decl::{lower_decl, lowers_decl, DeclData};
use crate::expr::{lower_expr, lower_opt_expr, lowers_expr, lowers_opt_expr, ExprData};
use crate::pat::{lower_opt_pat, lowers_opt_pat, PatData};

verus! {

#[derive(Clone, Debug, PartialEq, Eq)]
pub struct BlockStmtData {
    pub span: Span,
    pub ctxt: u32,
    pub stmts: Vec<Arc<StmtData>>,
}

/// A lowered statement.
#[derive(Clone, Debug, PartialEq, Eq)]
pub enum StmtData {
    Block(Arc<BlockStmtData>),
    Empty(EmptyStmt),
    Debugger(DebuggerStmt),
    With(WithStmtData),
    Return(ReturnStmtData),
    Labeled(LabeledStmtData),
    Break(BreakStmt),
    Continue(ContinueStmt),
    If(IfStmtData),
    Switch(SwitchStmtData),
    Throw(ThrowStmtData),
    Try(TryStmtData),
    While(WhileStmtData),
    DoWhile(DoWhileStmtData),
    For(ForStmtData),
    ForIn(ForInStmtData),
    ForOf(ForOfStmtData),
    Decl(Arc<DeclData>),
    Expr(ExprStmtData),
}

#[derive(Clone, Debug, PartialEq, Eq)]
pub struct WithStmtData {
    pub span: Span,
    pub obj: Arc<ExprData>,
    pub body: Arc<StmtData>,
}

#[derive(Clone, Debug, PartialEq, Eq)]
pub struct ReturnStmtData {
    pub span: Span,
    pub arg: Option<Arc<ExprData>>,
}

#[derive(Clone, Debug, PartialEq, Eq)]
pub struct LabeledStmtData {
    pub span: Span,
    pub label: Ident,
    pub body: Arc<StmtData>,
}

#[derive(Clone, Debug, PartialEq, Eq)]
pub struct IfStmtData {
    pub span: Span,
    pub test: Arc<ExprData>,
    pub cons: Arc<StmtData>,
    pub alt: Option<Arc<StmtData>>,
}

/// `case test: cons` (`default:` when `test` is `None`).
#[derive(Clone, Debug, PartialEq, Eq)]
pub struct SwitchCaseData {
    pub span: Span,
    pub test: Option<Arc<ExprData>>,
    pub cons: Vec<Arc<StmtData>>,
}

#[derive(Clone, Debug, PartialEq, Eq)]
pub struct SwitchStmtData {
    pub span: Span,
    pub body_ctxt: u32,
    pub discriminant: Arc<ExprData>,
    pub cases: Vec<Arc<SwitchCaseData>>,
}

#[derive(Clone, Debug, PartialEq, Eq)]
pub struct ThrowStmtData {
    pub span: Span,
    pub arg: Arc<ExprData>,
}

#[derive(Clone, Debug, PartialEq, Eq)]
pub struct CatchClauseData {
    pub span: Span,
    pub param: Option<Arc<PatData>>,
    pub body: Arc<BlockStmtData>,
}

#[derive(Clone, Debug, PartialEq, Eq)]
pub struct TryStmtData {
    pub span: Span,
    pub block: Arc<BlockStmtData>,
    pub handler: Option<Arc<CatchClauseData>>,
    pub finalizer: Option<Arc<BlockStmtData>>,
}

#[derive(Clone, Debug, PartialEq, Eq)]
pub struct WhileStmtData {
    pub span: Span,
    pub test: Arc<ExprData>,
    pub body: Arc<StmtData>,
}

#[derive(Clone, Debug, PartialEq, Eq)]
pub struct DoWhileStmtData {
    pub span: Span,
    pub test: Arc<ExprData>,
    pub body: Arc<StmtData>,
}

/// `for (init; test; update) body`; the initializer is kept as parsed.
#[derive(Clone, Debug, PartialEq, Eq)]
pub struct ForStmtData {
    pub span: Span,
    pub init: Option<VarDeclOrExpr>,
    pub test: Option<Arc<ExprData>>,
    pub update: Option<Arc<ExprData>>,
    pub body: Arc<StmtData>,
}

#[derive(Clone, Debug, PartialEq, Eq)]
pub struct ForInStmtData {
    pub span: Span,
    pub left: ForHead,
    pub right: Arc<ExprData>,
    pub body: Arc<StmtData>,
}

#[derive(Clone, Debug, PartialEq, Eq)]
pub struct ForOfStmtData {
    pub span: Span,
    pub is_await: bool,
    pub left: ForHead,
    pub right: Arc<ExprData>,
    pub body: Arc<StmtData>,
}

#[derive(Clone, Debug, PartialEq, Eq)]
pub struct ExprStmtData {
    pub span: Span,
    pub expr: Arc<ExprData>,
}

// ---------------------------------------------------------------------
// What lowering produces
// ---------------------------------------------------------------------

/// `d` is the lowered form of the list of statements `s`, in order.
pub open spec fn lowers_stmts(s: Seq<Stmt>, d: Seq<Arc<StmtData>>) -> bool
    decreases s,
{
    &&& d.len() == s.len()
    &&& forall|i: int| 0 <= i < s.len() ==> lowers_stmt(#[trigger] s[i], *d[i])
}

/// `d` is the lowered form of the block `b`.
pub open spec fn lowers_block_stmt(b: BlockStmt, d: BlockStmtData) -> bool
    decreases b,
{
    d.span == b.span && d.ctxt == b.ctxt && lowers_stmts(b.stmts@, d.stmts@)
}

/// `d` is the lowered form of the optional block `b`.
pub open spec fn lowers_opt_block_stmt(b: Option<BlockStmt>, d: Option<Arc<BlockStmtData>>) -> bool
    decreases b,
{
    match b {
        None => d is None,
        Some(x) => d is Some && lowers_block_stmt(x, *d->Some_0),
    }
}

/// `d` is the lowered form of the catch clause `c`.
pub open spec fn lowers_catch_clause(c: CatchClause, d: CatchClauseData) -> bool
    decreases c,
{
    d.span == c.span && lowers_opt_pat(c.param, d.param) && lowers_block_stmt(c.body, *d.body)
}

/// `d` is the lowered form of the optional catch clause `c`.
pub open spec fn lowers_opt_catch_clause(c: Option<CatchClause>, d: Option<Arc<CatchClauseData>>) -> bool
    decreases c,
{
    match c {
        None => d is None,
        Some(x) => d is Some && lowers_catch_clause(x, *d->Some_0),
    }
}

/// `d` is the lowered form of the switch statement `x`.
pub open spec fn lowers_switch_stmt(x: SwitchStmt, d: SwitchStmtData) -> bool
    decreases x,
{
    &&& d.span == x.span
    &&& d.body_ctxt == x.body_ctxt
    &&& lowers_expr(*x.discriminant, *d.discriminant)
    &&& d.cases@.len() == x.cases@.len()
    &&& forall|i: int| 0 <= i < x.cases@.len() ==> lowers_switch_case(#[trigger] x.cases@[i], *d.cases@[i])
}

/// `d` is the lowered form of the switch case `c`.
pub open spec fn lowers_switch_case(c: SwitchCase, d: SwitchCaseData) -> bool
    decreases c,
{
    d.span == c.span && lowers_opt_expr(c.test, d.test) && lowers_stmts(c.cons@, d.cons@)
}

/// `d` is the lowered form of the optional statement `s`.
pub open spec fn lowers_opt_stmt(s: Option<Box<Stmt>>, d: Option<Arc<StmtData>>) -> bool
    decreases s,
{
    match s {
        None => d is None,
        Some(x) => d is Some && lowers_stmt(*x, *d->Some_0),
    }
}

/// `d` is the lowered form of the statement `s`: nested statements,
/// expressions, patterns and declarations are lowered; labels, `for`
/// initializers and loop heads are kept.
pub open spec fn lowers_stmt(s: Stmt, d: StmtData) -> bool
    decreases s,
{
    match s {
        Stmt::Block(x) => d is Block && lowers_block_stmt(x, *d->Block_0),
        Stmt::Empty(x) => d == StmtData::Empty(x),
        Stmt::Debugger(x) => d == StmtData::Debugger(x),
        Stmt::With(x) => match d {
            StmtData::With(y) => y.span == x.span && lowers_expr(*x.obj, *y.obj) && lowers_stmt(*x.body, *y.body),
            _ => false,
        },
        Stmt::Return(x) => match d {
            StmtData::Return(y) => y.span == x.span && lowers_opt_expr(x.arg, y.arg),
            _ => false,
        },
        Stmt::Labeled(x) => match d {
            StmtData::Labeled(y) => y.span == x.span && y.label == x.label && lowers_stmt(*x.body, *y.body),
            _ => false,
        },
        Stmt::Break(x) => d == StmtData::Break(x),
        Stmt::Continue(x) => d == StmtData::Continue(x),
        Stmt::If(x) => match d {
            StmtData::If(y) => {
                &&& y.span == x.span
                &&& lowers_expr(*x.test, *y.test)
                &&& lowers_stmt(*x.cons, *y.cons)
                &&& lowers_opt_stmt(x.alt, y.alt)
            },
            _ => false,
        },
        Stmt::Switch(x) => d is Switch && lowers_switch_stmt(x, d->Switch_0),
        Stmt::Throw(x) => match d {
            StmtData::Throw(y) => y.span == x.span && lowers_expr(*x.arg, *y.arg),
            _ => false,
        },
        Stmt::Try(x) => match d {
            StmtData::Try(y) => {
                &&& y.span == x.span
                &&& lowers_block_stmt(x.block, *y.block)
                &&& lowers_opt_catch_clause(x.handler, y.handler)
                &&& lowers_opt_block_stmt(x.finalizer, y.finalizer)
            },
            _ => false,
        },
        Stmt::While(x) => match d {
            StmtData::While(y) => y.span == x.span && lowers_expr(*x.test, *y.test) && lowers_stmt(*x.body, *y.body),
            _ => false,
        },
        Stmt::DoWhile(x) => match d {
            StmtData::DoWhile(y) => y.span == x.span && lowers_expr(*x.test, *y.test) && lowers_stmt(*x.body, *y.body),
            _ => false,
        },
        Stmt::For(x) => match d {
            StmtData::For(y) => {
                &&& y.span == x.span
                &&& y.init == x.init
                &&& lowers_opt_expr(x.test, y.test)
                &&& lowers_opt_expr(x.update, y.update)
                &&& lowers_stmt(*x.body, *y.body)
            },
            _ => false,
        },
        Stmt::ForIn(x) => match d {
            StmtData::ForIn(y) => {
                &&& y.span == x.span
                &&& y.left == x.left
                &&& lowers_expr(*x.right, *y.right)
                &&& lowers_stmt(*x.body, *y.body)
            },
            _ => false,
        },
        Stmt::ForOf(x) => match d {
            StmtData::ForOf(y) => {
                &&& y.span == x.span
                &&& y.is_await == x.is_await
                &&& y.left == x.left
                &&& lowers_expr(*x.right, *y.right)
                &&& lowers_stmt(*x.body, *y.body)
            },
            _ => false,
        },
        Stmt::Decl(x) => d is Decl && lowers_decl(x, *d->Decl_0),
        Stmt::Expr(x) => match d {
            StmtData::Expr(y) => y.span == x.span && lowers_expr(*x.expr, *y.expr),
            _ => false,
        },
    }
}

// ---------------------------------------------------------------------
// Lowering
// ---------------------------------------------------------------------

#[verifier::loop_isolation(false)]
pub(crate) fn lower_stmts(s: Vec<Stmt>) -> (d: Vec<Arc<StmtData>>)
    ensures
        lowers_stmts(s@, d@),
    decreases s,
{
    let ghost gs = s@;
    let mut out: Vec<Arc<StmtData>> = Vec::new();
    for x in it: s.into_iter()
        invariant
            it.seq() == gs,
            out@.len() == it.index(),
            forall|j: int| 0 <= j < it.index() ==> lowers_stmt(#[trigger] gs[j], *out@[j]),
    {
        proof {
            assert(decreases_to!(s => s@));
            assert(decreases_to!(s@ => s@[it.index() as int]));
        }
        out.push(Arc::new(lower_stmt(x)));
    }
    out
}

/// Lowers a block.
pub fn lower_block_stmt(b: BlockStmt) -> (d: BlockStmtData)
    ensures
        lowers_block_stmt(b, d),
    decreases b,
{
    BlockStmtData { span: b.span, ctxt: b.ctxt, stmts: lower_stmts(b.stmts) }
}

fn lower_opt_block_stmt(b: Option<BlockStmt>) -> (d: Option<Arc<BlockStmtData>>)
    ensures
        lowers_opt_block_stmt(b, d),
    decreases b,
{
    match b {
        None => None,
        Some(x) => Some(Arc::new(lower_block_stmt(x))),
    }
}

/// Lowers a catch clause.
pub fn lower_catch_clause(c: CatchClause) -> (d: CatchClauseData)
    ensures
        lowers_catch_clause(c, d),
    decreases c,
{
    CatchClauseData { span: c.span, param: lower_opt_pat(c.param), body: Arc::new(lower_block_stmt(c.body)) }
}

fn lower_opt_catch_clause(c: Option<CatchClause>) -> (d: Option<Arc<CatchClauseData>>)
    ensures
        lowers_opt_catch_clause(c, d),
    decreases c,
{
    match c {
        None => None,
        Some(x) => Some(Arc::new(lower_catch_clause(x))),
    }
}

fn lower_switch_case(c: SwitchCase) -> (d: SwitchCaseData)
    ensures
        lowers_switch_case(c, d),
    decreases c,
{
    SwitchCaseData { span: c.span, test: lower_opt_expr(c.test), cons: lower_stmts(c.cons) }
}

#[verifier::loop_isolation(false)]
fn lower_switch_stmt(x: SwitchStmt) -> (d: SwitchStmtData)
    ensures
        lowers_switch_stmt(x, d),
    decreases x,
{
    let discriminant = Arc::new(lower_expr(*x.discriminant));
    let ghost gc = x.cases@;
    let mut cases: Vec<Arc<SwitchCaseData>> = Vec::new();
    for c in it: x.cases.into_iter()
        invariant
            it.seq() == gc,
            cases@.len() == it.index(),
            forall|j: int| 0 <= j < it.index() ==> lowers_switch_case(#[trigger] gc[j], *cases@[j]),
    {
        proof {
            assert(decreases_to!(x => x.cases));
            assert(decreases_to!(x.cases => x.cases@));
            assert(decreases_to!(x.cases@ => x.cases@[it.index() as int]));
        }
        cases.push(Arc::new(lower_switch_case(c)));
    }
    SwitchStmtData { span: x.span, body_ctxt: x.body_ctxt, discriminant, cases }
}

fn lower_opt_stmt(s: Option<Box<Stmt>>) -> (d: Option<Arc<StmtData>>)
    ensures
        lowers_opt_stmt(s, d),
    decreases s,
{
    match s {
        None => None,
        Some(x) => Some(Arc::new(lower_stmt(*x))),
    }
}

/// Lowers a statement.
pub fn lower_stmt(stmt: Stmt) -> (d: StmtData)
    ensures
        lowers_stmt(stmt, d),
    decreases stmt,
{
    match stmt {
        Stmt::Block(s) => StmtData::Block(Arc::new(lower_block_stmt(s))),
        Stmt::Empty(s) => StmtData::Empty(s),
        Stmt::Debugger(s) => StmtData::Debugger(s),
        Stmt::With(s) => StmtData::With(
            WithStmtData { span: s.span, obj: Arc::new(lower_expr(*s.obj)), body: Arc::new(lower_stmt(*s.body)) },
        ),
        Stmt::Return(s) => StmtData::Return(ReturnStmtData { span: s.span, arg: lower_opt_expr(s.arg) }),
        Stmt::Labeled(s) => StmtData::Labeled(
            LabeledStmtData { span: s.span, label: s.label, body: Arc::new(lower_stmt(*s.body)) },
        ),
        Stmt::Break(s) => StmtData::Break(s),
        Stmt::Continue(s) => StmtData::Continue(s),
        Stmt::If(s) => StmtData::If(
            IfStmtData {
                span: s.span,
                test: Arc::new(lower_expr(*s.test)),
                cons: Arc::new(lower_stmt(*s.cons)),
                alt: lower_opt_stmt(s.alt),
            },
        ),
        Stmt::Switch(s) => StmtData::Switch(lower_switch_stmt(s)),
        Stmt::Throw(s) => StmtData::Throw(ThrowStmtData { span: s.span, arg: Arc::new(lower_expr(*s.arg)) }),
        Stmt::Try(s) => StmtData::Try(
            TryStmtData {
                span: s.span,
                block: Arc::new(lower_block_stmt(s.block)),
                handler: lower_opt_catch_clause(s.handler),
                finalizer: lower_opt_block_stmt(s.finalizer),
            },
        ),
        Stmt::While(s) => StmtData::While(
            WhileStmtData { span: s.span, test: Arc::new(lower_expr(*s.test)), body: Arc::new(lower_stmt(*s.body)) },
        ),
        Stmt::DoWhile(s) => StmtData::DoWhile(
            DoWhileStmtData { span: s.span, test: Arc::new(lower_expr(*s.test)), body: Arc::new(lower_stmt(*s.body)) },
        ),
        Stmt::For(s) => StmtData::For(
            ForStmtData {
                span: s.span,
                init: s.init,
                test: lower_opt_expr(s.test),
                update: lower_opt_expr(s.update),
                body: Arc::new(lower_stmt(*s.body)),
            },
        ),
        Stmt::ForIn(s) => StmtData::ForIn(
            ForInStmtData {
                span: s.span,
                left: s.left,
                right: Arc::new(lower_expr(*s.right)),
                body: Arc::new(lower_stmt(*s.body)),
            },
        ),
        Stmt::ForOf(s) => StmtData::ForOf(
            ForOfStmtData {
                span: s.span,
                is_await: s.is_await,
                left: s.left,
                right: Arc::new(lower_expr(*s.right)),
                body: Arc::new(lower_stmt(*s.body)),
            },
        ),
        Stmt::Decl(s) => StmtData::Decl(Arc::new(lower_decl(s))),
        Stmt::Expr(s) => StmtData::Expr(ExprStmtData { span: s.span, expr: Arc::new(lower_expr(*s.expr)) }),
    }
}

} // verus!
