//! Where nodes come from: the span of each expression and statement,
//! before and after lowering, and the law that lowering keeps it.
use vstd::prelude::*;

use crate::ast::common::Span;
use crate::ast::decl::Decl;
use crate::ast::expr::Expr;
use crate::ast::lit::Lit;
use crate::ast::stmt::Stmt;
use crate::decl::{lowers_decl, DeclData};
use crate::expr::{lowers_expr, ExprData};
use crate::stmts::{lowers_stmt, StmtData};

verus! {

/// The span of a literal.
pub open spec fn lit_span(l: Lit) -> Span {
    match l {
        Lit::Str(x) => x.span,
        Lit::Bool(x) => x.span,
        Lit::Null(x) => x.span,
        Lit::Num(x) => x.span,
        Lit::BigInt(x) => x.span,
        Lit::Regex(x) => x.span,
        Lit::JSXText(x) => x.span,
    }
}

/// The span of an expression: its own, or that of the function or class
/// it is made of.
pub open spec fn expr_span(e: Expr) -> Span {
    match e {
        Expr::This(x) => x.span,
        Expr::Array(x) => x.span,
        Expr::Object(x) => x.span,
        Expr::Fn(x) => x.function.span,
        Expr::Unary(x) => x.span,
        Expr::Update(x) => x.span,
        Expr::Bin(x) => x.span,
        Expr::Assign(x) => x.span,
        Expr::Member(x) => x.span,
        Expr::SuperProp(x) => x.span,
        Expr::Cond(x) => x.span,
        Expr::Call(x) => x.span,
        Expr::New(x) => x.span,
        Expr::Sequence(x) => x.span,
        Expr::Ident(x) => x.span,
        Expr::Lit(x) => lit_span(x),
        Expr::Tpl(x) => x.span,
        Expr::TaggedTpl(x) => x.span,
        Expr::Arrow(x) => x.span,
        Expr::Class(x) => x.class.span,
        Expr::Yield(x) => x.span,
        Expr::MetaProp(x) => x.span,
        Expr::Await(x) => x.span,
        Expr::Paren(x) => x.span,
        Expr::JSXMember(x) => x.span,
        Expr::JSXNamespacedName(x) => x.span,
        Expr::JSXEmpty(x) => x.span,
        Expr::JSXElement(x) => x.span,
        Expr::JSXFragment(x) => x.span,
        Expr::TsTypeAssertion(x) => x.span,
        Expr::TsConstAssertion(x) => x.span,
        Expr::TsNonNull(x) => x.span,
        Expr::TsAs(x) => x.span,
        Expr::TsInstantiation(x) => x.span,
        Expr::TsSatisfies(x) => x.span,
        Expr::PrivateName(x) => x.span,
        Expr::OptChain(x) => x.span,
        Expr::Invalid(x) => x.span,
    }
}

/// The span of a lowered expression, read the same way.
pub open spec fn expr_data_span(d: ExprData) -> Span {
    match d {
        ExprData::This(x) => x.span,
        ExprData::Array(x) => x.span,
        ExprData::Object(x) => x.span,
        ExprData::Fn(x) => x.function.span,
        ExprData::Unary(x) => x.span,
        ExprData::Update(x) => x.span,
        ExprData::Bin(x) => x.span,
        ExprData::Assign(x) => x.span,
        ExprData::Member(x) => x.span,
        ExprData::SuperProp(x) => x.span,
        ExprData::Cond(x) => x.span,
        ExprData::Call(x) => x.span,
        ExprData::New(x) => x.span,
        ExprData::Sequence(x) => x.span,
        ExprData::Ident(x) => x.span,
        ExprData::Lit(x) => lit_span(x),
        ExprData::Tpl(x) => x.span,
        ExprData::TaggedTpl(x) => x.span,
        ExprData::Arrow(x) => x.span,
        ExprData::Class(x) => x.class.span,
        ExprData::Yield(x) => x.span,
        ExprData::MetaProp(x) => x.span,
        ExprData::Await(x) => x.span,
        ExprData::Paren(x) => x.span,
        ExprData::JSXMember(x) => x.span,
        ExprData::JSXNamespacedName(x) => x.span,
        ExprData::JSXEmpty(x) => x.span,
        ExprData::JSXElement(x) => x.span,
        ExprData::JSXFragment(x) => x.span,
        ExprData::TsTypeAssertion(x) => x.span,
        ExprData::TsConstAssertion(x) => x.span,
        ExprData::TsNonNull(x) => x.span,
        ExprData::TsAs(x) => x.span,
        ExprData::TsInstantiation(x) => x.span,
        ExprData::TsSatisfies(x) => x.span,
        ExprData::PrivateName(x) => x.span,
        ExprData::OptChain(x) => x.span,
        ExprData::Invalid(x) => x.span,
    }
}

/// The span of a declaration: its own, or that of the function or class
/// it declares.
pub open spec fn decl_span(d: Decl) -> Span {
    match d {
        Decl::Class(x) => x.class.span,
        Decl::Fn(x) => x.function.span,
        Decl::Var(x) => x.span,
        Decl::Using(x) => x.span,
        Decl::TsInterface(x) => x.span,
        Decl::TsTypeAlias(x) => x.span,
        Decl::TsEnum(x) => x.span,
        Decl::TsModule(x) => x.span,
    }
}

/// The span of a lowered declaration, read the same way.
pub open spec fn decl_data_span(d: DeclData) -> Span {
    match d {
        DeclData::Class(x) => x.class.span,
        DeclData::Fn(x) => x.function.span,
        DeclData::Var(x) => x.span,
        DeclData::Using(x) => x.span,
        DeclData::TsInterface(x) => x.span,
        DeclData::TsTypeAlias(x) => x.span,
        DeclData::TsEnum(x) => x.span,
        DeclData::TsModule(x) => x.span,
    }
}

/// The span of a statement; a declaration statement has that of its
/// declaration.
pub open spec fn stmt_span(s: Stmt) -> Span {
    match s {
        Stmt::Block(x) => x.span,
        Stmt::Empty(x) => x.span,
        Stmt::Debugger(x) => x.span,
        Stmt::With(x) => x.span,
        Stmt::Return(x) => x.span,
        Stmt::Labeled(x) => x.span,
        Stmt::Break(x) => x.span,
        Stmt::Continue(x) => x.span,
        Stmt::If(x) => x.span,
        Stmt::Switch(x) => x.span,
        Stmt::Throw(x) => x.span,
        Stmt::Try(x) => x.span,
        Stmt::While(x) => x.span,
        Stmt::DoWhile(x) => x.span,
        Stmt::For(x) => x.span,
        Stmt::ForIn(x) => x.span,
        Stmt::ForOf(x) => x.span,
        Stmt::Decl(x) => decl_span(x),
        Stmt::Expr(x) => x.span,
    }
}

/// The span of a lowered statement, read the same way.
pub open spec fn stmt_data_span(s: StmtData) -> Span {
    match s {
        StmtData::Block(x) => x.span,
        StmtData::Empty(x) => x.span,
        StmtData::Debugger(x) => x.span,
        StmtData::With(x) => x.span,
        StmtData::Return(x) => x.span,
        StmtData::Labeled(x) => x.span,
        StmtData::Break(x) => x.span,
        StmtData::Continue(x) => x.span,
        StmtData::If(x) => x.span,
        StmtData::Switch(x) => x.span,
        StmtData::Throw(x) => x.span,
        StmtData::Try(x) => x.span,
        StmtData::While(x) => x.span,
        StmtData::DoWhile(x) => x.span,
        StmtData::For(x) => x.span,
        StmtData::ForIn(x) => x.span,
        StmtData::ForOf(x) => x.span,
        StmtData::Decl(x) => decl_data_span(*x),
        StmtData::Expr(x) => x.span,
    }
}

/// Lowering keeps the span of an expression: a lowered expression reports
/// the source range of the expression it was lowered from.
pub proof fn lemma_lowering_keeps_expr_span(e: Expr, d: ExprData)
    requires
        lowers_expr(e, d),
    ensures
        expr_data_span(d) == expr_span(e),
{
    reveal_with_fuel(lowers_expr, 2);
}

/// Lowering keeps the span of a declaration.
pub proof fn lemma_lowering_keeps_decl_span(x: Decl, d: DeclData)
    requires
        lowers_decl(x, d),
    ensures
        decl_data_span(d) == decl_span(x),
{
    reveal_with_fuel(lowers_decl, 2);
}

/// Lowering keeps the span of a statement: a lowered statement reports the
/// source range of the statement it was lowered from.
pub proof fn lemma_lowering_keeps_stmt_span(s: Stmt, d: StmtData)
    requires
        lowers_stmt(s, d),
    ensures
        stmt_data_span(d) == stmt_span(s),
{
    reveal_with_fuel(lowers_stmt, 3);
}

} // verus!
